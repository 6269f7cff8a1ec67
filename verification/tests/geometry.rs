//! Tests of the Geometry Extractor: axis swapping, ring selection, and the
//! rejection of malformed polygon structures.

use bragi::geometry::{extract_geometry, Coordinate};
use bragi::errors::Failure;
use bragi::params::{ParamValue, RawParameters};

fn shape_params(shape: ParamValue) -> RawParameters {
    RawParameters { entries: vec![(String::from("shape"), shape)] }
}

fn geometry_of(coordinates: ParamValue) -> ParamValue {
    ParamValue::Obj(vec![(
        String::from("geometry"),
        ParamValue::Obj(vec![(String::from("coordinates"), coordinates)]),
    )])
}

fn point(lon: i64, lat: i64) -> ParamValue {
    ParamValue::Arr(vec![ParamValue::Num(lon), ParamValue::Num(lat)])
}

fn expect_validation(r: Result<Vec<Coordinate>, Failure>, message: &str) {
    match r {
        Err(Failure::Validation(d)) => assert_eq!(d, message),
        Err(Failure::Backend(_)) => panic!("expected a validation failure"),
        Ok(_) => panic!("expected a failure"),
    }
}

#[test]
fn swaps_each_pair_and_preserves_count() {
    let ring = ParamValue::Arr(vec![
        point(2_300_000, 48_800_000),
        point(2_400_000, 48_800_000),
        point(2_400_000, 48_900_000),
    ]);
    let params = shape_params(geometry_of(ParamValue::Arr(vec![ring])));
    let poly = extract_geometry(&params).unwrap();
    assert_eq!(poly, vec![
        Coordinate { lat: 48_800_000, lon: 2_300_000 },
        Coordinate { lat: 48_800_000, lon: 2_400_000 },
        Coordinate { lat: 48_900_000, lon: 2_400_000 },
    ]);
}

#[test]
fn only_the_first_ring_is_consumed() {
    let outer = ParamValue::Arr(vec![point(1_000_000, 2_000_000)]);
    let hole = ParamValue::Arr(vec![point(3_000_000, 4_000_000)]);
    let params = shape_params(geometry_of(ParamValue::Arr(vec![outer, hole])));
    let poly = extract_geometry(&params).unwrap();
    assert_eq!(poly, vec![Coordinate { lat: 2_000_000, lon: 1_000_000 }]);
}

#[test]
fn extra_position_elements_are_ignored() {
    // A GeoJSON position may carry an altitude; only the first two
    // elements are read.
    let ring = ParamValue::Arr(vec![ParamValue::Arr(vec![
        ParamValue::Num(2_300_000),
        ParamValue::Num(48_800_000),
        ParamValue::Num(35_000_000),
    ])]);
    let params = shape_params(geometry_of(ParamValue::Arr(vec![ring])));
    let poly = extract_geometry(&params).unwrap();
    assert_eq!(poly, vec![Coordinate { lat: 48_800_000, lon: 2_300_000 }]);
}

#[test]
fn integer_positions_are_scaled() {
    let ring = ParamValue::Arr(vec![ParamValue::Arr(vec![
        ParamValue::UInt(2),
        ParamValue::UInt(48),
    ])]);
    let params = shape_params(geometry_of(ParamValue::Arr(vec![ring])));
    let poly = extract_geometry(&params).unwrap();
    assert_eq!(poly, vec![Coordinate { lat: 48_000_000, lon: 2_000_000 }]);
}

#[test]
fn missing_shape_is_rejected() {
    let params = RawParameters { entries: vec![] };
    expect_validation(extract_geometry(&params), "invalid parameter shape");
}

#[test]
fn missing_geometry_is_rejected() {
    let params = shape_params(ParamValue::Obj(vec![]));
    expect_validation(extract_geometry(&params), "invalid parameter shape.geometry");
}

#[test]
fn non_object_shape_is_rejected() {
    let params = shape_params(ParamValue::Str(String::from("polygon")));
    expect_validation(extract_geometry(&params), "invalid parameter shape.geometry");
}

#[test]
fn missing_coordinates_is_rejected() {
    let params = shape_params(ParamValue::Obj(vec![(
        String::from("geometry"),
        ParamValue::Obj(vec![]),
    )]));
    expect_validation(
        extract_geometry(&params),
        "invalid parameter shape.geometry.coordinates",
    );
}

#[test]
fn empty_coordinate_array_is_rejected_not_emptied() {
    // No outer ring at all: a validation failure, never an empty polygon.
    let params = shape_params(geometry_of(ParamValue::Arr(vec![])));
    expect_validation(
        extract_geometry(&params),
        "invalid parameter shape.geometry.coordinates",
    );
}

#[test]
fn non_array_coordinates_is_rejected() {
    let params = shape_params(geometry_of(ParamValue::UInt(4)));
    expect_validation(
        extract_geometry(&params),
        "invalid parameter shape.geometry.coordinates",
    );
}

#[test]
fn non_array_ring_is_rejected() {
    let params = shape_params(geometry_of(ParamValue::Arr(vec![ParamValue::UInt(1)])));
    expect_validation(
        extract_geometry(&params),
        "invalid parameter shape.geometry.coordinates",
    );
}

#[test]
fn short_position_is_rejected() {
    let ring = ParamValue::Arr(vec![ParamValue::Arr(vec![ParamValue::Num(2_300_000)])]);
    let params = shape_params(geometry_of(ParamValue::Arr(vec![ring])));
    expect_validation(
        extract_geometry(&params),
        "invalid parameter shape.geometry.coordinates",
    );
}

#[test]
fn non_numeric_position_is_rejected() {
    let ring = ParamValue::Arr(vec![ParamValue::Arr(vec![
        ParamValue::Str(String::from("2.3")),
        ParamValue::Num(48_800_000),
    ])]);
    let params = shape_params(geometry_of(ParamValue::Arr(vec![ring])));
    expect_validation(
        extract_geometry(&params),
        "invalid parameter shape.geometry.coordinates",
    );
}

#[test]
fn oversized_integer_position_is_rejected() {
    // An unsigned integer too large to scale to micro-degrees.
    let ring = ParamValue::Arr(vec![ParamValue::Arr(vec![
        ParamValue::UInt(9_223_372_036_855),
        ParamValue::Num(48_800_000),
    ])]);
    let params = shape_params(geometry_of(ParamValue::Arr(vec![ring])));
    expect_validation(
        extract_geometry(&params),
        "invalid parameter shape.geometry.coordinates",
    );
}
