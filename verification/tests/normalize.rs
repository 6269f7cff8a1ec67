//! Scenario tests for query normalization: the two autocomplete surfaces,
//! pagination defaults, the point-bias asymmetries, and the typed-accessor
//! failures.

use bragi::bias::LocationBias;
use bragi::errors::Failure;
use bragi::filters::NormalizeConfig;
use bragi::geometry::Coordinate;
use bragi::params::{ParamValue, RawParameters};
use bragi::query::{build_feature_lookup, build_point_query, build_shape_query};

fn entry(key: &str, value: ParamValue) -> (String, ParamValue) {
    (String::from(key), value)
}

fn bag(entries: Vec<(String, ParamValue)>) -> RawParameters {
    RawParameters { entries }
}

fn stock() -> NormalizeConfig {
    NormalizeConfig::default()
}

fn validation_message(f: Failure) -> String {
    match f {
        Failure::Validation(d) => d,
        Failure::Backend(_) => panic!("expected a validation failure"),
    }
}

#[test]
fn point_query_scenario_paris() {
    // GET /v1/autocomplete?q=paris&lon=2.35&lat=48.85
    let params = bag(vec![
        entry("q", ParamValue::Str(String::from("paris"))),
        entry("lon", ParamValue::Num(2_350_000)),
        entry("lat", ParamValue::Num(48_850_000)),
    ]);
    let q = build_point_query(&params, &stock()).unwrap();
    assert_eq!(q.text, "paris");
    assert_eq!(q.pagination.offset, 0);
    assert_eq!(q.pagination.limit, 10);
    assert!(q.dataset.id.is_none());
    assert!(!q.dataset.include_all_data);
    assert!(q.types.is_none());
    match q.bias {
        LocationBias::Point(c) => {
            assert_eq!(c, Coordinate { lat: 48_850_000, lon: 2_350_000 });
        }
        _ => panic!("expected a point bias"),
    }
}

#[test]
fn omitted_pagination_defaults_to_first_ten() {
    let params = bag(vec![entry("q", ParamValue::Str(String::from("x")))]);
    let q = build_point_query(&params, &stock()).unwrap();
    assert_eq!(q.pagination.offset, 0);
    assert_eq!(q.pagination.limit, 10);
}

#[test]
fn explicit_pagination_is_kept() {
    let params = bag(vec![
        entry("offset", ParamValue::UInt(40)),
        entry("limit", ParamValue::UInt(20)),
    ]);
    let q = build_point_query(&params, &stock()).unwrap();
    assert_eq!(q.pagination.offset, 40);
    assert_eq!(q.pagination.limit, 20);
}

#[test]
fn negative_pagination_falls_back_to_default() {
    // A number outside the unsigned range is not rejected at this layer.
    let params = bag(vec![entry("offset", ParamValue::Num(-5_000_000))]);
    let q = build_point_query(&params, &stock()).unwrap();
    assert_eq!(q.pagination.offset, 0);
}

#[test]
fn non_number_pagination_is_rejected() {
    let params = bag(vec![entry("offset", ParamValue::Str(String::from("ten")))]);
    let f = build_point_query(&params, &stock()).unwrap_err();
    assert_eq!(validation_message(f), "invalid parameter offset");

    let params = bag(vec![entry("limit", ParamValue::Bool(true))]);
    let f = build_point_query(&params, &stock()).unwrap_err();
    assert_eq!(validation_message(f), "invalid parameter limit");
}

#[test]
fn lon_without_lat_resolves_to_no_bias() {
    // Documented asymmetry: the pair is incomplete, so no bias at all.
    let params = bag(vec![entry("lon", ParamValue::Num(2_350_000))]);
    let q = build_point_query(&params, &stock()).unwrap();
    assert!(matches!(q.bias, LocationBias::Unbiased));
}

#[test]
fn lat_without_lon_resolves_to_no_bias() {
    let params = bag(vec![entry("lat", ParamValue::Num(48_850_000))]);
    let q = build_point_query(&params, &stock()).unwrap();
    assert!(matches!(q.bias, LocationBias::Unbiased));
}

#[test]
fn integer_coordinates_are_scaled() {
    let params = bag(vec![
        entry("lon", ParamValue::UInt(2)),
        entry("lat", ParamValue::UInt(48)),
    ]);
    let q = build_point_query(&params, &stock()).unwrap();
    match q.bias {
        LocationBias::Point(c) => {
            assert_eq!(c, Coordinate { lat: 48_000_000, lon: 2_000_000 });
        }
        _ => panic!("expected a point bias"),
    }
}

#[test]
fn non_number_coordinate_is_rejected() {
    let params = bag(vec![entry("lon", ParamValue::Str(String::from("east")))]);
    let f = build_point_query(&params, &stock()).unwrap_err();
    assert_eq!(validation_message(f), "invalid parameter lon");

    let params = bag(vec![
        entry("lon", ParamValue::Num(2_350_000)),
        entry("lat", ParamValue::Arr(vec![])),
    ]);
    let f = build_point_query(&params, &stock()).unwrap_err();
    assert_eq!(validation_message(f), "invalid parameter lat");
}

#[test]
fn missing_free_text_defaults_to_empty() {
    let params = bag(vec![]);
    let q = build_point_query(&params, &stock()).unwrap();
    assert_eq!(q.text, "");
}

#[test]
fn non_string_free_text_is_rejected() {
    let params = bag(vec![entry("q", ParamValue::UInt(7))]);
    let f = build_point_query(&params, &stock()).unwrap_err();
    assert_eq!(validation_message(f), "invalid parameter q");
}

#[test]
fn dataset_scope_is_passed_through() {
    let params = bag(vec![
        entry("pt_dataset", ParamValue::Str(String::from("fr"))),
        entry("_all_data", ParamValue::Bool(true)),
    ]);
    let q = build_point_query(&params, &stock()).unwrap();
    assert_eq!(q.dataset.id.as_deref(), Some("fr"));
    assert!(q.dataset.include_all_data);
}

#[test]
fn non_string_dataset_is_rejected() {
    let params = bag(vec![entry("pt_dataset", ParamValue::UInt(3))]);
    let f = build_point_query(&params, &stock()).unwrap_err();
    assert_eq!(validation_message(f), "invalid parameter pt_dataset");
}

#[test]
fn non_boolean_all_data_reads_as_false() {
    let params = bag(vec![entry("_all_data", ParamValue::Str(String::from("yes")))]);
    let q = build_point_query(&params, &stock()).unwrap();
    assert!(!q.dataset.include_all_data);
}

#[test]
fn type_filter_preserves_order_and_duplicates() {
    let params = bag(vec![entry(
        "type",
        ParamValue::Arr(vec![
            ParamValue::Str(String::from("city")),
            ParamValue::Str(String::from("street")),
            ParamValue::Str(String::from("city")),
        ]),
    )]);
    let q = build_point_query(&params, &stock()).unwrap();
    assert_eq!(q.types, Some(vec![
        String::from("city"),
        String::from("street"),
        String::from("city"),
    ]));
}

#[test]
fn absent_type_filter_means_no_filter() {
    let params = bag(vec![]);
    let q = build_point_query(&params, &stock()).unwrap();
    assert!(q.types.is_none());
}

#[test]
fn malformed_type_filter_is_rejected() {
    let params = bag(vec![entry("type", ParamValue::Str(String::from("city")))]);
    let f = build_point_query(&params, &stock()).unwrap_err();
    assert_eq!(validation_message(f), "invalid parameter type");

    let params = bag(vec![entry(
        "type",
        ParamValue::Arr(vec![ParamValue::Str(String::from("city")), ParamValue::UInt(1)]),
    )]);
    let f = build_point_query(&params, &stock()).unwrap_err();
    assert_eq!(validation_message(f), "invalid parameter type");
}

#[test]
fn shape_query_scenario_square() {
    // POST /v1/autocomplete with the documented square around Paris.
    let ring = vec![
        ParamValue::Arr(vec![ParamValue::Num(2_300_000), ParamValue::Num(48_800_000)]),
        ParamValue::Arr(vec![ParamValue::Num(2_400_000), ParamValue::Num(48_800_000)]),
        ParamValue::Arr(vec![ParamValue::Num(2_400_000), ParamValue::Num(48_900_000)]),
        ParamValue::Arr(vec![ParamValue::Num(2_300_000), ParamValue::Num(48_900_000)]),
        ParamValue::Arr(vec![ParamValue::Num(2_300_000), ParamValue::Num(48_800_000)]),
    ];
    let shape = ParamValue::Obj(vec![(
        String::from("geometry"),
        ParamValue::Obj(vec![(
            String::from("coordinates"),
            ParamValue::Arr(vec![ParamValue::Arr(ring)]),
        )]),
    )]);
    let params = bag(vec![
        entry("q", ParamValue::Str(String::from("paris"))),
        entry("shape", shape),
    ]);
    let q = build_shape_query(&params, &stock()).unwrap();
    match q.bias {
        LocationBias::Shape(poly) => {
            assert_eq!(poly, vec![
                Coordinate { lat: 48_800_000, lon: 2_300_000 },
                Coordinate { lat: 48_800_000, lon: 2_400_000 },
                Coordinate { lat: 48_900_000, lon: 2_400_000 },
                Coordinate { lat: 48_900_000, lon: 2_300_000 },
                Coordinate { lat: 48_800_000, lon: 2_300_000 },
            ]);
        }
        _ => panic!("expected a shape bias"),
    }
}

#[test]
fn shape_missing_coordinates_is_rejected() {
    // Malformed shape: the geometry object has no coordinates field.
    let shape = ParamValue::Obj(vec![(String::from("geometry"), ParamValue::Obj(vec![]))]);
    let params = bag(vec![entry("shape", shape)]);
    let f = build_shape_query(&params, &stock()).unwrap_err();
    assert_eq!(
        validation_message(f),
        "invalid parameter shape.geometry.coordinates"
    );
}

#[test]
fn feature_lookup_carries_id_and_scope() {
    let params = bag(vec![
        entry("id", ParamValue::Str(String::from("admin:fr:75056"))),
        entry("pt_dataset", ParamValue::Str(String::from("fr"))),
    ]);
    let fl = build_feature_lookup(&params).unwrap();
    assert_eq!(fl.id.as_deref(), Some("admin:fr:75056"));
    assert_eq!(fl.dataset.id.as_deref(), Some("fr"));
    assert!(!fl.dataset.include_all_data);
}

#[test]
fn feature_lookup_rejects_non_string_id() {
    let params = bag(vec![entry("id", ParamValue::UInt(8))]);
    let f = build_feature_lookup(&params).unwrap_err();
    assert_eq!(validation_message(f), "invalid parameter id");
}

#[test]
fn repeated_key_takes_first_value() {
    let params = bag(vec![
        entry("q", ParamValue::Str(String::from("first"))),
        entry("q", ParamValue::Str(String::from("second"))),
    ]);
    let q = build_point_query(&params, &stock()).unwrap();
    assert_eq!(q.text, "first");
}
