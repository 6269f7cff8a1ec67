//! Geometry Extractor: turns a client-supplied GeoJSON-style polygon
//! structure (`{geometry: {coordinates: [[[lon, lat], ..]]}}`) into an
//! ordered ring of (latitude, longitude) pairs for spatial biasing.
//!
//! The output pair order is deliberately swapped relative to GeoJSON's
//! (lon, lat) convention, to match the axis order the search backend
//! expects. Only the first ring (the outer boundary) is consumed; further
//! rings are ignored. A missing or malformed structure is rejected with a
//! validation failure naming the malformed field path, never by producing
//! an empty polygon silently.

use vstd::prelude::*;

use crate::errors::{invalid_param, is_invalid_param, Failure};
use crate::params::{lookup_seq, num_micro, num_ok, num_value, assoc_find, ParamValue,
    RawParameters};

verus! {

/// A (latitude, longitude) pair in micro-degrees (one millionth of a
/// degree). Longitude is meant to lie in [-180, 180] degrees and latitude in
/// [-90, 90], but range validation is the backend's responsibility; this
/// layer's duty is never to swap the axes silently.
#[derive(PartialEq, Eq, Structural, Clone, Copy, Debug)]
pub struct Coordinate {
    pub lat: i64,
    pub lon: i64,
}

/// The value bound to `key` inside an object value, if any.
pub open spec fn obj_get(v: ParamValue, key: Seq<char>) -> Option<ParamValue> {
    match v {
        ParamValue::Obj(entries) => lookup_seq(entries@, key),
        _ => None,
    }
}

/// Finds the value bound to `key` inside an object value.
pub fn obj_find<'a>(v: &'a ParamValue, key: &str) -> (r: Option<&'a ParamValue>)
    ensures
        match r {
            Some(x) => obj_get(*v, key@) == Some(*x),
            None => obj_get(*v, key@) is None,
        },
{
    match v {
        ParamValue::Obj(entries) => assoc_find(entries, key),
        _ => None,
    }
}

/// Whether a ring element is a well-formed position: an array of at least
/// two numbers, longitude first as GeoJSON has it. Elements beyond the
/// second (such as an altitude) are ignored.
pub open spec fn point_ok(p: ParamValue) -> bool {
    p matches ParamValue::Arr(elems) && elems@.len() >= 2 && num_ok(elems@[0]) && num_ok(
        elems@[1],
    )
}

/// The coordinate a well-formed position denotes, axes swapped from the
/// input's (lon, lat) to the backend's (lat, lon).
pub open spec fn point_coord(p: ParamValue) -> Coordinate
    recommends
        point_ok(p),
{
    match p {
        ParamValue::Arr(elems) => Coordinate {
            lat: num_micro(elems@[1]),
            lon: num_micro(elems@[0]),
        },
        _ => Coordinate { lat: 0, lon: 0 },
    }
}

/// Whether every element of a ring is a well-formed position.
pub open spec fn ring_ok(ring: Seq<ParamValue>) -> bool {
    forall|i: int| 0 <= i < ring.len() ==> point_ok(ring[i])
}

/// The ring list of the shape parameter: the value of
/// `shape.geometry.coordinates`, when present and an array.
pub open spec fn coordinate_rings(params: RawParameters) -> Option<Seq<ParamValue>> {
    match lookup_seq(params.entries@, "shape"@) {
        Option::Some(s) => match obj_get(s, "geometry"@) {
            Option::Some(g) => match obj_get(g, "coordinates"@) {
                Option::Some(c) => match c {
                    ParamValue::Arr(rings) => Some(rings@),
                    _ => None,
                },
                Option::None => None,
            },
            Option::None => None,
        },
        Option::None => None,
    }
}

/// The outer ring of the shape parameter: the first element of the
/// coordinate array, when that array is non-empty and the element is itself
/// an array.
pub open spec fn first_ring(params: RawParameters) -> Option<Seq<ParamValue>> {
    match coordinate_rings(params) {
        Option::Some(rings) => if rings.len() > 0 {
            match rings[0] {
                ParamValue::Arr(ring) => Some(ring@),
                _ => None,
            }
        } else {
            None
        },
        Option::None => None,
    }
}

/// What geometry extraction yields for a parameter bag: the polygon, or the
/// malformed field path it is rejected with. The missing pieces are blamed
/// from the outside in: a missing shape names `shape`, a missing or
/// non-object geometry names `shape.geometry`, and everything below —
/// missing coordinates, a non-array, an empty ring list, a malformed ring or
/// position — names `shape.geometry.coordinates`.
pub open spec fn extract_geometry_spec(params: RawParameters) -> Result<
    Seq<Coordinate>,
    Seq<char>,
> {
    match lookup_seq(params.entries@, "shape"@) {
        Option::None => Err("shape"@),
        Option::Some(s) => match obj_get(s, "geometry"@) {
            Option::None => Err("shape.geometry"@),
            Option::Some(g) => match obj_get(g, "coordinates"@) {
                Option::None => Err("shape.geometry.coordinates"@),
                Option::Some(c) => match c {
                    ParamValue::Arr(rings) => if rings@.len() == 0 {
                        Err("shape.geometry.coordinates"@)
                    } else {
                        match rings@[0] {
                            ParamValue::Arr(ring) => if ring_ok(ring@) {
                                Ok(Seq::new(ring@.len(), |i: int| point_coord(ring@[i])))
                            } else {
                                Err("shape.geometry.coordinates"@)
                            },
                            _ => Err("shape.geometry.coordinates"@),
                        }
                    },
                    _ => Err("shape.geometry.coordinates"@),
                },
            },
        },
    }
}

/// Extracts the polygon of the `shape` parameter, or fails with a
/// validation failure naming the malformed field path.
#[verifier::loop_isolation(false)]
pub fn extract_geometry(params: &RawParameters) -> (r: Result<Vec<Coordinate>, Failure>)
    ensures
        match r {
            Ok(poly) => extract_geometry_spec(*params) == Ok::<Seq<Coordinate>, Seq<char>>(poly@),
            Err(f) => extract_geometry_spec(*params) matches Err(field) && is_invalid_param(
                f,
                field,
            ),
        },
{
    let shape = match params.find("shape") {
        Some(s) => s,
        None => {
            return Err(invalid_param("shape"));
        },
    };
    let geometry = match obj_find(shape, "geometry") {
        Some(g) => g,
        None => {
            return Err(invalid_param("shape.geometry"));
        },
    };
    let coords = match obj_find(geometry, "coordinates") {
        Some(c) => c,
        None => {
            return Err(invalid_param("shape.geometry.coordinates"));
        },
    };
    let rings = match coords {
        ParamValue::Arr(rings) => rings,
        _ => {
            return Err(invalid_param("shape.geometry.coordinates"));
        },
    };
    if rings.len() == 0 {
        return Err(invalid_param("shape.geometry.coordinates"));
    }
    let ring = match &rings[0] {
        ParamValue::Arr(ring) => ring,
        _ => {
            return Err(invalid_param("shape.geometry.coordinates"));
        },
    };
    let mut poly: Vec<Coordinate> = Vec::new();
    let mut i: usize = 0;
    while i < ring.len()
        invariant
            i <= ring.len(),
            poly@.len() == i,
            forall|j: int| 0 <= j < i ==> point_ok(ring@[j]),
            forall|j: int| 0 <= j < i ==> poly@[j] == point_coord(ring@[j]),
        decreases ring.len() - i,
    {
        let elems = match &ring[i] {
            ParamValue::Arr(elems) => elems,
            _ => {
                proof {
                    assert(!point_ok(ring@[i as int]));
                }
                return Err(invalid_param("shape.geometry.coordinates"));
            },
        };
        if elems.len() < 2 {
            proof {
                assert(!point_ok(ring@[i as int]));
            }
            return Err(invalid_param("shape.geometry.coordinates"));
        }
        let lon = match num_value(&elems[0]) {
            Some(d) => d,
            None => {
                proof {
                    assert(!point_ok(ring@[i as int]));
                }
                return Err(invalid_param("shape.geometry.coordinates"));
            },
        };
        let lat = match num_value(&elems[1]) {
            Some(d) => d,
            None => {
                proof {
                    assert(!point_ok(ring@[i as int]));
                }
                return Err(invalid_param("shape.geometry.coordinates"));
            },
        };
        poly.push(Coordinate { lat, lon });
        i = i + 1;
    }
    proof {
        assert(poly@ =~= Seq::new(ring@.len(), |j: int| point_coord(ring@[j])));
    }
    Ok(poly)
}

/// Law: a well-formed polygon input — a first ring of at least three
/// well-formed positions — is extracted to a polygon with the same point
/// count, each input pair's (lon, lat) axis order reversed to (lat, lon).
pub proof fn lemma_geometry_preserves_count_and_swaps_axes(
    params: RawParameters,
    ring: Seq<ParamValue>,
)
    requires
        first_ring(params) == Some(ring),
        ring_ok(ring),
        ring.len() >= 3,
    ensures
        extract_geometry_spec(params) matches Ok(poly) && poly.len() == ring.len() && forall|
            i: int,
        |
            0 <= i < ring.len() ==> poly[i].lat == num_micro(ring[i]->Arr_0@[1]) && poly[i].lon
                == num_micro(ring[i]->Arr_0@[0]),
{
    let poly = Seq::new(ring.len(), |i: int| point_coord(ring[i]));
    assert(extract_geometry_spec(params) == Ok::<Seq<Coordinate>, Seq<char>>(poly));
    assert forall|i: int| 0 <= i < ring.len() implies poly[i].lat == num_micro(ring[i]->Arr_0@[1])
        && poly[i].lon == num_micro(ring[i]->Arr_0@[0]) by {
        assert(point_ok(ring[i]));
    }
}

/// Law: a polygon parameter with no outer ring — an empty coordinate
/// array — is rejected with a validation failure naming the coordinates
/// field; an empty polygon is never produced from it.
pub proof fn lemma_empty_coordinates_rejected(params: RawParameters)
    requires
        coordinate_rings(params) == Some(Seq::<ParamValue>::empty()),
    ensures
        extract_geometry_spec(params) == Err::<Seq<Coordinate>, Seq<char>>(
            "shape.geometry.coordinates"@,
        ),
{
}

} // verus!
