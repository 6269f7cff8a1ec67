//! Location Bias Resolver: whether a request's spatial bias is a point, a
//! polygon shape, or nothing.
//!
//! The two request surfaces are disjoint at the parameter level — the
//! polygon form carries a `shape` and no coordinate pair, the point form
//! carries `lon`/`lat` and no shape — so the resolver is invoked once per
//! surface and mutual exclusivity holds by construction. Within the point
//! form a point is built only when both `lon` and `lat` are present; a
//! request carrying only one of the pair resolves to no bias at all. The
//! `lat`-without-`lon` half of that rule is a documented asymmetry of the
//! service, reproduced here deliberately.

use vstd::prelude::*;

use crate::errors::{is_invalid_param, Failure};
use crate::geometry::Coordinate;
use crate::params::{num_param, RawParameters};

verus! {

/// The spatial bias of a request: none, a point with the backend's implicit
/// radius, or a polygon shape. At most one of point and shape is ever set
/// for one request.
#[derive(Debug)]
pub enum LocationBias {
    Unbiased,
    Point(Coordinate),
    Shape(Vec<Coordinate>),
}

/// Mathematical model of a spatial bias: a polygon is a sequence of
/// coordinates.
pub enum BiasModel {
    Unbiased,
    Point(Coordinate),
    Shape(Seq<Coordinate>),
}

impl View for LocationBias {
    type V = BiasModel;

    open spec fn view(&self) -> BiasModel {
        match *self {
            LocationBias::Unbiased => BiasModel::Unbiased,
            LocationBias::Point(c) => BiasModel::Point(c),
            LocationBias::Shape(p) => BiasModel::Shape(p@),
        }
    }
}

/// The bias an optionally-present point resolves to.
pub open spec fn point_model(o: Option<Coordinate>) -> BiasModel {
    match o {
        Some(c) => BiasModel::Point(c),
        None => BiasModel::Unbiased,
    }
}

/// What point-bias resolution yields for a parameter bag: the coordinate
/// when both `lon` and `lat` are present, `None` when either is absent, or
/// the malformed field (`lon` blamed before `lat`) when a present value is
/// not a number.
pub open spec fn point_bias_spec(params: RawParameters) -> Result<Option<Coordinate>, Seq<char>> {
    match num_param(params, "lon"@) {
        Ok(lon_opt) => match num_param(params, "lat"@) {
            Ok(lat_opt) => match (lon_opt, lat_opt) {
                (Some(lon), Some(lat)) => Ok(Some(Coordinate { lat, lon })),
                _ => Ok(None),
            },
            Err(field) => Err(field),
        },
        Err(field) => Err(field),
    }
}

/// Resolves the point form's spatial bias: `Point(lon, lat)` when both
/// coordinates are present, no bias when either is absent — in particular,
/// `lon` without `lat`, and `lat` without `lon`, both resolve to no bias —
/// and a validation failure naming the field when a present value is not a
/// number.
pub fn resolve_point_bias(params: &RawParameters) -> (r: Result<LocationBias, Failure>)
    ensures
        match r {
            Ok(b) => point_bias_spec(*params) matches Ok(o) && b@ == point_model(o),
            Err(f) => point_bias_spec(*params) matches Err(field) && is_invalid_param(f, field),
        },
{
    let lon_opt = match params.get_num("lon") {
        Ok(o) => o,
        Err(f) => {
            return Err(f);
        },
    };
    let lat_opt = match params.get_num("lat") {
        Ok(o) => o,
        Err(f) => {
            return Err(f);
        },
    };
    match (lon_opt, lat_opt) {
        (Some(lon), Some(lat)) => Ok(LocationBias::Point(Coordinate { lat, lon })),
        _ => Ok(LocationBias::Unbiased),
    }
}

/// Law: a request carrying `lon` (as a number) but no `lat` resolves to no
/// location bias at all, rather than to a point or a failure.
pub proof fn lemma_lon_without_lat_resolves_to_none(params: RawParameters)
    requires
        params.lookup("lon"@) matches Some(v) && crate::params::num_ok(v),
        params.lookup("lat"@) is None,
    ensures
        point_bias_spec(params) == Ok::<Option<Coordinate>, Seq<char>>(None),
{
}

/// Law: the mirror asymmetry — `lat` present while `lon` is absent — also
/// resolves to no bias; `lon`'s absence short-circuits the pair.
pub proof fn lemma_lat_without_lon_resolves_to_none(params: RawParameters)
    requires
        params.lookup("lon"@) is None,
        params.lookup("lat"@) matches Some(v) && crate::params::num_ok(v),
    ensures
        point_bias_spec(params) == Ok::<Option<Coordinate>, Seq<char>>(None),
{
}

} // verus!
