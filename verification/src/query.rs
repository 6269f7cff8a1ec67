//! Query Builder: assembles the canonical query object handed to the search
//! backend.
//!
//! Either a complete, validated query is produced, or the request fails with
//! the first validation failure before it ever reaches the backend; no
//! partial construction is exposed. The canonical query owns copies of all
//! of its fields.

use vstd::prelude::*;

use crate::bias::{point_bias_spec, point_model, resolve_point_bias, BiasModel, LocationBias};
use crate::errors::{is_invalid_param, Failure};
use crate::filters::{dataset_spec, extract_dataset, extract_pagination, extract_types,
    pagination_spec, types_spec, DatasetScope, NormalizeConfig, Pagination};
use crate::geometry::{extract_geometry, extract_geometry_spec};
use crate::params::{str_param, RawParameters};

verus! {

/// The fully normalized query: free text, dataset scope, pagination,
/// location bias and result-type filter.
#[derive(Debug)]
pub struct CanonicalQuery {
    pub text: String,
    pub dataset: DatasetScope,
    pub pagination: Pagination,
    pub bias: LocationBias,
    pub types: Option<Vec<String>>,
}

/// Mathematical model of a canonical query.
pub struct QueryModel {
    pub text: Seq<char>,
    pub dataset_id: Option<Seq<char>>,
    pub include_all_data: bool,
    pub offset: u64,
    pub limit: u64,
    pub bias: BiasModel,
    pub types: Option<Seq<Seq<char>>>,
}

impl View for CanonicalQuery {
    type V = QueryModel;

    open spec fn view(&self) -> QueryModel {
        QueryModel {
            text: self.text@,
            dataset_id: self.dataset.id.deep_view(),
            include_all_data: self.dataset.include_all_data,
            offset: self.pagination.offset,
            limit: self.pagination.limit,
            bias: self.bias@,
            types: self.types.deep_view(),
        }
    }
}

/// The free text of a request: the `q` parameter, the empty string when it
/// is absent, a validation failure when it is not a string.
pub open spec fn text_spec(params: RawParameters) -> Result<Seq<char>, Seq<char>> {
    match str_param(params, "q"@) {
        Ok(Some(t)) => Ok(t),
        Ok(None) => Ok(Seq::empty()),
        Err(field) => Err(field),
    }
}

/// What query normalization yields, given the already-resolved bias of the
/// request's surface. Failures are blamed in extraction order: free text,
/// dataset, pagination, bias, result types.
pub open spec fn query_spec(
    params: RawParameters,
    cfg: NormalizeConfig,
    bias: Result<BiasModel, Seq<char>>,
) -> Result<QueryModel, Seq<char>> {
    match text_spec(params) {
        Err(field) => Err(field),
        Ok(text) => match dataset_spec(params) {
            Err(field) => Err(field),
            Ok(ds) => match pagination_spec(params, cfg) {
                Err(field) => Err(field),
                Ok(pg) => match bias {
                    Err(field) => Err(field),
                    Ok(b) => match types_spec(params) {
                        Err(field) => Err(field),
                        Ok(types) => Ok(
                            QueryModel {
                                text,
                                dataset_id: ds.0,
                                include_all_data: ds.1,
                                offset: pg.0,
                                limit: pg.1,
                                bias: b,
                                types,
                            },
                        ),
                    },
                },
            },
        },
    }
}

/// What the point-biased surface (`lon`/`lat` pair, no shape) normalizes to.
pub open spec fn point_query_spec(params: RawParameters, cfg: NormalizeConfig) -> Result<
    QueryModel,
    Seq<char>,
> {
    query_spec(
        params,
        cfg,
        match point_bias_spec(params) {
            Ok(o) => Ok(point_model(o)),
            Err(field) => Err(field),
        },
    )
}

/// What the polygon-biased surface (`shape` body, no coordinate pair)
/// normalizes to.
pub open spec fn shape_query_spec(params: RawParameters, cfg: NormalizeConfig) -> Result<
    QueryModel,
    Seq<char>,
> {
    query_spec(
        params,
        cfg,
        match extract_geometry_spec(params) {
            Ok(poly) => Ok(BiasModel::Shape(poly)),
            Err(field) => Err(field),
        },
    )
}

/// Normalizes a point-form request into the canonical query, or fails with
/// the first validation failure.
pub fn build_point_query(params: &RawParameters, cfg: &NormalizeConfig) -> (r: Result<
    CanonicalQuery,
    Failure,
>)
    ensures
        match r {
            Ok(q) => point_query_spec(*params, *cfg) == Ok::<QueryModel, Seq<char>>(q@),
            Err(f) => point_query_spec(*params, *cfg) matches Err(field) && is_invalid_param(
                f,
                field,
            ),
        },
{
    let text = match params.get_str("q") {
        Ok(Some(t)) => t,
        Ok(None) => String::new(),
        Err(f) => {
            return Err(f);
        },
    };
    let dataset = match extract_dataset(params) {
        Ok(ds) => ds,
        Err(f) => {
            return Err(f);
        },
    };
    let pagination = match extract_pagination(params, cfg) {
        Ok(p) => p,
        Err(f) => {
            return Err(f);
        },
    };
    let bias = match resolve_point_bias(params) {
        Ok(b) => b,
        Err(f) => {
            return Err(f);
        },
    };
    let types = match extract_types(params) {
        Ok(ts) => ts,
        Err(f) => {
            return Err(f);
        },
    };
    Ok(CanonicalQuery { text, dataset, pagination, bias, types })
}

/// Normalizes a polygon-form request into the canonical query, or fails
/// with the first validation failure.
pub fn build_shape_query(params: &RawParameters, cfg: &NormalizeConfig) -> (r: Result<
    CanonicalQuery,
    Failure,
>)
    ensures
        match r {
            Ok(q) => shape_query_spec(*params, *cfg) == Ok::<QueryModel, Seq<char>>(q@),
            Err(f) => shape_query_spec(*params, *cfg) matches Err(field) && is_invalid_param(
                f,
                field,
            ),
        },
{
    let text = match params.get_str("q") {
        Ok(Some(t)) => t,
        Ok(None) => String::new(),
        Err(f) => {
            return Err(f);
        },
    };
    let dataset = match extract_dataset(params) {
        Ok(ds) => ds,
        Err(f) => {
            return Err(f);
        },
    };
    let pagination = match extract_pagination(params, cfg) {
        Ok(p) => p,
        Err(f) => {
            return Err(f);
        },
    };
    let polygon = match extract_geometry(params) {
        Ok(poly) => poly,
        Err(f) => {
            return Err(f);
        },
    };
    let types = match extract_types(params) {
        Ok(ts) => ts,
        Err(f) => {
            return Err(f);
        },
    };
    Ok(
        CanonicalQuery {
            text,
            dataset,
            pagination,
            bias: LocationBias::Shape(polygon),
            types,
        },
    )
}

/// The feature-lookup request: an optional feature id within a dataset
/// scope.
#[derive(Debug)]
pub struct FeatureLookup {
    pub id: Option<String>,
    pub dataset: DatasetScope,
}

/// What feature-lookup normalization yields: the optional `id`, then the
/// dataset scope, the `id` field blamed first on mismatch.
pub open spec fn feature_lookup_spec(params: RawParameters) -> Result<
    (Option<Seq<char>>, Option<Seq<char>>, bool),
    Seq<char>,
> {
    match str_param(params, "id"@) {
        Err(field) => Err(field),
        Ok(id) => match dataset_spec(params) {
            Err(field) => Err(field),
            Ok(ds) => Ok((id, ds.0, ds.1)),
        },
    }
}

/// Normalizes a feature-lookup request: the optional `id` and the dataset
/// scope.
pub fn build_feature_lookup(params: &RawParameters) -> (r: Result<FeatureLookup, Failure>)
    ensures
        match r {
            Ok(fl) => feature_lookup_spec(*params) == Ok::<
                (Option<Seq<char>>, Option<Seq<char>>, bool),
                Seq<char>,
            >((fl.id.deep_view(), fl.dataset.id.deep_view(), fl.dataset.include_all_data)),
            Err(f) => feature_lookup_spec(*params) matches Err(field) && is_invalid_param(
                f,
                field,
            ),
        },
{
    let id = match params.get_str("id") {
        Ok(o) => o,
        Err(f) => {
            return Err(f);
        },
    };
    let dataset = match extract_dataset(params) {
        Ok(ds) => ds,
        Err(f) => {
            return Err(f);
        },
    };
    Ok(FeatureLookup { id, dataset })
}

/// Law: the two autocomplete surfaces keep point and shape biasing mutually
/// exclusive — the point form never normalizes to a shape bias, and the
/// polygon form never normalizes to anything but a shape bias.
pub proof fn lemma_bias_mutual_exclusivity(params: RawParameters, cfg: NormalizeConfig)
    ensures
        point_query_spec(params, cfg) matches Ok(m) ==> !(m.bias is Shape),
        shape_query_spec(params, cfg) matches Ok(m) ==> m.bias is Shape,
{
}

/// Law: a request that omits both pagination parameters normalizes, on
/// either surface, to exactly the configured default pagination; the
/// stock defaults are offset 0, limit 10.
pub proof fn lemma_query_default_pagination(params: RawParameters, cfg: NormalizeConfig)
    requires
        params.lookup("offset"@) is None,
        params.lookup("limit"@) is None,
    ensures
        point_query_spec(params, cfg) matches Ok(m) ==> m.offset == cfg.default_offset && m.limit
            == cfg.default_limit,
        shape_query_spec(params, cfg) matches Ok(m) ==> m.offset == cfg.default_offset && m.limit
            == cfg.default_limit,
{
    crate::filters::lemma_omitted_pagination_defaults(params, cfg);
}

/// Law: on the point surface, `lon` present (as a number) with `lat` absent
/// normalizes to a query without any location bias.
pub proof fn lemma_query_lon_without_lat_unbiased(params: RawParameters, cfg: NormalizeConfig)
    requires
        params.lookup("lon"@) matches Some(v) && crate::params::num_ok(v),
        params.lookup("lat"@) is None,
    ensures
        point_query_spec(params, cfg) matches Ok(m) ==> m.bias is Unbiased,
{
    crate::bias::lemma_lon_without_lat_resolves_to_none(params);
}

} // verus!
