//! Filter Normalizer: dataset selection, result-type filters and pagination
//! parameters resolved into typed, defaulted values.
//!
//! The dataset id is passed through unvalidated (registry membership is the
//! backend's concern), the all-data flag defaults to `false` when absent or
//! not a boolean, and pagination falls back to configured defaults. A
//! declared-typed parameter of the wrong type is rejected with a validation
//! failure naming the field.

use vstd::prelude::*;

use crate::errors::{is_invalid_param, Failure};
use crate::params::{bool_param, str_list_param, str_param, u64_param, RawParameters};

verus! {

/// The data partition a query is restricted to, plus the flag to search
/// across all partitions.
#[derive(Debug)]
pub struct DatasetScope {
    pub id: Option<String>,
    pub include_all_data: bool,
}

/// Offset/limit pair of a normalized request. Non-negative by construction;
/// no upper bound is enforced at this layer.
#[derive(Debug)]
pub struct Pagination {
    pub offset: u64,
    pub limit: u64,
}

/// The defaults substituted for omitted pagination parameters.
pub struct NormalizeConfig {
    pub default_offset: u64,
    pub default_limit: u64,
}

impl Default for NormalizeConfig {
    /// The service's stock defaults: the first page of ten results.
    fn default() -> (cfg: NormalizeConfig)
        ensures
            cfg.default_offset == 0,
            cfg.default_limit == 10,
    {
        NormalizeConfig { default_offset: 0, default_limit: 10 }
    }
}

/// What dataset-scope extraction yields for a parameter bag: the scope, or
/// the malformed field. The id comes from `pt_dataset` (optional string);
/// the flag from `_all_data`, read leniently.
pub open spec fn dataset_spec(params: RawParameters) -> Result<
    (Option<Seq<char>>, bool),
    Seq<char>,
> {
    match str_param(params, "pt_dataset"@) {
        Ok(id) => Ok((id, bool_param(params, "_all_data"@))),
        Err(field) => Err(field),
    }
}

/// Extracts the dataset scope: the optional `pt_dataset` id, passed through
/// unvalidated, and the `_all_data` flag, `false` when absent or not a
/// boolean.
pub fn extract_dataset(params: &RawParameters) -> (r: Result<DatasetScope, Failure>)
    ensures
        match r {
            Ok(ds) => dataset_spec(*params) == Ok::<(Option<Seq<char>>, bool), Seq<char>>(
                (ds.id.deep_view(), ds.include_all_data),
            ),
            Err(f) => dataset_spec(*params) matches Err(field) && is_invalid_param(f, field),
        },
{
    let id = match params.get_str("pt_dataset") {
        Ok(id) => id,
        Err(f) => {
            return Err(f);
        },
    };
    let include_all_data = params.get_bool_or_false("_all_data");
    Ok(DatasetScope { id, include_all_data })
}

/// What pagination extraction yields for a parameter bag under the given
/// defaults: the offset/limit pair, or the malformed field (`offset` blamed
/// before `limit`).
pub open spec fn pagination_spec(params: RawParameters, cfg: NormalizeConfig) -> Result<
    (u64, u64),
    Seq<char>,
> {
    match u64_param(params, "offset"@, cfg.default_offset) {
        Ok(offset) => match u64_param(params, "limit"@, cfg.default_limit) {
            Ok(limit) => Ok((offset, limit)),
            Err(field) => Err(field),
        },
        Err(field) => Err(field),
    }
}

/// Extracts pagination with configured defaults. An omitted parameter, or a
/// number outside the unsigned range (negative or fractional, deferred to
/// the backend rather than rejected), falls back to its default; a
/// non-number is rejected naming the field.
pub fn extract_pagination(params: &RawParameters, cfg: &NormalizeConfig) -> (r: Result<
    Pagination,
    Failure,
>)
    ensures
        match r {
            Ok(p) => pagination_spec(*params, *cfg) == Ok::<(u64, u64), Seq<char>>(
                (p.offset, p.limit),
            ),
            Err(f) => pagination_spec(*params, *cfg) matches Err(field) && is_invalid_param(
                f,
                field,
            ),
        },
{
    let offset = match params.get_u64_or("offset", cfg.default_offset) {
        Ok(n) => n,
        Err(f) => {
            return Err(f);
        },
    };
    let limit = match params.get_u64_or("limit", cfg.default_limit) {
        Ok(n) => n,
        Err(f) => {
            return Err(f);
        },
    };
    Ok(Pagination { offset, limit })
}

/// What result-type extraction yields: the optional tag list of the `type`
/// parameter, or the malformed field. Absence means "no filter", not an
/// empty list; order is preserved and duplicates are kept.
pub open spec fn types_spec(params: RawParameters) -> Result<
    Option<Seq<Seq<char>>>,
    Seq<char>,
> {
    str_list_param(params, "type"@)
}

/// Extracts the optional result-type filter from the `type` parameter.
pub fn extract_types(params: &RawParameters) -> (r: Result<Option<Vec<String>>, Failure>)
    ensures
        match r {
            Ok(ts) => types_spec(*params) == Ok::<Option<Seq<Seq<char>>>, Seq<char>>(
                ts.deep_view(),
            ),
            Err(f) => types_spec(*params) matches Err(field) && is_invalid_param(f, field),
        },
{
    params.get_str_list("type")
}

/// Law: a request that omits both pagination parameters is normalized to
/// exactly the configured defaults; under the stock configuration that is
/// offset 0 and limit 10.
pub proof fn lemma_omitted_pagination_defaults(params: RawParameters, cfg: NormalizeConfig)
    requires
        params.lookup("offset"@) is None,
        params.lookup("limit"@) is None,
    ensures
        pagination_spec(params, cfg) == Ok::<(u64, u64), Seq<char>>(
            (cfg.default_offset, cfg.default_limit),
        ),
{
}

} // verus!
