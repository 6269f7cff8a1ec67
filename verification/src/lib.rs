//! Request-normalization core of a geocoding autocomplete service.
//!
//! The crate turns the loosely-typed parameter bag of an HTTP request into
//! one canonical, validated query object, and renders results and errors in
//! the service's uniform JSON envelope.

pub mod bias;
pub mod errors;
pub mod filters;
pub mod geometry;
pub mod params;
pub mod query;
pub mod respond;
