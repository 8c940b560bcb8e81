//! Query-string options shared by the list endpoints.

use vstd::prelude::*;

verus! {

/// Pagination and search options of the list endpoints. A request that
/// carries none of them falls back to the boundary layer's defaults.
#[derive(Debug, Clone)]
pub struct FilterOptions {
    pub page: Option<usize>,
    pub limit: Option<usize>,
    pub search: Option<String>,
    pub start_date: Option<String>,
    pub end_date: Option<String>,
}

/// A single-id path parameter.
#[derive(Debug, Clone)]
pub struct ParamOptions {
    pub id: String,
}

} // verus!
