use vstd::prelude::*;

verus! {

/// The uniform response envelope: every successful result is wrapped in a
/// single named payload field.
#[derive(Debug, Clone)]
pub struct DataMap<T> {
    pub data: T,
}

/// Response payload of the fixed table listing.
#[derive(Debug, Clone)]
pub struct TablesResponse {
    pub tables: Vec<String>,
}

/// Response payload of a chain listing.
#[derive(Debug, Clone)]
pub struct ChainsResponse {
    pub chains: Vec<String>,
}

/// Response payload of a rule listing.
#[derive(Debug, Clone)]
pub struct RulesResponse {
    pub rules: Vec<String>,
}

} // verus!
