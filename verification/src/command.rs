use vstd::prelude::*;

verus! {

/// Request body for creating a chain together with an initial policy.
#[derive(Debug, Clone)]
pub struct AddChainCommand {
    pub name: String,
    pub policy: String,
}

/// Request body for inserting a rule at a 0-based position.
#[derive(Debug, Clone)]
pub struct InsertRuleCommand {
    pub position: u32,
    pub rule: String,
}

} // verus!
