use vstd::prelude::*;

verus! {

/// The service's failure taxonomy: a chain or interface that does not exist,
/// a rule position at or past the end of the chain, a malformed request, or
/// a failure reported by the packet-filter subsystem itself, carrying the
/// subsystem's message. None of these is allowed to crash the process: every
/// operation returns one of them instead of panicking.
#[derive(Debug, Clone, PartialEq, Eq)]
pub enum FwError {
    NotFound,
    OutOfRange,
    BadRequest,
    SubsystemFailure(String),
}

impl FwError {
    /// The short label of the failure kind, for response bodies.
    pub fn kind(&self) -> (r: &'static str)
        ensures
            *self is NotFound ==> r@ == "not_found"@,
            *self is OutOfRange ==> r@ == "out_of_range"@,
            *self is BadRequest ==> r@ == "bad_request"@,
            *self is SubsystemFailure ==> r@ == "subsystem_failure"@,
    {
        match self {
            FwError::NotFound => "not_found",
            FwError::OutOfRange => "out_of_range",
            FwError::BadRequest => "bad_request",
            FwError::SubsystemFailure(_) => "subsystem_failure",
        }
    }
}

} // verus!
