//! The security intent that accompanies a capability request.

use vstd::prelude::*;

verus! {

/// The mission domain of a request.
#[derive(Debug, PartialEq, Eq, Structural)]
pub enum Domain {
    Defense,
    Telecom,
    Blockchain,
    EndToEnd,
}

/// The security intent of a request; accepted with every capability request
/// and not yet interpreted.
#[derive(Debug, PartialEq, Eq, Structural)]
pub struct SecurityProfile {
    pub domain: Domain,
    pub quantum_resistant: bool,
    pub require_atomic_time: bool,
}

} // verus!
