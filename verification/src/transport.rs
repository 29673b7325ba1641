//! Failures of the transport: a request that did not complete.

use crate::failure::{ClassifiedError, Failure, FailureKind};
use vstd::prelude::*;

verus! {

/// What the host reports of a request that did not complete: whether the
/// transport attributes the failure to the configured timeout, and the
/// transport's own diagnostic text.
#[derive(Debug, PartialEq, Eq)]
pub struct TransportFault {
    pub timed_out: bool,
    pub detail: String,
}

impl TransportFault {
    pub fn new(timed_out: bool, detail: String) -> (fault: TransportFault)
        ensures
            fault.timed_out == timed_out,
            fault.detail@ == detail@,
    {
        TransportFault { timed_out, detail }
    }
}

/// The failure of a request that did not complete: `Timeout` where the
/// timeout elapsed, `Transport` for every other cause, with the diagnostic
/// carried over unchanged.
pub open spec fn transport_failure(timed_out: bool, detail: Seq<char>) -> Failure {
    Failure {
        kind: if timed_out {
            FailureKind::Timeout
        } else {
            FailureKind::Transport
        },
        detail,
    }
}

/// The failure of a client that could not be built.
pub open spec fn configuration_failure(detail: Seq<char>) -> Failure {
    Failure { kind: FailureKind::Configuration, detail }
}

/// Classifies a request that did not complete.
pub fn classify_fault(fault: TransportFault) -> (error: ClassifiedError)
    ensures
        error@ == transport_failure(fault.timed_out, fault.detail@),
{
    if fault.timed_out {
        ClassifiedError::new(FailureKind::Timeout, fault.detail)
    } else {
        ClassifiedError::new(FailureKind::Transport, fault.detail)
    }
}

/// Classifies a client that could not be built.
pub fn classify_build_failure(detail: String) -> (error: ClassifiedError)
    ensures
        error@ == configuration_failure(detail@),
{
    ClassifiedError::new(FailureKind::Configuration, detail)
}

} // verus!
