//! A whole invocation at once: what the world outside did, and the outcome
//! that the relay owes for it.

use crate::document::{decode_body, decoded, json_reading, Document};
use crate::failure::{outcome_view, ClassifiedError, Failure};
use crate::status::{check_status, is_success_code, rejected_status};
use crate::transport::{
    classify_build_failure, classify_fault, configuration_failure, transport_failure,
    TransportFault,
};
use vstd::prelude::*;

verus! {

/// What happened outside the relay during one invocation.
#[derive(Debug, PartialEq, Eq)]
pub enum Exchange {
    /// The client could not be built; the text says why.
    NoClient(String),
    /// The request did not complete: no status ever arrived.
    NoResponse(TransportFault),
    /// A response arrived. The body is what reading it gives; it is read
    /// only where the status is in the successful range.
    Response { status: u16, body: Result<Vec<u8>, TransportFault> },
}

/// The outcome that the relay owes for an exchange. The stages are taken in
/// order, and the first that fails decides: building the client, the
/// transport, the status, the decoding of the body.
pub open spec fn relay_outcome(exchange: Exchange) -> Result<Document, Failure> {
    match exchange {
        Exchange::NoClient(detail) => Err(configuration_failure(detail@)),
        Exchange::NoResponse(fault) => Err(transport_failure(fault.timed_out, fault.detail@)),
        Exchange::Response { status, body } => if !is_success_code(status) {
            Err(rejected_status(status))
        } else {
            match body {
                Ok(bytes) => decoded(json_reading(bytes@)),
                Err(fault) => Err(transport_failure(fault.timed_out, fault.detail@)),
            }
        },
    }
}

/// Resolves a whole exchange to the outcome of the invocation.
pub fn resolve(exchange: Exchange) -> (outcome: Result<Document, ClassifiedError>)
    ensures
        outcome_view(outcome) == relay_outcome(exchange),
{
    match exchange {
        Exchange::NoClient(detail) => Err(classify_build_failure(detail)),
        Exchange::NoResponse(fault) => Err(classify_fault(fault)),
        Exchange::Response { status, body } => match check_status(status) {
            Err(error) => Err(error),
            Ok(()) => match body {
                Ok(bytes) => decode_body(bytes.as_slice()),
                Err(fault) => Err(classify_fault(fault)),
            },
        },
    }
}

} // verus!
