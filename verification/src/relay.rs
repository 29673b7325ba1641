//! One invocation of the relay, as a state machine that the host drives.
//!
//! The host starts with [`begin`], carries out each [`Action`] and reports
//! what came of it as an [`Event`] to [`step`], until the action is
//! [`Action::Finish`].

use crate::config::{
    client_settings, configured_request, configured_settings, request, ClientSettings, GetRequest,
};
use crate::document::{decode_body, decoded, json_reading, Document};
use crate::failure::{outcome_view, ClassifiedError, Failure, FailureKind};
use crate::status::{check_status, is_success_code, rejected_status};
use crate::transport::{
    classify_build_failure, classify_fault, configuration_failure, transport_failure,
    TransportFault,
};
use vstd::prelude::*;

verus! {

/// What an invocation in flight is waiting for.
#[derive(Clone, Copy, Debug, PartialEq, Eq, Structural)]
pub enum Awaiting {
    /// The request is sent; no status has come back yet.
    Response,
    /// A successful status has come back; the body is being read.
    Body,
}

/// Where an invocation stands.
#[derive(Clone, Copy, Debug, PartialEq, Eq, Structural)]
pub enum RelayState {
    /// No request has been made; the client is being built.
    Idle,
    /// The one request of the invocation is in flight.
    Requesting(Awaiting),
    /// The client could not be built.
    ConfigurationFailed,
    /// The timeout elapsed before the round trip was over.
    TimedOut,
    /// The transport failed for another reason.
    TransportFailed,
    /// The endpoint answered with a status outside the successful range.
    StatusRejected,
    /// The body was not a JSON document.
    DecodeFailed,
    /// The document was delivered.
    Succeeded,
}

impl RelayState {
    /// A terminal state is never left: the invocation is over.
    pub open spec fn is_terminal(self) -> bool {
        !(self is Idle) && !(self is Requesting)
    }

    /// Whether the invocation is over.
    pub fn is_finished(self) -> (finished: bool)
        ensures
            finished == self.is_terminal(),
    {
        match self {
            RelayState::Idle => false,
            RelayState::Requesting(_) => false,
            _ => true,
        }
    }
}

/// What the host reports back.
#[derive(Debug, PartialEq, Eq)]
pub enum Event {
    /// The client was built.
    ClientReady,
    /// The client could not be built; the text says why.
    ClientFailed(String),
    /// The request did not complete: sending failed, or reading the body.
    Failed(TransportFault),
    /// A response arrived with this status.
    Responded(u16),
    /// The whole body was read.
    BodyRead(Vec<u8>),
}

/// What the host is to do next.
#[derive(Debug, PartialEq, Eq)]
pub enum Action {
    /// Build the transport client, then report `ClientReady` or
    /// `ClientFailed`.
    BuildClient(ClientSettings),
    /// Send the request, then report `Responded` or `Failed`.
    Send(GetRequest),
    /// Read the body of the response, then report `BodyRead` or `Failed`.
    ReadBody,
    /// Hand the outcome to the caller: the invocation is over.
    Finish(Result<Document, ClassifiedError>),
    /// The event does not belong to the state: nothing is to be done.
    Nothing,
}

/// An action as contracts speak of it.
pub enum ActionModel {
    BuildClient(ClientSettings),
    Send(GetRequest),
    ReadBody,
    Finish(Result<Document, Failure>),
    Nothing,
}

impl View for Action {
    type V = ActionModel;

    open spec fn view(&self) -> ActionModel {
        match *self {
            Action::BuildClient(settings) => ActionModel::BuildClient(settings),
            Action::Send(request) => ActionModel::Send(request),
            Action::ReadBody => ActionModel::ReadBody,
            Action::Finish(outcome) => ActionModel::Finish(outcome_view(outcome)),
            Action::Nothing => ActionModel::Nothing,
        }
    }
}

/// The state that follows `state` on `event`. An event that does not belong
/// to the state leaves it as it is.
pub open spec fn next_state(state: RelayState, event: Event) -> RelayState {
    match (state, event) {
        (RelayState::Idle, Event::ClientReady) => RelayState::Requesting(Awaiting::Response),
        (RelayState::Idle, Event::ClientFailed(_)) => RelayState::ConfigurationFailed,
        (RelayState::Requesting(_), Event::Failed(fault)) => if fault.timed_out {
            RelayState::TimedOut
        } else {
            RelayState::TransportFailed
        },
        (RelayState::Requesting(Awaiting::Response), Event::Responded(code)) => if is_success_code(
            code,
        ) {
            RelayState::Requesting(Awaiting::Body)
        } else {
            RelayState::StatusRejected
        },
        (RelayState::Requesting(Awaiting::Body), Event::BodyRead(bytes)) => if json_reading(
            bytes@,
        ) is Ok {
            RelayState::Succeeded
        } else {
            RelayState::DecodeFailed
        },
        _ => state,
    }
}

/// The action that `event` calls for in `state`.
pub open spec fn action_for(state: RelayState, event: Event) -> ActionModel {
    match (state, event) {
        (RelayState::Idle, Event::ClientReady) => ActionModel::Send(configured_request()),
        (RelayState::Idle, Event::ClientFailed(detail)) => ActionModel::Finish(
            Err(configuration_failure(detail@)),
        ),
        (RelayState::Requesting(_), Event::Failed(fault)) => ActionModel::Finish(
            Err(transport_failure(fault.timed_out, fault.detail@)),
        ),
        (RelayState::Requesting(Awaiting::Response), Event::Responded(code)) => if is_success_code(
            code,
        ) {
            ActionModel::ReadBody
        } else {
            ActionModel::Finish(Err(rejected_status(code)))
        },
        (RelayState::Requesting(Awaiting::Body), Event::BodyRead(bytes)) => ActionModel::Finish(
            decoded(json_reading(bytes@)),
        ),
        _ => ActionModel::Nothing,
    }
}

/// Starts an invocation: the state is `Idle`, and the host is to build the
/// client with the configured settings.
pub fn begin() -> (start: (RelayState, Action))
    ensures
        start.0 == RelayState::Idle,
        start.1@ == ActionModel::BuildClient(configured_settings()),
{
    (RelayState::Idle, Action::BuildClient(client_settings()))
}

/// Takes one event: gives the state that follows and the action it calls
/// for.
pub fn step(state: RelayState, event: Event) -> (next: (RelayState, Action))
    ensures
        next.0 == next_state(state, event),
        next.1@ == action_for(state, event),
{
    match state {
        RelayState::Idle => match event {
            Event::ClientReady => (
                RelayState::Requesting(Awaiting::Response),
                Action::Send(request()),
            ),
            Event::ClientFailed(detail) => (
                RelayState::ConfigurationFailed,
                Action::Finish(Err(classify_build_failure(detail))),
            ),
            _ => (state, Action::Nothing),
        },
        RelayState::Requesting(awaiting) => match event {
            Event::Failed(fault) => {
                let settled = if fault.timed_out {
                    RelayState::TimedOut
                } else {
                    RelayState::TransportFailed
                };
                (settled, Action::Finish(Err(classify_fault(fault))))
            },
            Event::Responded(code) => match awaiting {
                Awaiting::Response => match check_status(code) {
                    Ok(()) => (RelayState::Requesting(Awaiting::Body), Action::ReadBody),
                    Err(error) => (RelayState::StatusRejected, Action::Finish(Err(error))),
                },
                Awaiting::Body => (state, Action::Nothing),
            },
            Event::BodyRead(bytes) => match awaiting {
                Awaiting::Body => match decode_body(bytes.as_slice()) {
                    Ok(document) => (RelayState::Succeeded, Action::Finish(Ok(document))),
                    Err(error) => (RelayState::DecodeFailed, Action::Finish(Err(error))),
                },
                Awaiting::Response => (state, Action::Nothing),
            },
            _ => (state, Action::Nothing),
        },
        _ => (state, Action::Nothing),
    }
}

} // verus!
