//! Runs of one invocation: what a sequence of events leaves behind.

use crate::document::Document;
use crate::exchange::{relay_outcome, Exchange};
use crate::failure::{Failure, FailureKind};
use crate::relay::{action_for, next_state, ActionModel, Awaiting, Event, RelayState};
use crate::status::{is_success_code, rejected_status};
use vstd::prelude::*;

verus! {

/// An invocation as an observer sees it.
pub struct Invocation {
    /// Where the invocation stands.
    pub state: RelayState,
    /// How many requests it has sent.
    pub requests: nat,
    /// The outcome it has handed to the caller, if any.
    pub outcome: Option<Result<Document, Failure>>,
}

/// An invocation before its first event.
pub open spec fn fresh() -> Invocation {
    Invocation { state: RelayState::Idle, requests: 0, outcome: None }
}

/// The invocation after one more event: the state moves on, a `Send` counts
/// as a request, a `Finish` hands over the outcome.
pub open spec fn advance(invocation: Invocation, event: Event) -> Invocation {
    let action = action_for(invocation.state, event);
    Invocation {
        state: next_state(invocation.state, event),
        requests: if action is Send {
            invocation.requests + 1
        } else {
            invocation.requests
        },
        outcome: match action {
            ActionModel::Finish(outcome) => Some(outcome),
            _ => invocation.outcome,
        },
    }
}

/// The invocation after a sequence of events, taken in order.
pub open spec fn run(invocation: Invocation, events: Seq<Event>) -> Invocation
    decreases events.len(),
{
    if events.len() == 0 {
        invocation
    } else {
        run(advance(invocation, events.first()), events.drop_first())
    }
}

/// Whether an outcome is the one that a terminal state stands for.
pub open spec fn settles(state: RelayState, outcome: Result<Document, Failure>) -> bool {
    match state {
        RelayState::Succeeded => outcome is Ok,
        RelayState::ConfigurationFailed => outcome is Err && outcome->Err_0.kind
            == FailureKind::Configuration,
        RelayState::TimedOut => outcome is Err && outcome->Err_0.kind == FailureKind::Timeout,
        RelayState::TransportFailed => outcome is Err && outcome->Err_0.kind
            == FailureKind::Transport,
        RelayState::StatusRejected => outcome is Err && outcome->Err_0.kind
            == FailureKind::RemoteStatus,
        RelayState::DecodeFailed => outcome is Err && outcome->Err_0.kind == FailureKind::Decode,
        RelayState::Idle | RelayState::Requesting(_) => false,
    }
}

impl Invocation {
    /// What holds of an invocation at every moment. While it is under way no
    /// outcome has been handed over; once it is over, exactly one has, and
    /// it is the one the state stands for. One request was sent as soon as
    /// the client was built and none before, so never more than one.
    pub open spec fn consistent(self) -> bool {
        match self.state {
            RelayState::Idle => self.requests == 0 && self.outcome is None,
            RelayState::Requesting(_) => self.requests == 1 && self.outcome is None,
            RelayState::ConfigurationFailed => self.requests == 0 && self.outcome is Some
                && settles(self.state, self.outcome->Some_0),
            _ => self.requests == 1 && self.outcome is Some && settles(
                self.state,
                self.outcome->Some_0,
            ),
        }
    }
}

/// The events that a host reports when the world outside behaves as
/// `exchange` says.
pub open spec fn script(exchange: Exchange) -> Seq<Event> {
    match exchange {
        Exchange::NoClient(detail) => seq![Event::ClientFailed(detail)],
        Exchange::NoResponse(fault) => seq![Event::ClientReady, Event::Failed(fault)],
        Exchange::Response { status, body } => if !is_success_code(status) {
            seq![Event::ClientReady, Event::Responded(status)]
        } else {
            match body {
                Ok(bytes) => seq![
                    Event::ClientReady,
                    Event::Responded(status),
                    Event::BodyRead(bytes),
                ],
                Err(fault) => seq![
                    Event::ClientReady,
                    Event::Responded(status),
                    Event::Failed(fault),
                ],
            }
        },
    }
}

/// An event keeps an invocation consistent.
pub proof fn lemma_advance_consistent(invocation: Invocation, event: Event)
    requires
        invocation.consistent(),
    ensures
        advance(invocation, event).consistent(),
{
}

/// Every invocation is consistent, whatever events it has been given: it
/// has sent at most one request, and it has handed over an outcome exactly
/// if it is over, the one that its state stands for.
pub proof fn lemma_run_consistent(invocation: Invocation, events: Seq<Event>)
    requires
        invocation.consistent(),
    ensures
        run(invocation, events).consistent(),
    decreases events.len(),
{
    if events.len() > 0 {
        lemma_advance_consistent(invocation, events.first());
        lemma_run_consistent(advance(invocation, events.first()), events.drop_first());
    }
}

/// There is no retry: once an invocation is over, no event changes its
/// state, makes it send a request or replaces its outcome.
pub proof fn lemma_terminal_is_final(invocation: Invocation, events: Seq<Event>)
    requires
        invocation.state.is_terminal(),
    ensures
        run(invocation, events) == invocation,
    decreases events.len(),
{
    if events.len() > 0 {
        assert(advance(invocation, events.first()) == invocation);
        lemma_terminal_is_final(invocation, events.drop_first());
    }
}

/// An action is `Finish` exactly on the events that end the invocation.
pub proof fn lemma_finish_ends(state: RelayState, event: Event)
    ensures
        action_for(state, event) is Finish <==> !state.is_terminal() && next_state(
            state,
            event,
        ).is_terminal(),
        action_for(state, event) is Send ==> state is Idle,
        action_for(state, event) is Nothing <==> next_state(state, event) == state,
        !(action_for(state, event) is BuildClient),
{
}

/// A rejected status ends the invocation at once: no body is asked for, and
/// whatever is reported later, a body included, the outcome stays the
/// `RemoteStatus` failure.
pub proof fn lemma_rejected_status_ends(code: u16, later: Seq<Event>)
    requires
        !is_success_code(code),
    ensures
        action_for(RelayState::Requesting(Awaiting::Response), Event::Responded(code))
            == ActionModel::Finish(Err(rejected_status(code))),
        run(fresh(), seq![Event::ClientReady, Event::Responded(code)] + later).outcome == Some(
            Err::<Document, Failure>(rejected_status(code)),
        ),
{
    let events = seq![Event::ClientReady, Event::Responded(code)] + later;
    let sent = advance(fresh(), Event::ClientReady);
    let rejected = advance(sent, Event::Responded(code));
    assert(events.first() == Event::ClientReady);
    assert(events.drop_first().first() == Event::Responded(code));
    assert(events.drop_first().drop_first() =~= later);
    assert(run(fresh(), events) == run(rejected, later)) by {
        reveal_with_fuel(run, 3);
    }
    lemma_terminal_is_final(rejected, later);
}

/// A host that reports an exchange faithfully gets the outcome that the
/// relay owes for it, and the invocation is over.
pub proof fn lemma_script_resolves(exchange: Exchange)
    ensures
        run(fresh(), script(exchange)).outcome == Some(relay_outcome(exchange)),
        run(fresh(), script(exchange)).state.is_terminal(),
        run(fresh(), script(exchange)).requests == (if exchange is NoClient {
            0nat
        } else {
            1nat
        }),
{
    let events = script(exchange);
    reveal_with_fuel(run, 4);
    match exchange {
        Exchange::NoClient(detail) => {
            assert(events.drop_first() =~= Seq::<Event>::empty());
        },
        Exchange::NoResponse(fault) => {
            assert(events.drop_first() =~= seq![Event::Failed(fault)]);
            assert(events.drop_first().drop_first() =~= Seq::<Event>::empty());
        },
        Exchange::Response { status, body } => {
            if !is_success_code(status) {
                assert(events.drop_first() =~= seq![Event::Responded(status)]);
                assert(events.drop_first().drop_first() =~= Seq::<Event>::empty());
            } else {
                let last = events[2];
                assert(events.drop_first() =~= seq![Event::Responded(status), last]);
                assert(events.drop_first().drop_first() =~= seq![last]);
                assert(events.drop_first().drop_first().drop_first() =~= Seq::<Event>::empty());
            }
        },
    }
}

} // verus!
