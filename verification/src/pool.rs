//! Many invocations at once: none of them sees what another is given.

use crate::exchange::{relay_outcome, Exchange};
use crate::relay::Event;
use crate::run::{advance, fresh, lemma_script_resolves, run, script, Invocation};
use vstd::prelude::*;

verus! {

/// The invocations under way after one of them, `who`, is given an event.
/// An event for an invocation that does not exist is dropped.
pub open spec fn pool_advance(pool: Seq<Invocation>, who: int, event: Event) -> Seq<Invocation> {
    if 0 <= who < pool.len() {
        pool.update(who, advance(pool[who], event))
    } else {
        pool
    }
}

/// The invocations after a trace: events for any of them, in the order in
/// which they happened to arrive.
pub open spec fn pool_run(pool: Seq<Invocation>, trace: Seq<(int, Event)>) -> Seq<Invocation>
    decreases trace.len(),
{
    if trace.len() == 0 {
        pool
    } else {
        pool_run(pool_advance(pool, trace.first().0, trace.first().1), trace.drop_first())
    }
}

/// The events of a trace that are for `who`, in their order.
pub open spec fn events_of(trace: Seq<(int, Event)>, who: int) -> Seq<Event>
    decreases trace.len(),
{
    if trace.len() == 0 {
        Seq::empty()
    } else if trace.first().0 == who {
        seq![trace.first().1] + events_of(trace.drop_first(), who)
    } else {
        events_of(trace.drop_first(), who)
    }
}

/// A pool of invocations that have not begun.
pub open spec fn fresh_pool(size: nat) -> Seq<Invocation> {
    Seq::new(size, |who: int| fresh())
}

/// Invocations do not interfere: however the events of several invocations
/// are interleaved, each ends up where its own events alone would have
/// taken it.
pub proof fn lemma_invocations_independent(
    pool: Seq<Invocation>,
    trace: Seq<(int, Event)>,
    who: int,
)
    requires
        0 <= who < pool.len(),
    ensures
        pool_run(pool, trace).len() == pool.len(),
        pool_run(pool, trace)[who] == run(pool[who], events_of(trace, who)),
    decreases trace.len(),
{
    if trace.len() > 0 {
        let first = trace.first();
        let rest = trace.drop_first();
        let stepped = pool_advance(pool, first.0, first.1);
        lemma_invocations_independent(stepped, rest, who);
        if first.0 == who {
            let own = seq![first.1] + events_of(rest, who);
            assert(own.first() == first.1);
            assert(own.drop_first() =~= events_of(rest, who));
        }
    }
}

/// Concurrent invocations each resolve to the outcome of their own
/// exchange: where every invocation of a pool is reported its own exchange
/// faithfully, in any interleaving with the others, each hands over the
/// outcome that the relay owes for that exchange.
pub proof fn lemma_each_resolves_its_own(exchanges: Seq<Exchange>, trace: Seq<(int, Event)>)
    requires
        forall|who: int|
            0 <= who < exchanges.len() ==> #[trigger] events_of(trace, who) == script(
                exchanges[who],
            ),
    ensures
        pool_run(fresh_pool(exchanges.len()), trace).len() == exchanges.len(),
        forall|who: int|
            0 <= who < exchanges.len() ==> (#[trigger] pool_run(
                fresh_pool(exchanges.len()),
                trace,
            )[who]).outcome == Some(relay_outcome(exchanges[who])),
{
    let pool = fresh_pool(exchanges.len());
    if exchanges.len() > 0 {
        lemma_invocations_independent(pool, trace, 0);
    } else {
        lemma_pool_keeps_size(pool, trace);
    }
    assert forall|who: int| 0 <= who < exchanges.len() implies (#[trigger] pool_run(
        pool,
        trace,
    )[who]).outcome == Some(relay_outcome(exchanges[who])) by {
        lemma_invocations_independent(pool, trace, who);
        assert(events_of(trace, who) == script(exchanges[who]));
        lemma_script_resolves(exchanges[who]);
    }
}

proof fn lemma_pool_keeps_size(pool: Seq<Invocation>, trace: Seq<(int, Event)>)
    ensures
        pool_run(pool, trace).len() == pool.len(),
    decreases trace.len(),
{
    if trace.len() > 0 {
        lemma_pool_keeps_size(
            pool_advance(pool, trace.first().0, trace.first().1),
            trace.drop_first(),
        );
    }
}

} // verus!
