//! Histories of store operations, and what a tick's backlog holds after one.

use crate::store::{backlog_at, drained, no_empty_entry, registered};
use vstd::prelude::*;

verus! {

/// One operation on a schedule.
pub enum Op {
    /// A payload is registered for a tick.
    Register(u64, Seq<u8>),
    /// The backlog of a tick is drained.
    Drain(u64),
}

/// Schedule `s` after operation `op`.
pub open spec fn apply(s: Map<u64, Seq<Seq<u8>>>, op: Op) -> Map<u64, Seq<Seq<u8>>> {
    match op {
        Op::Register(tick, payload) => registered(s, tick, payload),
        Op::Drain(tick) => drained(s, tick),
    }
}

/// Schedule `s` after the operations `ops`, first to last.
pub open spec fn run(s: Map<u64, Seq<Seq<u8>>>, ops: Seq<Op>) -> Map<u64, Seq<Seq<u8>>>
    decreases ops.len(),
{
    if ops.len() == 0 {
        s
    } else {
        apply(run(s, ops.drop_last()), ops.last())
    }
}

/// The payloads that `ops` register for `tick`, in the order of the operations.
pub open spec fn registered_for(ops: Seq<Op>, tick: u64) -> Seq<Seq<u8>>
    decreases ops.len(),
{
    if ops.len() == 0 {
        Seq::empty()
    } else {
        let earlier = registered_for(ops.drop_last(), tick);
        match ops.last() {
            Op::Register(t, payload) => if t == tick {
                earlier.push(payload)
            } else {
                earlier
            },
            Op::Drain(_) => earlier,
        }
    }
}

/// Some operation of `ops` drains `tick`.
pub open spec fn drains(ops: Seq<Op>, tick: u64) -> bool {
    exists|i: int| 0 <= i < ops.len() && ops[i] == Op::Drain(tick)
}

/// Some operation of `ops` registers a payload for `tick`.
pub open spec fn registers(ops: Seq<Op>, tick: u64) -> bool {
    exists|i: int| 0 <= i < ops.len() && (#[trigger] ops[i]) is Register && ops[i]->Register_0 == tick
}

/// Registration order is delivery order: after a history that does not drain
/// `tick`, the tick's backlog is what it was before, followed by the payloads that
/// the history registered for the tick, in the order of their registration.
/// Operations on other ticks may stand anywhere in the history.
pub proof fn lemma_registration_order(s: Map<u64, Seq<Seq<u8>>>, ops: Seq<Op>, tick: u64)
    requires
        !drains(ops, tick),
    ensures
        backlog_at(run(s, ops), tick) == backlog_at(s, tick) + registered_for(ops, tick),
    decreases ops.len(),
{
    if ops.len() == 0 {
        assert(backlog_at(s, tick) + Seq::<Seq<u8>>::empty() =~= backlog_at(s, tick));
    } else {
        let earlier = ops.drop_last();
        assert forall|i: int| 0 <= i < earlier.len() implies earlier[i] != Op::Drain(tick) by {
            assert(earlier[i] == ops[i]);
        }
        lemma_registration_order(s, earlier, tick);
        assert(ops.last() == ops[ops.len() - 1]);
        let before = run(s, earlier);
        match ops.last() {
            Op::Register(t, payload) => {
                if t == tick {
                    assert(backlog_at(registered(before, t, payload), tick) =~= backlog_at(s, tick)
                        + registered_for(earlier, tick).push(payload));
                }
            },
            Op::Drain(t) => {
                assert(t != tick);
            },
        }
    }
}

/// From an empty backlog, as in a store just made or a tick just drained, a history
/// that does not drain `tick` leaves exactly the payloads registered for it.
pub proof fn lemma_backlog_is_registrations(s: Map<u64, Seq<Seq<u8>>>, ops: Seq<Op>, tick: u64)
    requires
        !s.contains_key(tick),
        !drains(ops, tick),
    ensures
        backlog_at(run(s, ops), tick) == registered_for(ops, tick),
{
    lemma_registration_order(s, ops, tick);
    assert(Seq::<Seq<u8>>::empty() + registered_for(ops, tick) =~= registered_for(ops, tick));
}

/// The history that registers each of `payloads` for `tick`, first to last, and
/// does nothing else.
pub open spec fn registrations(tick: u64, payloads: Seq<Seq<u8>>) -> Seq<Op> {
    Seq::new(payloads.len(), |i: int| Op::Register(tick, payloads[i]))
}

/// Payloads registered one after the other for a tick whose backlog was empty are
/// that tick's backlog, in that order: a drain returns exactly them.
pub proof fn lemma_registrations_in_order(
    s: Map<u64, Seq<Seq<u8>>>,
    tick: u64,
    payloads: Seq<Seq<u8>>,
)
    requires
        !s.contains_key(tick),
    ensures
        backlog_at(run(s, registrations(tick, payloads)), tick) == payloads,
{
    let ops = registrations(tick, payloads);
    lemma_backlog_is_registrations(s, ops, tick);
    lemma_registered_for_registrations(tick, payloads);
}

/// What `registrations(tick, payloads)` registers for `tick` is `payloads`.
pub proof fn lemma_registered_for_registrations(tick: u64, payloads: Seq<Seq<u8>>)
    ensures
        registered_for(registrations(tick, payloads), tick) == payloads,
    decreases payloads.len(),
{
    let ops = registrations(tick, payloads);
    if payloads.len() == 0 {
        assert(payloads =~= Seq::<Seq<u8>>::empty());
    } else {
        assert(ops.drop_last() =~= registrations(tick, payloads.drop_last()));
        lemma_registered_for_registrations(tick, payloads.drop_last());
        assert(ops.last() == Op::Register(tick, payloads.last()));
        assert(payloads.drop_last().push(payloads.last()) =~= payloads);
    }
}

/// A drain leaves nothing behind: once `tick` is drained, its backlog stays empty
/// through every history that registers nothing for it, so a second drain
/// returns the empty sequence.
pub proof fn lemma_drain_exhausts(s: Map<u64, Seq<Seq<u8>>>, ops: Seq<Op>, tick: u64)
    requires
        !registers(ops, tick),
    ensures
        backlog_at(run(drained(s, tick), ops), tick) == Seq::<Seq<u8>>::empty(),
        !run(drained(s, tick), ops).contains_key(tick),
    decreases ops.len(),
{
    if ops.len() > 0 {
        let earlier = ops.drop_last();
        assert forall|i: int| 0 <= i < earlier.len() implies !(earlier[i] is Register
            && earlier[i]->Register_0 == tick) by {
            assert(earlier[i] == ops[i]);
        }
        lemma_drain_exhausts(s, earlier, tick);
        assert(ops.last() == ops[ops.len() - 1]);
    }
}

/// No operation leaves an empty backlog behind: a schedule without empty entries
/// has none after any history, and the empty schedule has none to begin with.
pub proof fn lemma_no_empty_entry(s: Map<u64, Seq<Seq<u8>>>, ops: Seq<Op>)
    requires
        no_empty_entry(s),
    ensures
        no_empty_entry(run(s, ops)),
        no_empty_entry(Map::<u64, Seq<Seq<u8>>>::empty()),
    decreases ops.len(),
{
    if ops.len() > 0 {
        lemma_no_empty_entry(s, ops.drop_last());
    }
}

/// Ticks do not touch each other: an operation on one tick leaves the backlog of
/// every other tick as it was.
pub proof fn lemma_isolation(s: Map<u64, Seq<Seq<u8>>>, op: Op, tick: u64)
    requires
        op != Op::Drain(tick),
        !(op is Register && op->Register_0 == tick),
    ensures
        backlog_at(apply(s, op), tick) == backlog_at(s, tick),
        apply(s, op).contains_key(tick) == s.contains_key(tick),
{
}

} // verus!
