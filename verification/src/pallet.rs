//! The tick processor and the registration endpoint.

use crate::event::{deliveries, notifications, Event, Notification};
use crate::origin::{ensure_signed, Origin};
use crate::store::{backlog_at, drained, no_empty_entry, payloads, registered, ScheduleStore};
use crate::weights::{RuntimeDbWeight, Weight};
use vstd::prelude::*;

verus! {

/// Why a request was turned down.
#[derive(Clone, Copy, Debug, PartialEq, Eq, Structural)]
pub enum Error {
    /// The request was not signed by an account.
    Unauthenticated,
}

/// What the host fixes for the scheduler.
#[derive(Clone, Copy, Debug, PartialEq, Eq, Structural)]
pub struct Config {
    /// The cost of one database read and of one database write.
    pub db_weight: RuntimeDbWeight,
}

/// The scheduler's state as a mathematical value.
pub struct State {
    /// The pending backlog of each tick that has one.
    pub reminders: Map<u64, Seq<Seq<u8>>>,
    /// How many messages were delivered when a tick last began.
    pub event_counter: nat,
}

/// The state after tick `tick` has begun in state `s`: the tick's backlog is gone,
/// and the counter holds its length, whatever it held before.
pub open spec fn after_begin(s: State, tick: u64) -> State {
    State {
        reminders: drained(s.reminders, tick),
        event_counter: backlog_at(s.reminders, tick).len(),
    }
}

/// The notifications emitted when tick `tick` begins in state `s`: one delivery for
/// each message pending for the tick, in registration order.
pub open spec fn delivered_at(s: State, tick: u64) -> Seq<Notification> {
    deliveries(backlog_at(s.reminders, tick))
}

/// The notification emitted when a tick ends in state `s`.
pub open spec fn summary(s: State) -> Notification {
    Notification::RemindersExecuted(s.event_counter)
}

/// The state after `message` has been scheduled for tick `at` in state `s`.
pub open spec fn after_schedule(s: State, at: u64, message: Seq<u8>) -> State {
    State { reminders: registered(s.reminders, at, message), event_counter: s.event_counter }
}

/// The fixed cost of the begin of a tick: one read and two writes, saturating.
pub open spec fn begin_cost(db: RuntimeDbWeight) -> Weight {
    (Weight { ref_time: 0, proof_size: 0 }).plus(db.cost_of_reads(1)).plus(db.cost_of_writes(2))
}

/// The cost declared for a registration: a base of 10 000 units of computation
/// time and one read, saturating.
pub open spec fn registration_cost(db: RuntimeDbWeight) -> Weight {
    (Weight { ref_time: 10_000, proof_size: 0 }).plus(db.cost_of_reads(1))
}

/// The scheduler: the schedule store, the delivery counter, and the host's
/// configuration.
pub struct Pallet {
    config: Config,
    reminders: ScheduleStore,
    event_counter: u64,
}

impl View for Pallet {
    type V = State;

    closed spec fn view(&self) -> State {
        State { reminders: self.reminders@, event_counter: self.event_counter as nat }
    }
}

impl Pallet {
    /// The configuration that the scheduler was made with.
    pub closed spec fn config(&self) -> Config {
        self.config
    }

    /// A scheduler with nothing pending and nothing delivered yet.
    pub fn new(config: Config) -> (pallet: Pallet)
        ensures
            pallet@ == (State { reminders: Map::empty(), event_counter: 0 }),
            pallet.config() == config,
    {
        Pallet { config, reminders: ScheduleStore::new(), event_counter: 0 }
    }

    /// A scheduler that takes up a given state: what is pending, and how many
    /// messages were delivered when a tick last began.
    pub fn from_parts(config: Config, reminders: ScheduleStore, event_counter: u64) -> (pallet:
        Pallet)
        ensures
            pallet@ == (State { reminders: reminders@, event_counter: event_counter as nat }),
            pallet.config() == config,
    {
        Pallet { config, reminders, event_counter }
    }

    /// How many messages were delivered when a tick last began; 0 before the first.
    pub fn event_counter(&self) -> (count: u64)
        ensures
            count == self@.event_counter,
    {
        self.event_counter
    }

    /// A copy of the messages pending for tick `n`, in registration order.
    pub fn reminders(&self, n: u64) -> (backlog: Vec<Vec<u8>>)
        ensures
            payloads(backlog@) == backlog_at(self@.reminders, n),
            backlog@.len() == backlog_at(self@.reminders, n).len(),
            forall|i: int|
                0 <= i < backlog@.len() ==> (#[trigger] backlog@[i])@ == backlog_at(
                    self@.reminders,
                    n,
                )[i],
    {
        self.reminders.get(n)
    }

    /// The schedule store.
    pub fn store(&self) -> (store: &ScheduleStore)
        ensures
            store@ == self@.reminders,
    {
        &self.reminders
    }

    /// The cost that the host is to charge for a call of `schedule_reminder`.
    pub fn schedule_reminder_weight(&self) -> (cost: Weight)
        ensures
            cost == registration_cost(self.config().db_weight),
    {
        let base = Weight { ref_time: 10_000, proof_size: 0 };
        base.saturating_add(self.config.db_weight.reads(1))
    }

    /// Begins tick `n`: delivers every message pending for it, in registration
    /// order, removes the tick's backlog, and sets the delivery counter to the number
    /// delivered. Returns the fixed cost of the store accesses and the deliveries.
    pub fn on_initialize(&mut self, n: u64) -> (out: (Weight, Vec<Event>))
        ensures
            final(self)@ == after_begin(old(self)@, n),
            final(self)@.event_counter == out.1@.len(),
            final(self).config() == old(self).config(),
            no_empty_entry(final(self)@.reminders),
            out.0 == begin_cost(old(self).config().db_weight),
            notifications(out.1@) == delivered_at(old(self)@, n),
            out.1@.len() == backlog_at(old(self)@.reminders, n).len(),
            forall|i: int|
                0 <= i < out.1@.len() ==> (#[trigger] out.1@[i])@ == Notification::Reminder(
                    backlog_at(old(self)@.reminders, n)[i],
                ),
    {
        let mut used_weight = Weight::zero();
        let reminders = self.reminders.drain(n);
        used_weight = used_weight.saturating_add(self.config.db_weight.reads(1));
        used_weight = used_weight.saturating_add(self.config.db_weight.writes(2));

        let ghost pending = reminders@;
        assert(pending.len() == reminders.len());
        let mut delivered: Vec<Event> = Vec::new();
        let mut events: u64 = 0;
        for reminder in it: reminders
            invariant
                it.seq() == pending,
                pending.len() <= usize::MAX,
                events == it.index(),
                delivered@.len() == it.index(),
                forall|i: int| 0 <= i < it.index() ==> delivered@[i]@ == Notification::Reminder(pending[i]@),
        {
            delivered.push(Event::Reminder(reminder));
            events += 1;
        }
        self.event_counter = events;
        assert(notifications(delivered@) =~= delivered_at(old(self)@, n));
        (used_weight, delivered)
    }

    /// Ends tick `n`: announces how many messages were delivered when a tick last
    /// began. The state is left as it is.
    pub fn on_finalize(&self, _n: u64) -> (event: Event)
        ensures
            event@ == summary(self@),
    {
        Event::RemindersExecuted(self.event_counter)
    }

    /// Registers `message` for tick `at` on behalf of `origin`, which must be signed.
    /// On success returns the notification of the registration.
    pub fn schedule_reminder<AccountId>(
        &mut self,
        origin: Origin<AccountId>,
        at: u64,
        message: Vec<u8>,
    ) -> (result: Result<Event, Error>)
        ensures
            final(self).config() == old(self).config(),
            no_empty_entry(final(self)@.reminders),
            origin is Signed ==> final(self)@ == after_schedule(old(self)@, at, message@)
                && result is Ok && result->Ok_0@ == Notification::ReminderScheduled(at, message@),
            !(origin is Signed) ==> final(self)@ == old(self)@ && result == Err::<Event, Error>(
                Error::Unauthenticated,
            ),
    {
        proof {
            use_type_invariant(&self.reminders);
        }
        match ensure_signed(origin) {
            Ok(_) => {},
            Err(_) => {
                return Err(Error::Unauthenticated);
            },
        }
        self.reminders.register(at, message.clone());
        Ok(Event::ReminderScheduled(at, message))
    }
}

/// The counter is overwritten, not accumulated: after a tick has begun it holds
/// the length of that tick's backlog, whatever it held before.
pub proof fn lemma_counter_overwritten(s: State, before: nat, tick: u64)
    ensures
        after_begin(State { reminders: s.reminders, event_counter: before }, tick).event_counter
            == backlog_at(s.reminders, tick).len(),
        after_begin(State { reminders: s.reminders, event_counter: before }, tick) == after_begin(
            s,
            tick,
        ),
{
}

/// The summary at the end of a tick carries `k` if and only if the begin of the
/// tick, immediately before, delivered exactly `k` messages.
pub proof fn lemma_summary_consistent(s: State, tick: u64, k: nat)
    ensures
        summary(after_begin(s, tick)) == Notification::RemindersExecuted(k) <==> delivered_at(
            s,
            tick,
        ).len() == k,
{
}

/// After a tick has begun, nothing is pending for it: to begin it once more
/// delivers nothing and sets the counter to 0.
pub proof fn lemma_begin_exhausts(s: State, tick: u64)
    ensures
        !after_begin(s, tick).reminders.contains_key(tick),
        delivered_at(after_begin(s, tick), tick) == Seq::<Notification>::empty(),
        after_begin(after_begin(s, tick), tick).event_counter == 0,
{
}

/// A registration for one tick changes nothing for another: neither its backlog,
/// nor what is delivered when it begins, nor the count of those deliveries.
pub proof fn lemma_schedule_isolated(s: State, at: u64, message: Seq<u8>, tick: u64)
    requires
        at != tick,
    ensures
        backlog_at(after_schedule(s, at, message).reminders, tick) == backlog_at(
            s.reminders,
            tick,
        ),
        delivered_at(after_schedule(s, at, message), tick) == delivered_at(s, tick),
        after_begin(after_schedule(s, at, message), tick).event_counter == after_begin(
            s,
            tick,
        ).event_counter,
        after_begin(after_schedule(s, at, message), tick) == after_schedule(
            after_begin(s, tick),
            at,
            message,
        ),
{
    assert(after_begin(after_schedule(s, at, message), tick).reminders =~= after_schedule(
        after_begin(s, tick),
        at,
        message,
    ).reminders);
}

} // verus!
