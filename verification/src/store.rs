//! The schedule store: pending messages, keyed by the tick at which they are due.

use std::collections::HashMap;
use vstd::prelude::*;

verus! {

/// The backlog that schedule `s` holds for `tick`: empty where it holds none.
pub open spec fn backlog_at(s: Map<u64, Seq<Seq<u8>>>, tick: u64) -> Seq<Seq<u8>> {
    if s.contains_key(tick) {
        s[tick]
    } else {
        Seq::empty()
    }
}

/// Schedule `s` after `payload` has been registered for `tick`: the payload
/// stands last in that tick's backlog.
pub open spec fn registered(s: Map<u64, Seq<Seq<u8>>>, tick: u64, payload: Seq<u8>) -> Map<
    u64,
    Seq<Seq<u8>>,
> {
    s.insert(tick, backlog_at(s, tick).push(payload))
}

/// Schedule `s` after the backlog of `tick` has been drained: the entry is gone.
pub open spec fn drained(s: Map<u64, Seq<Seq<u8>>>, tick: u64) -> Map<u64, Seq<Seq<u8>>> {
    s.remove(tick)
}

/// No entry of schedule `s` is an empty backlog.
pub open spec fn no_empty_entry(s: Map<u64, Seq<Seq<u8>>>) -> bool {
    forall|tick: u64| s.contains_key(tick) ==> (#[trigger] s[tick]).len() > 0
}

/// The byte sequences of the payloads in `backlog`, in order.
pub open spec fn payloads(backlog: Seq<Vec<u8>>) -> Seq<Seq<u8>> {
    Seq::new(backlog.len(), |i: int| backlog[i]@)
}

/// The schedule that a table of backlogs stands for.
pub open spec fn schedule_of(entries: Map<u64, Vec<Vec<u8>>>) -> Map<u64, Seq<Seq<u8>>> {
    Map::new(|tick: u64| entries.contains_key(tick), |tick: u64| payloads(entries[tick]@))
}

/// Pending messages by target tick.
pub struct ScheduleStore {
    entries: HashMap<u64, Vec<Vec<u8>>>,
}

impl View for ScheduleStore {
    type V = Map<u64, Seq<Seq<u8>>>;

    closed spec fn view(&self) -> Map<u64, Seq<Seq<u8>>> {
        schedule_of(self.entries@)
    }
}

impl ScheduleStore {
    /// Entries are created by the first registration for a tick and removed whole
    /// by a drain, so none is ever empty.
    #[verifier::type_invariant]
    pub open spec fn inv(&self) -> bool {
        no_empty_entry(self@)
    }

    /// The pending backlog of `tick`, in registration order.
    pub open spec fn backlog(&self, tick: u64) -> Seq<Seq<u8>> {
        backlog_at(self@, tick)
    }

    /// A store with nothing pending.
    pub fn new() -> (store: ScheduleStore)
        ensures
            store@ == Map::<u64, Seq<Seq<u8>>>::empty(),
    {
        let store = ScheduleStore { entries: HashMap::new() };
        assert(store@ =~= Map::<u64, Seq<Seq<u8>>>::empty());
        store
    }

    /// Appends `payload` to the backlog of `tick`, creating the backlog if the
    /// tick has none.
    pub fn register(&mut self, tick: u64, payload: Vec<u8>)
        ensures
            final(self)@ == registered(old(self)@, tick, payload@),
            no_empty_entry(final(self)@),
    {
        proof {
            use_type_invariant(&*self);
        }
        // The table is taken out while it is updated and put back whole.
        let mut entries = HashMap::new();
        core::mem::swap(&mut self.entries, &mut entries);
        let mut backlog = match entries.remove(&tick) {
            Some(pending) => pending,
            None => Vec::new(),
        };
        assert(payloads(backlog@) == backlog_at(old(self)@, tick));
        backlog.push(payload);
        assert(payloads(backlog@) == backlog_at(old(self)@, tick).push(payload@));
        entries.insert(tick, backlog);
        assert(schedule_of(entries@) =~= registered(old(self)@, tick, payload@));
        core::mem::swap(&mut self.entries, &mut entries);
    }

    /// Takes the whole backlog of `tick` out of the store, in registration order.
    pub fn drain(&mut self, tick: u64) -> (backlog: Vec<Vec<u8>>)
        ensures
            payloads(backlog@) == old(self).backlog(tick),
            backlog@.len() == old(self).backlog(tick).len(),
            forall|i: int|
                0 <= i < backlog@.len() ==> (#[trigger] backlog@[i])@ == old(self).backlog(tick)[i],
            final(self)@ == drained(old(self)@, tick),
            no_empty_entry(final(self)@),
    {
        proof {
            use_type_invariant(&*self);
        }
        // The table is taken out while it is updated and put back whole.
        let mut entries = HashMap::new();
        core::mem::swap(&mut self.entries, &mut entries);
        let backlog = match entries.remove(&tick) {
            Some(pending) => pending,
            None => Vec::new(),
        };
        assert(schedule_of(entries@) =~= drained(old(self)@, tick));
        core::mem::swap(&mut self.entries, &mut entries);
        backlog
    }

    /// A copy of the backlog of `tick`, in registration order; the store is left as
    /// it is.
    pub fn get(&self, tick: u64) -> (backlog: Vec<Vec<u8>>)
        ensures
            payloads(backlog@) == self.backlog(tick),
            backlog@.len() == self.backlog(tick).len(),
            forall|i: int|
                0 <= i < backlog@.len() ==> (#[trigger] backlog@[i])@ == self.backlog(tick)[i],
    {
        match self.entries.get(&tick) {
            Some(pending) => pending.clone(),
            None => Vec::new(),
        }
    }

    /// The number of messages pending for `tick`; the store is left as it is.
    pub fn peek_count(&self, tick: u64) -> (count: usize)
        ensures
            count == self.backlog(tick).len(),
            no_empty_entry(self@),
    {
        proof {
            use_type_invariant(self);
        }
        match self.entries.get(&tick) {
            Some(pending) => pending.len(),
            None => 0,
        }
    }
}

} // verus!
