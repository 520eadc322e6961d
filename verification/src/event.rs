//! What the scheduler tells its observers.

use vstd::prelude::*;

verus! {

/// A notification, as the scheduler hands it out.
#[derive(Debug, PartialEq, Eq)]
pub enum Event {
    /// A message was registered for a tick.
    ReminderScheduled(u64, Vec<u8>),
    /// A message is delivered: its tick has begun.
    Reminder(Vec<u8>),
    /// A tick has ended; so many messages were delivered when it began.
    RemindersExecuted(u64),
}

/// A notification as a mathematical value.
pub enum Notification {
    ReminderScheduled(u64, Seq<u8>),
    Reminder(Seq<u8>),
    RemindersExecuted(nat),
}

impl View for Event {
    type V = Notification;

    open spec fn view(&self) -> Notification {
        match *self {
            Event::ReminderScheduled(tick, payload) => Notification::ReminderScheduled(
                tick,
                payload@,
            ),
            Event::Reminder(payload) => Notification::Reminder(payload@),
            Event::RemindersExecuted(count) => Notification::RemindersExecuted(count as nat),
        }
    }
}

impl Clone for Event {
    fn clone(&self) -> (copy: Event)
        ensures
            copy@ == self@,
    {
        match self {
            Event::ReminderScheduled(tick, payload) => Event::ReminderScheduled(
                *tick,
                payload.clone(),
            ),
            Event::Reminder(payload) => Event::Reminder(payload.clone()),
            Event::RemindersExecuted(count) => Event::RemindersExecuted(*count),
        }
    }
}

/// The notifications that a list of events stands for, in order.
pub open spec fn notifications(events: Seq<Event>) -> Seq<Notification> {
    Seq::new(events.len(), |i: int| events[i]@)
}

/// One delivery for each payload of `backlog`, in order.
pub open spec fn deliveries(backlog: Seq<Seq<u8>>) -> Seq<Notification> {
    Seq::new(backlog.len(), |i: int| Notification::Reminder(backlog[i]))
}

} // verus!
