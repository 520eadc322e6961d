//! A tick-driven reminder scheduler.
//!
//! Callers register a message for a tick. When that tick begins, every message
//! pending for it is delivered, in registration order, and the number delivered
//! is recorded; when the tick ends, that number is announced.

pub mod event;
pub mod origin;
pub mod pallet;
pub mod store;
pub mod trace;
pub mod weights;

pub use crate::event::{Event, Notification};
pub use crate::origin::Origin;
pub use crate::pallet::{Config, Error, Pallet, State};
pub use crate::store::ScheduleStore;
pub use crate::weights::{RuntimeDbWeight, Weight};
