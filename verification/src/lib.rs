//! Event records of a system monitor: the records themselves, the bounded
//! queue that keeps them until a reader collects them, the byte format in
//! which a reader receives them, and the decisions of the monitor's request
//! and notification handlers.

pub mod item;
pub mod wire;
pub mod queue;
pub mod status;
pub mod notify;
pub mod registry;
pub mod dispatch;
pub mod setup;
