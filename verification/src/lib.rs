//! A GATT server construction and event-driven registration engine for a
//! BLE peripheral, together with the small data types it is built from.
//!
//! The Bluetooth controller itself is callback-based and order-dependent:
//! registering an application, creating a service, starting it and adding
//! each characteristic are separate asynchronous operations whose completion
//! is only known when a matching event arrives later.  The engine here is a
//! pure state machine: the caller feeds it every controller event and
//! performs the [`Action`]s it hands back.  All decisions — event
//! correlation, ordering, handle bookkeeping, payload truncation — are made
//! in verified code.
//!
//! [`Action`]: crate::events::Action
use vstd::prelude::*;

pub mod connection;
pub mod entities;
pub mod events;
pub mod lamp;
pub mod push;
pub mod registry;
pub mod server;
pub mod uuid;

verus! {

} // verus!
