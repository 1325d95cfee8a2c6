//! Discovery orchestration for lighthouse base stations: a registry that is
//! filled at most once, a map of devices with their cached statuses, and the
//! state machine of one discovery session.
//!
//! The library decides; its caller talks to the radio transport and to the
//! event sink. Every function here takes what the transport produced as plain
//! values and returns the events to deliver, in the order of delivery.

pub mod device;
pub mod device_list;
pub mod events;
pub mod laws;
pub mod registry;
pub mod session;
