//! Activity-event relay: the event model, the size/idle batching policy and
//! the broker-then-HTTP delivery policy, each stated and proved with Verus.
pub mod config;
pub mod events;
pub mod modifiers;
pub mod batching;
pub mod delivery;
