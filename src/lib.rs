//! Temperature-triggered control of a Bluetooth smart plug: the hysteresis
//! decision, the per-action connection cycle and the plug's byte protocol.
pub mod protocol;
pub mod control;
pub mod cycle;
pub mod runloop;
pub mod switch;
