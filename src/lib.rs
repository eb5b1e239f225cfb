//! A gateway between network clients and a serial-attached instrument.
//!
//! The library holds the logic: the length-prefixed frame codec of the
//! client protocol, the byte forms written to the device, the message
//! vocabulary, and the state machine that admits one session at a time and
//! correlates each forwarded request with the device's reply.
pub mod device;
pub mod error;
pub mod message;
pub mod session;
pub mod wire;
