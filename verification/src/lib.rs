//! The decisions of a Mynewt sensor node's network task: where a sensor
//! reading goes (the collector node or the CoAP server), what the message
//! holds, and what the caller is told, as a verified state machine that the
//! caller drives with the results of its calls into the operating system.

pub mod error;
pub mod payload;
pub mod send;
pub mod sensor;
pub mod task;
pub mod trace;
