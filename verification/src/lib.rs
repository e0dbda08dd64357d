//! A Modbus-over-TCP protocol engine on a shared register bank.
//!
//! The bank keeps four tables of 65536 entries each. A request frame is
//! parsed, run against the bank and answered by the frame processor of the
//! `rmodbus` crate; the rules around those calls are verified here.
//!
//! - `wire`: how registers and bits lie in the bytes of a frame;
//! - `error`: the errors of the server and their exception codes;
//! - `bank`: the register bank and its bulk reads and writes;
//! - `frame`: the codec, from bytes to a request;
//! - `executor`: running a request and framing the response;
//! - `session`: the life of one connection as a state machine;
//! - `laws`: what holds of requests and responses taken together.

pub mod bank;
pub mod error;
pub mod executor;
pub mod frame;
pub mod laws;
pub mod session;
pub mod wire;
