//! Device-session core for a CAN-bus adapter driven through a vendor driver.
//!
//! The crate decides; the caller performs. Every command is split into the
//! request that has to be put to the native driver and the outcome that
//! follows from the driver's reply, so that the session's state machine can
//! be stated and proved without touching the driver itself.
//!
//! - [`session`] holds the shared state and the commands on it.
//! - [`reconnect`] is the multi-step recovery procedure.
//! - [`driver`] names the entry points, the requests and the replies.
//! - [`frame`], [`config`] and [`board`] are the records the driver
//!   exchanges, [`error`] the failures, [`text`] the strings.
//! - [`laws`] proves what holds across commands.

pub mod board;
pub mod config;
pub mod driver;
pub mod error;
pub mod frame;
pub mod laws;
pub mod reconnect;
pub mod session;
pub mod text;
