//! Bridging of serial devices to named WebSocket endpoints: the decisions of
//! the listener and of each connection, written as verified state machines.
//!
//! The crate performs no I/O. A driver owns the sockets, the device handles
//! and the tasks; it reports what happened to the machines defined here and
//! carries out what they answer.
//!
//! - [`config`]: the settings of the listener and of a device.
//! - [`router`]: from the path of an upgrade request to a device.
//! - [`guard`]: one call at a time against the device of a connection.
//! - [`queue`]: device payloads that await sending, in order.
//! - [`events`]: what the driver reports and what it is answered.
//! - [`model`]: the connection as a mathematical state machine.
//! - [`bridge`]: the connection that the driver works with.
//! - [`laws`]: what holds of every connection.
//! - [`acceptor`]: the listener's decisions.

pub mod acceptor;
pub mod bridge;
pub mod config;
pub mod events;
pub mod guard;
pub mod laws;
pub mod model;
pub mod queue;
pub mod router;
