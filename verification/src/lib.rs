//! A single-room chat backend, reduced to the decisions it takes.
//!
//! The room keeps the ten messages it accepted last. Each connection runs a
//! small state machine that turns client requests into room commands and room
//! answers into outbound frames. Sockets, queues and the wire codec live
//! outside this crate: they feed events in and carry actions out.

pub mod main_room;
pub mod messages;
pub mod sanitize;
pub mod session;
