//! Decision logic of a point-to-point chat relay: the connection registry,
//! the delivery coordinator with its offline backlog, and the per-connection
//! session state machines. Network, storage and timers are driven by the caller.

pub mod message;
pub mod registry;
pub mod delivery;
pub mod auth;
pub mod backlog;
pub mod session;
