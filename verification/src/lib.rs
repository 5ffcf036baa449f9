//! Verified core of a real-time group-messaging server: the wire protocol
//! types, the client and voice registries, the request dispatcher, the
//! plugin bookkeeping, the shutdown coordinator and the operator console's
//! command parser.  Everything here is pure: functions take the current
//! state and an event and return the new state together with the actions
//! that the surrounding program has to perform.

pub mod action;
pub mod cli;
pub mod error;
pub mod plugin;
pub mod requests;
pub mod server;
pub mod types;
pub mod utils;
