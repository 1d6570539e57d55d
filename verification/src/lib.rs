//! Decision core of an SSH port-forwarding daemon: tunnel lifecycle,
//! health and traffic accounting, remote command rendering and parsing.
//!
//! Nothing here performs I/O. Every function maps plain values to plain
//! values, so that the code which owns sockets and sessions only has to
//! carry out the actions it is handed and report back what happened.

pub mod text;
pub mod error;
pub mod model;
pub mod metric;
pub mod shell;
pub mod ident;
pub mod remote_cmd;
pub mod ssh;
pub mod setup;
pub mod actor;
pub mod lifecycle;
pub mod manager;
pub mod status;
pub mod server_manager;
pub mod settings;
