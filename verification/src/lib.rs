//! Verified core of a browser automation session server.
//!
//! The library contains the protocol-independent logic of the server: input
//! validation, script construction with safe escaping, key handling, the
//! session lifecycle state machine, and the driver acquisition rules. The
//! asynchronous protocol clients and all I/O live outside the library and
//! consume the decisions and values computed here.

pub mod acquire;
pub mod actions;
pub mod config;
pub mod errors;
pub mod keys;
pub mod launch;
pub mod obs;
pub mod script;
pub mod session;
pub mod text;
pub mod tools;
pub mod version;
