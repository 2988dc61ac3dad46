//! Access layer for a messaging core: opaque result handles for a foreign
//! caller, and a command dispatcher over a shared account registry.
//!
//! The messaging core itself (configuration, synchronisation, storage) is an
//! outside service reached only through I/O; this crate holds the logic the
//! layer owns. Callers resolve an account, run the decision functions here,
//! perform the core operation they are told to, and feed the outcome back.

pub mod account;
pub mod bridge;
pub mod config;
pub mod dispatch;
pub mod email;
pub mod errors;
pub mod registry;
