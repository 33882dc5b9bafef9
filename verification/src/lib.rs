//! A greeting counter kept in an on-chain account.
//!
//! The crate holds both sides of the protocol: the program logic that bumps
//! the counter stored in an account it owns, and the decisions a client takes
//! to fund itself, create that account at a derived address, invoke the
//! program and read the counter back.  Network and file access are left to
//! the caller; every function here works on plain values.

pub mod error;
pub mod address;
pub mod client;
pub mod program;
pub mod schema;
pub mod utils;
pub mod workflow;
