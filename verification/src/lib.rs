//! A client for a remote feature-flag evaluation service, without the network.
//!
//! The library says which request an operation puts on the wire and what the
//! caller gets for whatever came back. Sending the request and reading the
//! response is left to the program around it.

pub mod error;
pub mod base_url;
pub mod evaluation;
pub mod transport;
pub mod util;
pub mod laws;
