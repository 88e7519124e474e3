//! Control-plane registry for a cross-chain messaging endpoint.
//!
//! For every (application, remote path) pair this crate decides which
//! message-processing library is authoritative for outbound sends and which
//! for inbound receives, and lets that choice change over time without
//! breaking in-flight messages. Send switches are atomic; receive switches
//! may open a bounded migration window during which the previous library
//! stays acceptable until an expiry checkpoint.

pub mod directory;
pub mod endpoint;
pub mod errors;
pub mod laws;
pub mod message_lib;
