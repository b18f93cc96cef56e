//! The verified core of a proof-of-work mining client.
//!
//! A pool of workers searches for nonces whose score under the current
//! template is at most the template's threshold. This crate holds the rules
//! of that search: how a nonce is scored, when it passes, how a worker reacts
//! to what is broadcast to it, what is reported to the coordinator, and how
//! throughput is measured. The tasks, channels and network calls that drive
//! these rules belong to the program around the crate.

pub mod digest;
pub mod mining;
pub mod pool;
pub mod tip5;
