//! Temporary Contact Numbers: a decentralized, privacy-first contact tracing
//! protocol.
//!
//! A report authorization key seeds a one-way ratchet of temporary contact
//! keys; each key yields a short temporary contact number that devices
//! broadcast over Bluetooth. A user who later wants to disclose contacts
//! publishes a signed report from which anyone can recompute a contiguous
//! range of those numbers, without learning the signing key.
//!
//! This library uses the `H_TCK` / `H_TCN` domain separators, hands out the key
//! at index 1 as the initial key, and reads a report's disclosure range
//! `j_1 .. j_2` as half-open.
pub mod bytes;
pub mod crypto;
pub mod error;
pub mod keys;
pub mod laws;
pub mod report;
pub mod serialize;

pub use error::Error;
pub use keys::{ReportAuthorizationKey, TemporaryContactKey, TemporaryContactNumber};
pub use report::{MemoType, Report, SignedReport, TemporaryContactNumbers};
