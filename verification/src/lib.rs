//! Client-side subscription verification for the ARPStore licensing service.
//!
//! The crate builds signed activation-check requests (a device fingerprint,
//! caller data and a Unix timestamp, authenticated by a concatenate-then-hash
//! SHA-256 signature) and interprets the service's JSON responses into a
//! typed outcome. Network transport is left to the caller; everything that
//! computes — signing, payload framing, response interpretation — is here,
//! with contracts.

pub mod client;
pub mod decfmt;
pub mod errors;
pub mod hexfmt;
pub mod payload;
pub mod response;
pub mod signing;
