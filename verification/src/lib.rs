//! Workload identity for SPIFFE: an issuing authority for X.509 and JWT
//! SVIDs, the admission rule and push cadence of the Workload API that
//! serves them, and the client-side rules for fetching, classifying and
//! rendering what was served.
//!
//! Calls into cryptography, encoders and the clock are confined to small
//! trusted functions whose contracts are stated next to them; everything
//! else is proved against its contract.

pub mod auth;
pub mod bundles;
pub mod bytes;
pub mod chain;
pub mod cli;
pub mod client;
mod clock;
pub mod duration;
pub mod encoding;
pub mod jwt;
pub mod profile;
pub mod report;
pub mod server;
pub mod svid;
pub mod text;
