//! Keeps DNS A records in step with the host's public IPv4 address.
//!
//! The library holds every decision of a run: reading the configuration,
//! shaping the requests to the DNS provider, and a state machine that walks
//! the fallback chain of echo services, checks the first record for drift and
//! rewrites every configured record. The caller performs the network calls
//! that the machine asks for and hands back what came of them.
pub mod config;
pub mod error;
pub mod laws;
pub mod record;
pub mod sync;
pub mod text;
