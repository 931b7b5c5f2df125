//! Interop core for a declarative HTTP relay: a typed taxonomy of request and
//! response descriptions, a wire codec with proved round trips, a header
//! aggregator that installs header lines on a transport handle, and a
//! response builder that classifies, measures and assembles transfer results.

pub mod codec;
pub mod error;
pub mod header;
pub mod interop;
pub mod response;
pub mod wire;
