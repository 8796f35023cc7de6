//! A proof-carrying fetch pipeline.
//!
//! The library binds an HTTP request, identified by its URL, to a
//! deterministic commitment digest, models the remote proving session as an
//! explicit state machine, and checks a downloaded proof artifact together
//! with the commitment carried inside its attested envelope.

pub mod envelope;
pub mod hashing;
pub mod receipt;
pub mod session;
