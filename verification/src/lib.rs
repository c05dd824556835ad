//! A deterministic bounded value deriver with a persisted single-field record.
//!
//! The library combines an environment-supplied 64-bit counter with
//! caller-supplied seed bytes into a value in `[0, 100)`, validates that the
//! caller controls the target record, and rewrites the record's fixed
//! little-endian byte layout. All of it is verified; the hosting runtime
//! (account resolution, clock access, logging) stays outside.

pub mod auth;
pub mod derivation;
pub mod errors;
pub mod process;
pub mod state;
