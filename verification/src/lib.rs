//! A verified 2-D gravitational N-body simulation engine.
//!
//! Scalars are IEEE-754 binary64 values carried as `u64` bit patterns, so
//! that the verifier can state exactly which arithmetic the engine performs
//! while the arithmetic itself is left to a software implementation of
//! IEEE-754 behind a small trusted layer (see `scalar`).

pub mod laws;
pub mod scalar;
pub mod sim;
pub mod vec2;
