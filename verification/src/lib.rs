//! Core of a shielded-value note protocol.
//!
//! A [`note::Note`] carries a value privately: it can be serialized in
//! plaintext, encrypted for public storage, reduced to a commitment for an
//! append-only accumulator, and marked as spent through a nullifier. An
//! [`asset::Asset`] identifies a custom asset type, derived deterministically
//! from its attributes by rejection sampling over a one-byte nonce. The
//! [`bits`] module holds the bit-decomposition logic that a proving circuit
//! shares with the plain computations, so that both sides agree bit for bit.

pub mod address;
pub mod asset;
pub mod bits;
pub mod crypto;
pub mod errors;
pub mod note;
pub mod util;
