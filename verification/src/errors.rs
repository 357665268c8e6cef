use vstd::prelude::*;

verus! {

/// The failure conditions of this crate.
#[derive(Clone, Copy, Debug, PartialEq, Eq, Structural)]
pub enum IronfishError {
    /// A byte stream is malformed: too short, or a field is not a valid
    /// encoding of its type.
    Decoding,
    /// The authentication tag of a ciphertext does not verify.
    Authentication,
    /// A recomputed note commitment differs from the expected one.
    InvalidCommitment,
    /// Hash-to-curve yielded no valid point for one nonce.
    InvalidAssetIdentifier,
    /// Every nonce in the one-byte range was tried and none yielded a point.
    RandomnessExhausted,
}

} // verus!
