//! The cryptographic collaborators of the protocol, behind trusted contracts.
//!
//! Everything here either names what an outside computation returns (an
//! uninterpreted function of its inputs) or wraps one outside call. The rest
//! of the crate is verified against these contracts.

use vstd::prelude::*;
use chacha20poly1305::aead::{Aead, KeyInit};
use group::GroupEncoding;
use rand::Rng;

verus! {

/// Whether 32 bytes are the canonical encoding of a scalar of the note
/// randomness field, i.e. whether `jubjub::Fr::from_bytes` accepts them.
pub uninterp spec fn scalar_canonical(b: Seq<u8>) -> bool;

/// Whether 43 bytes are a well-formed public address, i.e. whether
/// `sapling_crypto::PaymentAddress::from_bytes` accepts them: a diversifier
/// that hashes to a valid base point, followed by the canonical encoding of a
/// non-identity prime-order transmission key.
pub uninterp spec fn address_parses(b: Seq<u8>) -> bool;

/// Whether 32 bytes are the canonical encoding of a prime-order curve point,
/// i.e. whether `jubjub::SubgroupPoint::from_bytes` accepts them.
pub uninterp spec fn point_canonical(b: Seq<u8>) -> bool;

/// What hashing `preimage` to the curve under the value-commitment generator
/// domain tag yields: `None` when no valid point comes out, otherwise the
/// 32-byte canonical encoding of the point. Names the result of
/// `sapling_crypto::group_hash::group_hash`.
pub uninterp spec fn group_hash_vc(preimage: Seq<u8>) -> Option<Seq<u8>>;

/// The 32-byte note commitment over an owner address, a value and the note
/// randomness. Names the result of `sapling_crypto::Note::cmu`.
pub uninterp spec fn note_commitment_of(owner: Seq<u8>, value: u64, randomness: Seq<u8>) -> Seq<
    u8,
>;

/// The 32-byte nullifier of a note at `position`, under the nullifier
/// deriving key `nk`. Names the result of `sapling_crypto::Note::nf`.
pub uninterp spec fn nullifier_of(
    owner: Seq<u8>,
    value: u64,
    randomness: Seq<u8>,
    nk: Seq<u8>,
    position: u64,
) -> Seq<u8>;

/// The authenticated ciphertext of `plaintext` under `key`: the encrypted
/// payload followed by a 16-byte authentication tag. Names the result of
/// `ChaCha20Poly1305::encrypt` with this crate's fixed nonce.
pub uninterp spec fn aead_ciphertext(key: Seq<u8>, plaintext: Seq<u8>) -> Seq<u8>;

/// Relies on `jubjub::Fr::from_bytes_wide` and `to_bytes`: reducing 64 bytes
/// of entropy yields a scalar whose canonical 32-byte encoding `from_bytes`
/// accepts again.
#[verifier::external_body]
pub(crate) fn fresh_randomness() -> (r: Vec<u8>)
    ensures
        r@.len() == 32,
        scalar_canonical(r@),
{
    let mut wide = [0u8; 64];
    rand::rng().fill_bytes(&mut wide);
    jubjub::Fr::from_bytes_wide(&wide).to_bytes().to_vec()
}

/// Relies on `jubjub::Fr::from_bytes`: it accepts exactly the canonical
/// scalar encodings.
#[verifier::external_body]
pub(crate) fn scalar_is_canonical(b: &Vec<u8>) -> (r: bool)
    requires
        b@.len() == 32,
    ensures
        r == scalar_canonical(b@),
{
    let arr: [u8; 32] = b.as_slice().try_into().unwrap();
    jubjub::Fr::from_bytes(&arr).is_some().into()
}

/// Relies on `sapling_crypto::PaymentAddress::from_bytes`: it accepts exactly
/// the well-formed 43-byte address encodings.
#[verifier::external_body]
pub(crate) fn address_is_valid(b: &Vec<u8>) -> (r: bool)
    requires
        b@.len() == 43,
    ensures
        r == address_parses(b@),
{
    let arr: [u8; 43] = b.as_slice().try_into().unwrap();
    sapling_crypto::PaymentAddress::from_bytes(&arr).is_some()
}

/// Relies on `jubjub::SubgroupPoint::from_bytes`: it accepts exactly the
/// canonical encodings of prime-order points.
#[verifier::external_body]
pub(crate) fn point_is_valid(b: &Vec<u8>) -> (r: bool)
    requires
        b@.len() == 32,
    ensures
        r == point_canonical(b@),
{
    let arr: [u8; 32] = b.as_slice().try_into().unwrap();
    jubjub::SubgroupPoint::from_bytes(&arr).is_some().into()
}

/// Relies on `sapling_crypto::group_hash::group_hash` under the
/// value-commitment generator domain tag: a deterministic hash-to-curve that
/// yields a prime-order, non-identity point or nothing; the encoding of a
/// point is 32 bytes.
#[verifier::external_body]
pub(crate) fn group_hash_value_commitment(preimage: &Vec<u8>) -> (r: Option<Vec<u8>>)
    ensures
        r matches Some(id) ==> id@.len() == 32 && group_hash_vc(preimage@) == Some(id@),
        r is None ==> group_hash_vc(preimage@) is None,
{
    sapling_crypto::group_hash::group_hash(
        preimage.as_slice(),
        sapling_crypto::constants::VALUE_COMMITMENT_GENERATOR_PERSONALIZATION,
    ).map(|p| p.to_bytes().to_vec())
}

/// Relies on `sapling_crypto::Note::cmu`: the note commitment is a
/// deterministic function of the recipient address, the value and the
/// commitment trapdoor, encoded in 32 bytes.
#[verifier::external_body]
pub(crate) fn note_commitment_bytes(owner: &Vec<u8>, value: u64, randomness: &Vec<u8>) -> (r: Vec<
    u8,
>)
    requires
        owner@.len() == 43,
        address_parses(owner@),
        randomness@.len() == 32,
        scalar_canonical(randomness@),
    ensures
        r@.len() == 32,
        r@ == note_commitment_of(owner@, value, randomness@),
{
    let addr_arr: [u8; 43] = owner.as_slice().try_into().unwrap();
    let recipient = sapling_crypto::PaymentAddress::from_bytes(&addr_arr).unwrap();
    let rand_arr: [u8; 32] = randomness.as_slice().try_into().unwrap();
    let rcm = jubjub::Fr::from_bytes(&rand_arr).unwrap();
    let note = sapling_crypto::Note::from_parts(
        recipient,
        sapling_crypto::value::NoteValue::from_raw(value),
        sapling_crypto::Rseed::BeforeZip212(rcm),
    );
    note.cmu().to_bytes().to_vec()
}

/// Relies on `sapling_crypto::Note::nf`: the nullifier is a deterministic
/// function of the note's contents, the nullifier deriving key and the
/// position, encoded in 32 bytes.
#[verifier::external_body]
pub(crate) fn nullifier_bytes(
    owner: &Vec<u8>,
    value: u64,
    randomness: &Vec<u8>,
    nk: &Vec<u8>,
    position: u64,
) -> (r: Vec<u8>)
    requires
        owner@.len() == 43,
        address_parses(owner@),
        randomness@.len() == 32,
        scalar_canonical(randomness@),
        nk@.len() == 32,
        point_canonical(nk@),
    ensures
        r@.len() == 32,
        r@ == nullifier_of(owner@, value, randomness@, nk@, position),
{
    let addr_arr: [u8; 43] = owner.as_slice().try_into().unwrap();
    let recipient = sapling_crypto::PaymentAddress::from_bytes(&addr_arr).unwrap();
    let rand_arr: [u8; 32] = randomness.as_slice().try_into().unwrap();
    let rcm = jubjub::Fr::from_bytes(&rand_arr).unwrap();
    let note = sapling_crypto::Note::from_parts(
        recipient,
        sapling_crypto::value::NoteValue::from_raw(value),
        sapling_crypto::Rseed::BeforeZip212(rcm),
    );
    let nk_arr: [u8; 32] = nk.as_slice().try_into().unwrap();
    let nk_point = jubjub::SubgroupPoint::from_bytes(&nk_arr).unwrap();
    note.nf(&sapling_crypto::NullifierDerivingKey(nk_point), position).0.to_vec()
}

/// Relies on `ChaCha20Poly1305::encrypt` with a fixed all-zero nonce (each
/// key is a one-time shared secret): deterministic in the key and the
/// plaintext, and the output is the plaintext's length plus a 16-byte tag.
#[verifier::external_body]
pub(crate) fn aead_encrypt(key: &Vec<u8>, plaintext: &Vec<u8>) -> (r: Vec<u8>)
    requires
        key@.len() == 32,
        plaintext@.len() <= 0xffffffff,
    ensures
        r@ == aead_ciphertext(key@, plaintext@),
        r@.len() == plaintext@.len() + 16,
{
    let cipher = chacha20poly1305::ChaCha20Poly1305::new(
        chacha20poly1305::Key::from_slice(key.as_slice()),
    );
    cipher.encrypt(&chacha20poly1305::Nonce::default(), plaintext.as_slice()).unwrap()
}

/// Relies on `ChaCha20Poly1305::decrypt` with the same fixed nonce: it
/// succeeds exactly on the ciphertexts that `encrypt` produces under the same
/// key, and then returns the unique plaintext that encrypts to them (the
/// stream cipher is invertible and the tag is recomputed deterministically).
#[verifier::external_body]
pub(crate) fn aead_decrypt(key: &Vec<u8>, ciphertext: &Vec<u8>) -> (r: Option<Vec<u8>>)
    requires
        key@.len() == 32,
    ensures
        r matches Some(p) ==> p@.len() + 16 == ciphertext@.len() && aead_ciphertext(key@, p@)
            == ciphertext@,
        r matches Some(p) ==> forall|q: Seq<u8>|
            aead_ciphertext(key@, q) == ciphertext@ ==> q == p@,
        (exists|q: Seq<u8>|
            q.len() + 16 == ciphertext@.len() && aead_ciphertext(key@, q) == ciphertext@)
            ==> r is Some,
{
    let cipher = chacha20poly1305::ChaCha20Poly1305::new(
        chacha20poly1305::Key::from_slice(key.as_slice()),
    );
    cipher.decrypt(&chacha20poly1305::Nonce::default(), ciphertext.as_slice()).ok()
}

} // verus!
