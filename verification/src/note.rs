//! The value-bearing record of the protocol: owner, value, randomness and
//! memo, with plaintext serialization, authenticated encryption, commitment
//! computation and nullifier derivation.

use vstd::prelude::*;
use vstd::string::StringSliceAdditionalSpecFns;
use crate::address::PublicAddress;
use crate::crypto::{
    address_parses, aead_ciphertext, aead_decrypt, aead_encrypt, fresh_randomness,
    note_commitment_bytes, note_commitment_of, nullifier_bytes, nullifier_of, point_canonical,
    point_is_valid, scalar_canonical, scalar_is_canonical,
};
use crate::errors::IronfishError;
use crate::util::{
    canonical32, extend_from, read_u64_le, str_to_array, sub_vec, u64_from_le_bytes, u64_le_bytes,
    vec_eq, write_u64_le,
};

verus! {

/// The number of bytes in the encrypted payload of a note: randomness (32),
/// value (8, little-endian) and memo (32). The owner is not part of it.
pub const ENCRYPTED_NOTE_SIZE: usize = 72;

/// The number of bytes of the authentication tag appended to the payload.
pub const MAC_SIZE: usize = 16;

/// The number of bytes of a plaintext note: owner (43), value (8,
/// little-endian), randomness (32) and memo (32).
pub const PLAINTEXT_NOTE_SIZE: usize = 115;

/// Memo field on a note: exactly 32 free-form bytes. Used to carry
/// transaction identifiers or other information about the transaction.
#[derive(Debug)]
pub struct Memo(Vec<u8>);

impl View for Memo {
    type V = Seq<u8>;

    closed spec fn view(&self) -> Seq<u8> {
        self.0@
    }
}

impl Memo {
    #[verifier::type_invariant]
    spec fn type_inv(self) -> bool {
        self.0@.len() == 32
    }

    /// Canonicalize a free-form string into a memo: its UTF-8 bytes,
    /// truncated to 32 and zero-padded.
    pub fn from(string: &str) -> (r: Memo)
        ensures
            r@ == canonical32(string.spec_bytes()),
    {
        Memo(str_to_array(string))
    }

    /// A memo holding exactly the given 32 bytes.
    pub fn from_bytes(bytes: Vec<u8>) -> (r: Result<Memo, IronfishError>)
        ensures
            r matches Ok(m) ==> m@ == bytes@,
            r is Ok <==> bytes@.len() == 32,
            r matches Err(e) ==> e == IronfishError::Decoding,
    {
        if bytes.len() == 32 {
            Ok(Memo(bytes))
        } else {
            Err(IronfishError::Decoding)
        }
    }

    /// The 32 raw bytes of the memo.
    pub fn bytes(&self) -> (r: &Vec<u8>)
        ensures
            r@ == self@,
            self@.len() == 32,
    {
        proof {
            use_type_invariant(self);
        }
        &self.0
    }

    /// An owned copy of this memo.
    pub fn duplicate(&self) -> (r: Memo)
        ensures
            r@ == self@,
    {
        proof {
            use_type_invariant(self);
        }
        let bytes = sub_vec(&self.0, 0, 32);
        proof {
            assert(bytes@ =~= self.0@);
        }
        Memo(bytes)
    }
}

impl Default for Memo {
    /// The all-zero memo.
    fn default() -> (r: Memo)
        ensures
            r@ == canonical32(Seq::<u8>::empty()),
    {
        let mut bytes: Vec<u8> = Vec::new();
        let mut i: usize = 0;
        while i < 32
            invariant
                i <= 32,
                bytes@.len() == i,
                forall|j: int| 0 <= j < i ==> bytes@[j] == 0u8,
            decreases 32 - i,
        {
            bytes.push(0);
            i += 1;
        }
        proof {
            assert(bytes@ =~= canonical32(Seq::<u8>::empty()));
        }
        Memo(bytes)
    }
}

/// A note (think bank note) represents a value in the owner's account. When
/// spending, proof that the note exists in the accumulator is provided, along
/// with a nullifier that is made public so the owner cannot spend the note
/// again. The randomness is drawn fresh at construction and never derived;
/// a re-serialized note carries the original randomness.
#[derive(Debug)]
pub struct Note {
    owner: PublicAddress,
    value: u64,
    randomness: Vec<u8>,
    memo: Memo,
}

/// The mathematical content of a note: the owner's address encoding, the
/// value, the canonical randomness encoding and the memo bytes.
pub ghost struct NoteView {
    pub owner: Seq<u8>,
    pub value: u64,
    pub randomness: Seq<u8>,
    pub memo: Seq<u8>,
}

impl View for Note {
    type V = NoteView;

    closed spec fn view(&self) -> NoteView {
        NoteView {
            owner: self.owner@,
            value: self.value,
            randomness: self.randomness@,
            memo: self.memo@,
        }
    }
}

/// The exact 115-byte plaintext layout of a note: owner (43) followed by the
/// value (8, little-endian), the randomness (32) and the memo (32).
pub open spec fn plaintext_bytes(n: NoteView) -> Seq<u8> {
    n.owner + u64_le_bytes(n.value) + n.randomness + n.memo
}

/// Whether a byte stream begins with a parseable plaintext note: long enough,
/// with a well-formed owner address and a canonical randomness encoding.
pub open spec fn plaintext_parses(bytes: Seq<u8>) -> bool {
    &&& bytes.len() >= 115
    &&& address_parses(bytes.subrange(0, 43))
    &&& scalar_canonical(bytes.subrange(51, 83))
}

/// The note fields a parseable plaintext stream holds.
pub open spec fn plaintext_fields(bytes: Seq<u8>) -> NoteView {
    NoteView {
        owner: bytes.subrange(0, 43),
        value: u64_from_le_bytes(bytes.subrange(43, 51)),
        randomness: bytes.subrange(51, 83),
        memo: bytes.subrange(83, 115),
    }
}

impl Note {
    #[verifier::type_invariant]
    spec fn type_inv(self) -> bool {
        self.randomness@.len() == 32 && scalar_canonical(self.randomness@)
    }

    /// Construct a new note with fresh randomness. Always succeeds.
    pub fn new(owner: PublicAddress, value: u64, memo: Memo) -> (r: Note)
        ensures
            r@.owner == owner@,
            r@.value == value,
            r@.memo == memo@,
    {
        let randomness = fresh_randomness();
        Note { owner, value, randomness, memo }
    }

    /// Value this note represents.
    pub fn value(&self) -> (r: u64)
        ensures
            r == self@.value,
    {
        self.value
    }

    /// The memo carried by this note.
    pub fn memo(&self) -> (r: &Memo)
        ensures
            r@ == self@.memo,
    {
        &self.memo
    }

    /// The owner of this note.
    pub fn owner(&self) -> (r: &PublicAddress)
        ensures
            r@ == self@.owner,
    {
        &self.owner
    }

    /// The canonical encoding of this note's randomness. Every note this
    /// type can hold carries a canonical 32-byte scalar encoding, and the
    /// ensures says so.
    pub fn randomness(&self) -> (r: &Vec<u8>)
        ensures
            r@ == self@.randomness,
            self@.randomness.len() == 32,
            scalar_canonical(self@.randomness),
    {
        proof {
            use_type_invariant(self);
        }
        &self.randomness
    }

    /// Serialize the note in plaintext, exactly 115 bytes. This is a device
    /// for in-process transfer, never for public storage.
    pub fn write(&self) -> (r: Vec<u8>)
        ensures
            r@ == plaintext_bytes(self@),
            r@.len() == 115,
    {
        proof {
            use_type_invariant(self);
        }
        let mut out: Vec<u8> = Vec::new();
        let owner_bytes = self.owner.public_address();
        extend_from(&mut out, owner_bytes, 0, 43);
        write_u64_le(&mut out, self.value);
        extend_from(&mut out, &self.randomness, 0, 32);
        let memo_bytes = self.memo.bytes();
        extend_from(&mut out, memo_bytes, 0, 32);
        proof {
            assert(self@.owner.subrange(0, 43) =~= self@.owner);
            assert(self@.randomness.subrange(0, 32) =~= self@.randomness);
            assert(self@.memo.subrange(0, 32) =~= self@.memo);
            assert(out@ =~= plaintext_bytes(self@));
        }
        out
    }

    /// Read a note from a plaintext byte stream, as written by
    /// [`Self::write`]; bytes past the 115th are ignored. Fails with a
    /// decoding error exactly when the stream is too short, the owner
    /// address is malformed, or the randomness is not a canonical scalar
    /// encoding.
    pub fn read(bytes: &Vec<u8>) -> (r: Result<Note, IronfishError>)
        ensures
            r is Ok <==> plaintext_parses(bytes@),
            r matches Ok(n) ==> n@ == plaintext_fields(bytes@),
            r matches Err(e) ==> e == IronfishError::Decoding,
    {
        if bytes.len() < PLAINTEXT_NOTE_SIZE {
            return Err(IronfishError::Decoding);
        }
        let owner_bytes = sub_vec(bytes, 0, 43);
        let owner = match PublicAddress::from_vec(owner_bytes) {
            Ok(a) => a,
            Err(e) => {
                return Err(e);
            },
        };
        let value = read_u64_le(bytes, 43);
        let randomness = sub_vec(bytes, 51, 32);
        if !scalar_is_canonical(&randomness) {
            return Err(IronfishError::Decoding);
        }
        let memo_vec = sub_vec(bytes, 83, 32);
        let memo = match Memo::from_bytes(memo_vec) {
            Ok(m) => m,
            Err(e) => {
                return Err(e);
            },
        };
        Ok(Note { owner, value, randomness, memo })
    }
}

/// The exact 72-byte encrypted payload of a note: randomness (32) followed by
/// the value (8, little-endian) and the memo (32). The owner is recovered
/// from the decrypting party's own key material, never from the payload.
pub open spec fn payload_bytes(n: NoteView) -> Seq<u8> {
    n.randomness + u64_le_bytes(n.value) + n.memo
}

/// Whether 72 decrypted bytes parse as a note payload: the randomness must be
/// a canonical scalar encoding.
pub open spec fn payload_parses(p: Seq<u8>) -> bool {
    p.len() == 72 && scalar_canonical(p.subrange(0, 32))
}

/// The note a parseable payload holds, once the owner is supplied.
pub open spec fn payload_fields(p: Seq<u8>, owner: Seq<u8>) -> NoteView {
    NoteView {
        owner: owner,
        value: u64_from_le_bytes(p.subrange(32, 40)),
        randomness: p.subrange(0, 32),
        memo: p.subrange(40, 72),
    }
}

/// The key under which nullifiers of an owner's notes are derived: the
/// canonical 32-byte encoding of a prime-order curve point, supplied by the
/// spender's key material.
#[derive(Debug)]
pub struct NullifierDerivingKey {
    bytes: Vec<u8>,
}

impl View for NullifierDerivingKey {
    type V = Seq<u8>;

    closed spec fn view(&self) -> Seq<u8> {
        self.bytes@
    }
}

impl NullifierDerivingKey {
    #[verifier::type_invariant]
    spec fn type_inv(self) -> bool {
        self.bytes@.len() == 32 && point_canonical(self.bytes@)
    }

    /// Parse a nullifier deriving key from its 32-byte encoding. Fails with
    /// a decoding error exactly when the bytes are not a canonical point
    /// encoding.
    pub fn new(key_bytes: &[u8; 32]) -> (r: Result<NullifierDerivingKey, IronfishError>)
        ensures
            r matches Ok(k) ==> k@ == key_bytes@,
            r is Ok <==> point_canonical(key_bytes@),
            r matches Err(e) ==> e == IronfishError::Decoding,
    {
        let bytes = vstd::slice::slice_to_vec(key_bytes.as_slice());
        if point_is_valid(&bytes) {
            Ok(NullifierDerivingKey { bytes })
        } else {
            Err(IronfishError::Decoding)
        }
    }
}

impl Note {
    /// Encrypt the note for public storage: the fixed 72-byte payload,
    /// authenticated-encrypted under the given shared secret, giving the
    /// payload's ciphertext with the 16-byte tag appended. Only someone who
    /// can derive the shared secret can read the contents.
    pub fn encrypt(&self, shared_secret: &[u8; 32]) -> (r: Vec<u8>)
        ensures
            r@ == aead_ciphertext(shared_secret@, payload_bytes(self@)),
            r@.len() == 88,
    {
        proof {
            use_type_invariant(self);
        }
        let mut payload: Vec<u8> = Vec::new();
        extend_from(&mut payload, &self.randomness, 0, 32);
        write_u64_le(&mut payload, self.value);
        let memo_bytes = self.memo.bytes();
        extend_from(&mut payload, memo_bytes, 0, 32);
        proof {
            assert(self@.randomness.subrange(0, 32) =~= self@.randomness);
            assert(self@.memo.subrange(0, 32) =~= self@.memo);
            assert(payload@ =~= payload_bytes(self@));
        }
        let key = vstd::slice::slice_to_vec(shared_secret.as_slice());
        aead_encrypt(&key, &payload)
    }

    /// Decrypt and parse the 72-byte payload of an encrypted note.
    fn decrypt_note_parts(shared_secret: &[u8; 32], encrypted_bytes: &[u8; 88]) -> (r: Result<
        (Vec<u8>, u64, Memo),
        IronfishError,
    >)
        ensures
            forall|p: Seq<u8>|
                #![auto]
                p.len() == 72 && aead_ciphertext(shared_secret@, p) == encrypted_bytes@ ==> (
                if payload_parses(p) {
                    r matches Ok(parts) && parts.0@ == p.subrange(0, 32) && parts.1
                        == u64_from_le_bytes(p.subrange(32, 40)) && parts.2@ == p.subrange(40, 72)
                } else {
                    r matches Err(e) && e == IronfishError::Decoding
                }),
            (forall|p: Seq<u8>|
                !(p.len() == 72 && aead_ciphertext(shared_secret@, p) == encrypted_bytes@)) ==> (
            r matches Err(e) && e == IronfishError::Authentication),
            r matches Ok(parts) ==> parts.0@.len() == 32 && scalar_canonical(parts.0@)
                && parts.2@.len() == 32,
    {
        let key = vstd::slice::slice_to_vec(shared_secret.as_slice());
        let ciphertext = vstd::slice::slice_to_vec(encrypted_bytes.as_slice());
        let plaintext = match aead_decrypt(&key, &ciphertext) {
            Some(p) => p,
            None => {
                return Err(IronfishError::Authentication);
            },
        };
        let randomness = sub_vec(&plaintext, 0, 32);
        if !scalar_is_canonical(&randomness) {
            return Err(IronfishError::Decoding);
        }
        let value = read_u64_le(&plaintext, 32);
        let memo_vec = sub_vec(&plaintext, 40, 32);
        let memo = match Memo::from_bytes(memo_vec) {
            Ok(m) => m,
            Err(e) => {
                return Err(e);
            },
        };
        Ok((randomness, value, memo))
    }

    /// Create a note from its encrypted representation, given the owner's
    /// address as recovered from the owner's own view key. Fails with an
    /// authentication error if the tag does not verify, and with a decoding
    /// error if the decrypted payload does not parse.
    pub fn from_owner_encrypted(
        owner: &PublicAddress,
        shared_secret: &[u8; 32],
        encrypted_bytes: &[u8; 88],
    ) -> (r: Result<Note, IronfishError>)
        ensures
            forall|p: Seq<u8>|
                #![auto]
                p.len() == 72 && aead_ciphertext(shared_secret@, p) == encrypted_bytes@ ==> (
                if payload_parses(p) {
                    r matches Ok(n) && n@ == payload_fields(p, owner@)
                } else {
                    r matches Err(e) && e == IronfishError::Decoding
                }),
            (forall|p: Seq<u8>|
                !(p.len() == 72 && aead_ciphertext(shared_secret@, p) == encrypted_bytes@)) ==> (
            r matches Err(e) && e == IronfishError::Authentication),
    {
        let (randomness, value, memo) = match Note::decrypt_note_parts(
            shared_secret,
            encrypted_bytes,
        ) {
            Ok(parts) => parts,
            Err(e) => {
                return Err(e);
            },
        };
        Ok(Note { owner: owner.duplicate(), value, randomness, memo })
    }

    /// Create a note from its encrypted representation, given the owner's
    /// address as the spender recorded it when constructing the output.
    /// Fails exactly as [`Self::from_owner_encrypted`] does.
    pub fn from_spender_encrypted(
        owner: &PublicAddress,
        shared_secret: &[u8; 32],
        encrypted_bytes: &[u8; 88],
    ) -> (r: Result<Note, IronfishError>)
        ensures
            forall|p: Seq<u8>|
                #![auto]
                p.len() == 72 && aead_ciphertext(shared_secret@, p) == encrypted_bytes@ ==> (
                if payload_parses(p) {
                    r matches Ok(n) && n@ == payload_fields(p, owner@)
                } else {
                    r matches Err(e) && e == IronfishError::Decoding
                }),
            (forall|p: Seq<u8>|
                !(p.len() == 72 && aead_ciphertext(shared_secret@, p) == encrypted_bytes@)) ==> (
            r matches Err(e) && e == IronfishError::Authentication),
    {
        Note::from_owner_encrypted(owner, shared_secret, encrypted_bytes)
    }

    /// The commitment hash of this note: the canonical 32-byte encoding of a
    /// binding, hiding commitment over the owner, value and randomness. This
    /// is what the accumulator stores as a leaf.
    pub fn commitment(&self) -> (r: Vec<u8>)
        ensures
            r@ == note_commitment_of(self@.owner, self@.value, self@.randomness),
            r@.len() == 32,
    {
        proof {
            use_type_invariant(self);
        }
        let owner_bytes = self.owner.public_address();
        note_commitment_bytes(owner_bytes, self.value, &self.randomness)
    }

    /// Verify that an externally supplied commitment matches this note's
    /// recomputed commitment; fails with an invalid-commitment error on any
    /// other value.
    pub fn verify_commitment(&self, commitment: &Vec<u8>) -> (r: Result<(), IronfishError>)
        ensures
            r is Ok <==> commitment@ == note_commitment_of(
                self@.owner,
                self@.value,
                self@.randomness,
            ),
            r matches Err(e) ==> e == IronfishError::InvalidCommitment,
    {
        let mine = self.commitment();
        if vec_eq(&mine, commitment) {
            Ok(())
        } else {
            Err(IronfishError::InvalidCommitment)
        }
    }

    /// Compute the nullifier of this note at the given accumulator position,
    /// under the spender's nullifier deriving key. The nullifier is published
    /// at spend time; the same note, key and position always yield the same
    /// nullifier.
    pub fn nullifier(&self, nullifier_key: &NullifierDerivingKey, position: u64) -> (r: Vec<u8>)
        ensures
            r@ == nullifier_of(
                self@.owner,
                self@.value,
                self@.randomness,
                nullifier_key@,
                position,
            ),
            r@.len() == 32,
    {
        proof {
            use_type_invariant(self);
            use_type_invariant(nullifier_key);
        }
        let owner_bytes = self.owner.public_address();
        nullifier_bytes(owner_bytes, self.value, &self.randomness, &nullifier_key.bytes, position)
    }
}

/// Round trip of the encrypted payload layout: a note's payload parses, and
/// the parse reproduces the value, randomness and memo exactly, with the
/// owner supplied externally.
pub proof fn lemma_payload_round_trip(n: NoteView)
    requires
        n.randomness.len() == 32,
        scalar_canonical(n.randomness),
        n.memo.len() == 32,
    ensures
        payload_bytes(n).len() == 72,
        payload_parses(payload_bytes(n)),
        payload_fields(payload_bytes(n), n.owner) == n,
{
    let p = payload_bytes(n);
    assert(p.subrange(0, 32) =~= n.randomness);
    assert(p.subrange(32, 40) =~= u64_le_bytes(n.value));
    assert(p.subrange(40, 72) =~= n.memo);
    crate::util::lemma_u64_le_round_trip(n.value);
}

/// Round trip of plaintext serialization, end to end: any result that meets
/// [`Note::read`]'s contract on the bytes [`Note::write`] produces for a
/// note reproduces that note's owner, value, randomness and memo exactly.
pub proof fn lemma_note_round_trip(n: NoteView, r: Result<Note, IronfishError>)
    requires
        n.owner.len() == 43,
        address_parses(n.owner),
        n.randomness.len() == 32,
        scalar_canonical(n.randomness),
        n.memo.len() == 32,
        r is Ok <==> plaintext_parses(plaintext_bytes(n)),
        r matches Ok(m) ==> m@ == plaintext_fields(plaintext_bytes(n)),
    ensures
        r matches Ok(m) && m@ == n,
{
    lemma_plaintext_round_trip(n);
}

/// Round trip of encryption, end to end: any result that meets
/// [`Note::from_owner_encrypted`]'s contract on the ciphertext
/// [`Note::encrypt`] produces for a note under the same shared secret
/// reproduces that note's value, randomness and memo exactly, with the owner
/// supplied by the decrypting party.
pub proof fn lemma_encryption_round_trip(
    n: NoteView,
    owner: Seq<u8>,
    shared_secret: Seq<u8>,
    r: Result<Note, IronfishError>,
)
    requires
        n.randomness.len() == 32,
        scalar_canonical(n.randomness),
        n.memo.len() == 32,
        forall|p: Seq<u8>|
            #![auto]
            p.len() == 72 && aead_ciphertext(shared_secret, p) == aead_ciphertext(
                shared_secret,
                payload_bytes(n),
            ) ==> (if payload_parses(p) {
                r matches Ok(m) && m@ == payload_fields(p, owner)
            } else {
                r matches Err(e) && e == IronfishError::Decoding
            }),
    ensures
        r matches Ok(m) && m@.value == n.value && m@.randomness == n.randomness && m@.memo
            == n.memo && m@.owner == owner,
{
    lemma_payload_round_trip(n);
}

/// Commitment determinism: the commitment is a pure function of the owner,
/// the value and the randomness, so two notes that agree on those fields
/// commit to the same value, whatever their memos.
pub proof fn lemma_commitment_deterministic(a: NoteView, b: NoteView)
    requires
        a.owner == b.owner,
        a.value == b.value,
        a.randomness == b.randomness,
    ensures
        note_commitment_of(a.owner, a.value, a.randomness) == note_commitment_of(
            b.owner,
            b.value,
            b.randomness,
        ),
{
}

/// Nullifier determinism: the same note contents, key and position always
/// yield the same nullifier.
pub proof fn lemma_nullifier_deterministic(a: NoteView, b: NoteView, nk: Seq<u8>, position: u64)
    requires
        a.owner == b.owner,
        a.value == b.value,
        a.randomness == b.randomness,
    ensures
        nullifier_of(a.owner, a.value, a.randomness, nk, position) == nullifier_of(
            b.owner,
            b.value,
            b.randomness,
            nk,
            position,
        ),
{
}

/// Round trip of the plaintext layout: a serialized note parses, and the
/// parse reproduces the owner, value, randomness and memo exactly.
pub proof fn lemma_plaintext_round_trip(n: NoteView)
    requires
        n.owner.len() == 43,
        address_parses(n.owner),
        n.randomness.len() == 32,
        scalar_canonical(n.randomness),
        n.memo.len() == 32,
    ensures
        plaintext_parses(plaintext_bytes(n)),
        plaintext_fields(plaintext_bytes(n)) == n,
{
    let b = plaintext_bytes(n);
    assert(b.subrange(0, 43) =~= n.owner);
    assert(b.subrange(43, 51) =~= u64_le_bytes(n.value));
    assert(b.subrange(51, 83) =~= n.randomness);
    assert(b.subrange(83, 115) =~= n.memo);
    crate::util::lemma_u64_le_round_trip(n.value);
}

} // verus!
