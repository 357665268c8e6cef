use group::{Group, GroupEncoding};
use ironfish::address::PublicAddress;
use ironfish::errors::IronfishError;
use ironfish::note::{Memo, Note, NullifierDerivingKey};

const OWNER_BYTES: [u8; 43] = [
    19, 26, 159, 204, 98, 253, 225, 73, 168, 125, 3, 240, 3, 129, 255, 146, 50, 134, 44, 84, 181,
    195, 50, 249, 78, 128, 228, 152, 239, 10, 106, 10, 27, 58, 155, 162, 114, 133, 17, 48, 177,
    29, 72,
];

fn test_address() -> PublicAddress {
    PublicAddress::new(&OWNER_BYTES).expect("can create a public address")
}

/// A second valid address: the same diversifier with a different
/// transmission key (a small multiple of the subgroup generator).
fn other_address() -> PublicAddress {
    let pk_d = jubjub::SubgroupPoint::generator() * jubjub::Fr::from(7u64);
    let mut bytes = [0u8; 43];
    bytes[..11].copy_from_slice(&OWNER_BYTES[..11]);
    bytes[11..].copy_from_slice(&pk_d.to_bytes());
    PublicAddress::new(&bytes).expect("can create a public address")
}

#[test]
fn test_plaintext_serialization() {
    let public_address = test_address();
    let note = Note::new(public_address, 42, Memo::from("serialize me"));
    let serialized = note.write();

    let note2 = Note::read(&serialized).expect("It should deserialize cleanly");
    assert_eq!(
        note2.owner().public_address(),
        note.owner().public_address()
    );
    assert_eq!(note2.value(), 42);
    assert_eq!(note2.randomness(), note.randomness());
    assert_eq!(note2.memo().bytes(), note.memo().bytes());

    let serialized2 = note2.write();
    assert_eq!(serialized, serialized2)
}

#[test]
fn test_note_encryption() {
    let public_address = test_address();
    let shared_secret: [u8; 32] = [7; 32];
    let note = Note::new(public_address, 42, Memo::from(""));
    let encryption_result = note.encrypt(&shared_secret);
    let encrypted: [u8; 88] = encryption_result
        .as_slice()
        .try_into()
        .expect("ciphertext has the fixed size");

    let restored_note = Note::from_owner_encrypted(note.owner(), &shared_secret, &encrypted)
        .expect("Should be able to decrypt bytes");
    assert!(
        restored_note.owner().public_address().as_slice()
            == note.owner().public_address().as_slice()
    );
    assert!(note.value() == restored_note.value());
    assert!(note.randomness() == restored_note.randomness());
    assert!(note.memo().bytes() == restored_note.memo().bytes());

    let spender_decrypted =
        Note::from_spender_encrypted(note.owner(), &shared_secret, &encrypted)
            .expect("Should be able to load from transmission key");
    assert!(
        spender_decrypted.owner().public_address().as_slice()
            == note.owner().public_address().as_slice()
    );
    assert!(note.value() == spender_decrypted.value());
    assert!(note.randomness() == spender_decrypted.randomness());
    assert!(note.memo().bytes() == spender_decrypted.memo().bytes());
}

#[test]
fn construct_memo_from_string() {
    let memo = Memo::from("a memo");
    assert_eq!(&memo.bytes()[..6], b"a memo");
    let string = "a memo".to_string();
    let memo = Memo::from(&*string);
    assert_eq!(&memo.bytes()[..6], b"a memo");
    let memo = Memo::from(string.as_str());
    assert_eq!(&memo.bytes()[..6], b"a memo");
}

#[test]
fn test_note_encryption_tamper_detection() {
    // Flipping any single bit of the ciphertext must fail authentication.
    let note = Note::new(test_address(), 1234, Memo::from("tamper"));
    let shared_secret: [u8; 32] = [3; 32];
    let ciphertext = note.encrypt(&shared_secret);

    for byte_index in 0..88 {
        for bit in 0..8 {
            let mut tampered: [u8; 88] = ciphertext.as_slice().try_into().unwrap();
            tampered[byte_index] ^= 1 << bit;
            let result = Note::from_owner_encrypted(note.owner(), &shared_secret, &tampered);
            assert!(matches!(result, Err(IronfishError::Authentication)));
        }
    }
}

#[test]
fn test_note_decryption_wrong_key_fails() {
    let note = Note::new(test_address(), 5, Memo::from("key"));
    let shared_secret: [u8; 32] = [3; 32];
    let wrong_secret: [u8; 32] = [4; 32];
    let encrypted: [u8; 88] = note.encrypt(&shared_secret).as_slice().try_into().unwrap();
    let result = Note::from_owner_encrypted(note.owner(), &wrong_secret, &encrypted);
    assert!(matches!(result, Err(IronfishError::Authentication)));
}

#[test]
fn test_commitment_determinism() {
    // The commitment is a pure function of owner, value and randomness: a
    // round-tripped note (same fields) commits to the same value, and
    // changing a field changes the commitment.
    let note = Note::new(test_address(), 42, Memo::from("commit"));
    let copy = Note::read(&note.write()).expect("should deserialize");
    assert_eq!(note.commitment(), copy.commitment());

    // A different value changes the commitment.
    let mut plaintext = note.write();
    plaintext[43] ^= 1;
    let altered_value = Note::read(&plaintext).expect("should deserialize");
    assert_ne!(note.commitment(), altered_value.commitment());

    // A different owner changes the commitment.
    let other = Note::read(
        &[
            other_address().public_address().as_slice(),
            &note.write()[43..],
        ]
        .concat(),
    )
    .expect("should deserialize");
    assert_ne!(note.commitment(), other.commitment());

    // A fresh note with the same owner, value and memo has different
    // randomness, hence a different commitment.
    let fresh = Note::new(test_address(), 42, Memo::from("commit"));
    assert_ne!(note.randomness(), fresh.randomness());
    assert_ne!(note.commitment(), fresh.commitment());
}

#[test]
fn test_verify_commitment() {
    let note = Note::new(test_address(), 42, Memo::from("verify"));
    let commitment = note.commitment();
    assert_eq!(commitment.len(), 32);
    assert!(note.verify_commitment(&commitment).is_ok());

    for byte_index in 0..32 {
        let mut other = commitment.clone();
        other[byte_index] ^= 1;
        assert!(matches!(
            note.verify_commitment(&other),
            Err(IronfishError::InvalidCommitment)
        ));
    }
}

#[test]
fn test_nullifier_determinism_and_uniqueness() {
    let nk_point = jubjub::SubgroupPoint::generator() * jubjub::Fr::from(11u64);
    let nk = NullifierDerivingKey::new(&nk_point.to_bytes()).expect("valid point encoding");

    let note = Note::new(test_address(), 42, Memo::from("spend"));
    // The same note, key and position always yield the same nullifier.
    assert_eq!(note.nullifier(&nk, 0), note.nullifier(&nk, 0));
    assert_eq!(note.nullifier(&nk, 7), note.nullifier(&nk, 7));
    // Different positions of the same note yield different nullifiers.
    assert_ne!(note.nullifier(&nk, 0), note.nullifier(&nk, 1));
    // Distinct notes at the same position yield different nullifiers.
    let other = Note::new(test_address(), 42, Memo::from("spend"));
    assert_ne!(note.nullifier(&nk, 0), other.nullifier(&nk, 0));
}

#[test]
fn test_nullifier_key_rejects_invalid_point() {
    // All-0xff bytes are not a canonical point encoding.
    assert!(matches!(
        NullifierDerivingKey::new(&[0xff; 32]),
        Err(IronfishError::Decoding)
    ));
    let nk_point = jubjub::SubgroupPoint::generator() * jubjub::Fr::from(11u64);
    assert!(NullifierDerivingKey::new(&nk_point.to_bytes()).is_ok());
}

#[test]
fn test_note_read_rejects_malformed_streams() {
    let note = Note::new(test_address(), 9, Memo::from("short"));
    let good = note.write();
    assert_eq!(good.len(), 115);

    // Too short.
    let short = good[..114].to_vec();
    assert!(matches!(
        Note::read(&short),
        Err(IronfishError::Decoding)
    ));

    // A non-canonical randomness encoding (all 0xff exceeds the field
    // modulus).
    let mut bad_scalar = good.clone();
    for b in bad_scalar[51..83].iter_mut() {
        *b = 0xff;
    }
    assert!(matches!(
        Note::read(&bad_scalar),
        Err(IronfishError::Decoding)
    ));

    // A malformed owner address.
    let mut bad_owner = good;
    for b in bad_owner[11..43].iter_mut() {
        *b = 0xff;
    }
    assert!(matches!(
        Note::read(&bad_owner),
        Err(IronfishError::Decoding)
    ));
}

#[test]
fn test_memo_canonicalization() {
    // Truncated byte-wise at 32 bytes, zero-padded below.
    let long = "0123456789012345678901234567890123456789";
    let memo = Memo::from(long);
    assert_eq!(memo.bytes().as_slice(), &long.as_bytes()[..32]);

    let memo = Memo::from("ab");
    let mut expected = vec![0u8; 32];
    expected[0] = b'a';
    expected[1] = b'b';
    assert_eq!(memo.bytes(), &expected);

    let empty: Memo = Default::default();
    assert_eq!(empty.bytes(), &vec![0u8; 32]);
}
