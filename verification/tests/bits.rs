use ironfish::bits::{asset_info_preimage, slice_into_boolean_vec_le, value_into_boolean_vec_le};
use ironfish::errors::IronfishError;
use ironfish::util::str_to_array;

/// The little-endian bit expansion of bytes, computed independently here.
fn expected_bits(bytes: &[u8]) -> Vec<Option<bool>> {
    bytes
        .iter()
        .flat_map(|&b| (0..8).map(move |i| Some((b >> i) & 1 == 1)))
        .collect()
}

#[test]
fn test_bit_decomposition_known_value() {
    let bytes = vec![0b1010_0110u8, 0xff, 0x00, 0x01];
    let bits = slice_into_boolean_vec_le(Some(&bytes), 4).expect("lengths match");
    assert_eq!(bits.len(), 32);
    assert_eq!(bits, expected_bits(&bytes));
    // Bit 0 of byte 0 comes first.
    assert_eq!(bits[0], Some(false));
    assert_eq!(bits[1], Some(true));
    assert_eq!(bits[2], Some(true));
    assert_eq!(bits[7], Some(true));
    assert_eq!(bits[8], Some(true));
    assert_eq!(bits[16], Some(false));
}

#[test]
fn test_bit_decomposition_absent_witness() {
    let bits = slice_into_boolean_vec_le(None, 4).expect("absent witness always decomposes");
    assert_eq!(bits.len(), 32);
    assert!(bits.iter().all(|b| b.is_none()));
}

#[test]
fn test_bit_decomposition_length_mismatch() {
    let bytes = vec![1u8, 2, 3];
    let result = slice_into_boolean_vec_le(Some(&bytes), 4);
    assert!(matches!(result, Err(IronfishError::Decoding)));
}

#[test]
fn test_value_bits_little_endian() {
    let bits = value_into_boolean_vec_le(Some(0x0102_0304_0506_0708));
    assert_eq!(bits.len(), 64);
    assert_eq!(bits, expected_bits(&0x0102_0304_0506_0708u64.to_le_bytes()));

    let free = value_into_boolean_vec_le(None);
    assert_eq!(free.len(), 64);
    assert!(free.iter().all(|b| b.is_none()));
}

#[test]
fn test_asset_preimage_bits_match_byte_layout() {
    // The circuit preimage after the owner part must be bit-identical to the
    // byte preimage the deriver hashes after the owner part.
    let owner_bits = vec![Some(true), Some(false), None];
    let name = str_to_array("name");
    let chain = str_to_array("chain");
    let network = str_to_array("network");
    let token_identifier = str_to_array("tok");
    let nonce = 5u8;

    let bits = asset_info_preimage(&owner_bits, &name, &chain, &network, &token_identifier, nonce);
    assert_eq!(bits.len(), owner_bits.len() + 8 * (4 * 32 + 1));
    assert_eq!(&bits[..owner_bits.len()], owner_bits.as_slice());

    let mut tail_bytes = Vec::new();
    tail_bytes.extend_from_slice(&name);
    tail_bytes.extend_from_slice(&chain);
    tail_bytes.extend_from_slice(&network);
    tail_bytes.extend_from_slice(&token_identifier);
    tail_bytes.push(nonce);
    assert_eq!(&bits[owner_bits.len()..], expected_bits(&tail_bytes));
}
