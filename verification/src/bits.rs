//! Little-endian bit decomposition of byte arrays, as a proving circuit
//! witnesses it: bit 0 of byte 0 first. A witness may be absent (a circuit
//! built only to verify structure), in which case every bit is a free
//! variable. The bit ordering here and the byte ordering of
//! [`crate::asset::asset_preimage`] must agree exactly; the coupling lemma at
//! the bottom states that they do.

use vstd::prelude::*;
use crate::asset::asset_preimage;
use crate::errors::IronfishError;
use crate::util::{u64_le_bytes, write_u64_le};

verus! {

/// Bit `i` (0 = least significant) of a byte.
pub open spec fn byte_bit(b: u8, i: int) -> bool {
    (b >> (i as u8)) & 1 == 1
}

/// The 8 bits of one byte, least significant first.
pub open spec fn bits_of_byte(b: u8) -> Seq<bool> {
    Seq::new(8, |i: int| byte_bit(b, i))
}

/// The little-endian bit expansion of a byte sequence: 8 bits per byte,
/// least significant bit of each byte first, bytes in order.
pub open spec fn bits_of_bytes(bytes: Seq<u8>) -> Seq<bool>
    decreases bytes.len(),
{
    if bytes.len() == 0 {
        Seq::<bool>::empty()
    } else {
        bits_of_byte(bytes[0]) + bits_of_bytes(bytes.skip(1))
    }
}

/// The bit expansion as present witnesses.
pub open spec fn known_bits(bytes: Seq<u8>) -> Seq<Option<bool>> {
    bits_of_bytes(bytes).map_values(|b: bool| Some(b))
}

/// `n` absent witnesses: every bit a free variable.
pub open spec fn unknown_bits(n: nat) -> Seq<Option<bool>> {
    Seq::new(n, |i: int| None::<bool>)
}

/// A byte sequence expands to 8 bits per byte.
pub proof fn lemma_bits_of_bytes_len(bytes: Seq<u8>)
    ensures
        bits_of_bytes(bytes).len() == 8 * bytes.len(),
    decreases bytes.len(),
{
    if bytes.len() > 0 {
        lemma_bits_of_bytes_len(bytes.skip(1));
    }
}

/// Bit `k` of the expansion is bit `k % 8` of byte `k / 8`.
pub proof fn lemma_bits_of_bytes_index(bytes: Seq<u8>, k: int)
    requires
        0 <= k < 8 * bytes.len(),
    ensures
        bits_of_bytes(bytes)[k] == byte_bit(bytes[k / 8], k % 8),
    decreases bytes.len(),
{
    lemma_bits_of_bytes_len(bytes);
    if k < 8 {
        assert(bits_of_bytes(bytes)[k] == bits_of_byte(bytes[0])[k]);
    } else {
        lemma_bits_of_bytes_len(bytes.skip(1));
        lemma_bits_of_bytes_index(bytes.skip(1), k - 8);
        assert((k - 8) / 8 == k / 8 - 1);
        assert((k - 8) % 8 == k % 8);
        assert(bytes.skip(1)[(k - 8) / 8] == bytes[k / 8]);
    }
}

/// Bit expansion distributes over concatenation: decomposing a concatenation
/// of byte strings yields the concatenation of their decompositions.
pub proof fn lemma_bits_of_bytes_concat(a: Seq<u8>, b: Seq<u8>)
    ensures
        bits_of_bytes(a + b) == bits_of_bytes(a) + bits_of_bytes(b),
    decreases a.len(),
{
    if a.len() == 0 {
        assert(a + b =~= b);
        assert(bits_of_bytes(a) + bits_of_bytes(b) =~= bits_of_bytes(b));
    } else {
        assert((a + b).skip(1) =~= a.skip(1) + b);
        lemma_bits_of_bytes_concat(a.skip(1), b);
        assert((a + b)[0] == a[0]);
        assert(bits_of_bytes(a + b) =~= bits_of_bytes(a) + bits_of_bytes(b));
    }
}

/// Bit `k` of a value's little-endian byte decomposition is bit `k` of the
/// value itself: the in-circuit decomposition of the 8 value bytes and the
/// 64-bit value agree bit for bit.
pub proof fn lemma_value_bits(v: u64, k: int)
    requires
        0 <= k < 64,
    ensures
        bits_of_bytes(u64_le_bytes(v))[k] == ((v >> (k as u64)) & 1 == 1),
{
    lemma_bits_of_bytes_index(u64_le_bytes(v), k);
    let jj = (k / 8) as u64;
    let ii = (k % 8) as u64;
    assert(k as u64 == 8 * jj + ii);
    assert((((((v >> (8 * jj)) & 0xff) as u8) >> (ii as u8)) & 1 == 1) == ((v >> (8 * jj + ii))
        & 1 == 1)) by (bit_vector)
        requires
            jj < 8 && ii < 8,
    ;
}

/// The witness form of the concatenation law.
pub proof fn lemma_known_bits_concat(a: Seq<u8>, b: Seq<u8>)
    ensures
        known_bits(a + b) == known_bits(a) + known_bits(b),
{
    lemma_bits_of_bytes_concat(a, b);
    assert(known_bits(a + b) =~= known_bits(a) + known_bits(b));
}

/// The 8 bit witnesses of one byte, least significant first.
fn byte_to_bits_le(b: u8) -> (r: Vec<Option<bool>>)
    ensures
        r@.len() == 8,
        forall|k: int| 0 <= k < 8 ==> r@[k] == Some(byte_bit(b, k)),
{
    let mut r: Vec<Option<bool>> = Vec::new();
    let mut j: u8 = 0;
    while j < 8
        invariant
            j <= 8,
            r@.len() == j,
            forall|k: int| 0 <= k < j ==> r@[k] == Some(byte_bit(b, k)),
        decreases 8 - j,
    {
        r.push(Some(((b >> j) & 1) == 1));
        j += 1;
    }
    r
}

/// Decompose an optional byte slice of expected length `byte_length` into
/// `8 * byte_length` ordered boolean witnesses, little-endian within each
/// byte. An absent input yields that many free bits. Fails with a decoding
/// error exactly when a present input does not have the expected length —
/// an internal consistency check that signals a defect in the caller, not
/// bad external input.
pub fn slice_into_boolean_vec_le(value: Option<&Vec<u8>>, byte_length: u32) -> (r: Result<
    Vec<Option<bool>>,
    IronfishError,
>)
    requires
        8 * byte_length <= u32::MAX,
    ensures
        r is Ok <==> (value matches Some(v) ==> v@.len() == byte_length),
        r matches Ok(bits) ==> bits@.len() == 8 * byte_length,
        value matches Some(v) ==> (v@.len() == byte_length ==> (r matches Ok(bits) && bits@
            == known_bits(v@))),
        value is None ==> (r matches Ok(bits) && bits@ == unknown_bits((8 * byte_length) as nat)),
        r matches Err(e) ==> e == IronfishError::Decoding,
{
    let bit_length: u32 = byte_length * 8;
    match value {
        Some(v) => {
            if v.len() != byte_length as usize {
                return Err(IronfishError::Decoding);
            }
            let mut bits: Vec<Option<bool>> = Vec::new();
            let mut bi: usize = 0;
            proof {
                assert(v@.take(0) =~= Seq::<u8>::empty());
            }
            while bi < v.len()
                invariant
                    bi <= v@.len(),
                    v@.len() == byte_length,
                    bits@ == known_bits(v@.take(bi as int)),
                    bits@.len() == 8 * bi,
                decreases v@.len() - bi,
            {
                let mut byte_bits = byte_to_bits_le(v[bi]);
                let ghost prefix = v@.take(bi as int);
                let ghost old_bits = bits@;
                bits.append(&mut byte_bits);
                proof {
                    let next = v@.take(bi as int + 1);
                    assert(next =~= prefix + seq![v@[bi as int]]);
                    lemma_known_bits_concat(prefix, seq![v@[bi as int]]);
                    assert(seq![v@[bi as int]].skip(1) =~= Seq::<u8>::empty());
                    assert(bits_of_bytes(seq![v@[bi as int]]) == bits_of_byte(v@[bi as int])
                        + bits_of_bytes(seq![v@[bi as int]].skip(1)));
                    assert(bits_of_bytes(Seq::<u8>::empty()) =~= Seq::<bool>::empty());
                    assert(bits_of_bytes(seq![v@[bi as int]]) =~= bits_of_byte(v@[bi as int]));
                    assert(known_bits(seq![v@[bi as int]]) =~= bits@.subrange(
                        old_bits.len() as int,
                        bits@.len() as int,
                    ));
                    assert(bits@ =~= known_bits(next));
                    lemma_bits_of_bytes_len(next);
                }
                bi += 1;
            }
            proof {
                assert(v@.take(v@.len() as int) =~= v@);
            }
            Ok(bits)
        },
        None => {
            let mut bits: Vec<Option<bool>> = Vec::new();
            let mut i: u32 = 0;
            while i < bit_length
                invariant
                    i <= bit_length,
                    bits@.len() == i,
                    forall|k: int| 0 <= k < i ==> bits@[k] is None,
                decreases bit_length - i,
            {
                bits.push(None);
                i += 1;
            }
            proof {
                assert(bits@ =~= unknown_bits((8 * byte_length) as nat));
            }
            Ok(bits)
        },
    }
}

/// Append a copy of `src`'s bit witnesses to `out`.
fn append_bits(out: &mut Vec<Option<bool>>, src: &Vec<Option<bool>>)
    ensures
        final(out)@ == old(out)@ + src@,
{
    let n = src.len();
    let mut i: usize = 0;
    while i < n
        invariant
            i <= n,
            n == src@.len(),
            out@.len() == old(out)@.len() + i,
            forall|j: int| 0 <= j < old(out)@.len() ==> out@[j] == old(out)@[j],
            forall|j: int|
                old(out)@.len() <= j < out@.len() ==> #[trigger] out@[j] == src@[j - old(
                    out,
                )@.len()],
        decreases n - i,
    {
        out.push(src[i]);
        i += 1;
    }
    assert(out@ =~= old(out)@ + src@);
}

/// Assemble the ordered bit preimage of an asset identifier as a circuit
/// witnesses it: the owner's circuit-native point representation first, then
/// the name, chain, network and token identifier bits, then the 8 nonce bits.
/// Bit for bit, everything after the owner part matches the byte preimage
/// that [`crate::asset::Asset::new_with_nonce`] hashes.
pub fn asset_info_preimage(
    owner_bits: &Vec<Option<bool>>,
    name: &Vec<u8>,
    chain: &Vec<u8>,
    network: &Vec<u8>,
    token_identifier: &Vec<u8>,
    nonce: u8,
) -> (r: Vec<Option<bool>>)
    requires
        name@.len() == 32,
        chain@.len() == 32,
        network@.len() == 32,
        token_identifier@.len() == 32,
    ensures
        r@ == owner_bits@ + known_bits(name@) + known_bits(chain@) + known_bits(network@)
            + known_bits(token_identifier@) + known_bits(seq![nonce]),
{
    let mut combined: Vec<Option<bool>> = Vec::new();
    append_bits(&mut combined, owner_bits);
    let name_bits = match slice_into_boolean_vec_le(Some(name), 32) {
        Ok(bits) => bits,
        Err(_) => {
            proof {
                assert(false);
            }
            Vec::new()
        },
    };
    append_bits(&mut combined, &name_bits);
    let chain_bits = match slice_into_boolean_vec_le(Some(chain), 32) {
        Ok(bits) => bits,
        Err(_) => {
            proof {
                assert(false);
            }
            Vec::new()
        },
    };
    append_bits(&mut combined, &chain_bits);
    let network_bits = match slice_into_boolean_vec_le(Some(network), 32) {
        Ok(bits) => bits,
        Err(_) => {
            proof {
                assert(false);
            }
            Vec::new()
        },
    };
    append_bits(&mut combined, &network_bits);
    let token_identifier_bits = match slice_into_boolean_vec_le(Some(token_identifier), 32) {
        Ok(bits) => bits,
        Err(_) => {
            proof {
                assert(false);
            }
            Vec::new()
        },
    };
    append_bits(&mut combined, &token_identifier_bits);
    let mut nonce_vec: Vec<u8> = Vec::new();
    nonce_vec.push(nonce);
    let nonce_bits = match slice_into_boolean_vec_le(Some(&nonce_vec), 1) {
        Ok(bits) => bits,
        Err(_) => {
            proof {
                assert(false);
            }
            Vec::new()
        },
    };
    proof {
        assert(nonce_vec@ =~= seq![nonce]);
    }
    append_bits(&mut combined, &nonce_bits);
    combined
}

/// The 64 little-endian bit witnesses of a note value, as a circuit
/// witnesses them before the value is bound into a Pedersen commitment. An
/// absent witness yields 64 free bits.
pub fn value_into_boolean_vec_le(value: Option<u64>) -> (r: Vec<Option<bool>>)
    ensures
        r@.len() == 64,
        value matches Some(v) ==> r@ == known_bits(u64_le_bytes(v)),
        value is None ==> r@ == unknown_bits(64),
{
    match value {
        Some(v) => {
            let mut bytes: Vec<u8> = Vec::new();
            write_u64_le(&mut bytes, v);
            proof {
                assert(bytes@ =~= u64_le_bytes(v));
            }
            match slice_into_boolean_vec_le(Some(&bytes), 8) {
                Ok(bits) => bits,
                Err(_) => {
                    proof {
                        assert(false);
                    }
                    Vec::new()
                },
            }
        },
        None => {
            match slice_into_boolean_vec_le(None, 8) {
                Ok(bits) => bits,
                Err(_) => {
                    proof {
                        assert(false);
                    }
                    Vec::new()
                },
            }
        },
    }
}

/// Cross-layer coupling: the little-endian bit expansion of the deriver's
/// 172-byte preimage is exactly the concatenation of the bit expansions of
/// its fields, in the order the circuit assembles them. Any divergence
/// between the circuit's bit ordering and the deriver's byte layout would
/// break every proof built on the preimage gadget; this pins the two
/// together.
pub proof fn lemma_preimage_bit_coupling(
    owner: Seq<u8>,
    name: Seq<u8>,
    chain: Seq<u8>,
    network: Seq<u8>,
    token_identifier: Seq<u8>,
    nonce: u8,
)
    ensures
        known_bits(asset_preimage(owner, name, chain, network, token_identifier, nonce))
            == known_bits(owner) + known_bits(name) + known_bits(chain) + known_bits(network)
            + known_bits(token_identifier) + known_bits(seq![nonce]),
{
    let p1 = owner + name;
    let p2 = p1 + chain;
    let p3 = p2 + network;
    let p4 = p3 + token_identifier;
    lemma_known_bits_concat(owner, name);
    lemma_known_bits_concat(p1, chain);
    lemma_known_bits_concat(p2, network);
    lemma_known_bits_concat(p3, token_identifier);
    lemma_known_bits_concat(p4, seq![nonce]);
    assert(asset_preimage(owner, name, chain, network, token_identifier, nonce) =~= p4 + seq![
        nonce
    ]);
    assert(known_bits(asset_preimage(owner, name, chain, network, token_identifier, nonce))
        =~= known_bits(owner) + known_bits(name) + known_bits(chain) + known_bits(network)
        + known_bits(token_identifier) + known_bits(seq![nonce]));
}

} // verus!
