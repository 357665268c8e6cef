use vstd::prelude::*;
use vstd::string::StringSliceAdditionalSpecFns;

verus! {

/// The canonical 32-byte form of a free-form byte string: truncated to 32
/// bytes, zero-padded on the right. The truncation policy is byte-wise.
pub open spec fn canonical32(s: Seq<u8>) -> Seq<u8> {
    Seq::new(32, |i: int| if i < s.len() { s[i] } else { 0u8 })
}

/// Canonicalize a free-form string to exactly 32 bytes of UTF-8, truncated
/// byte-wise and zero-padded.
pub fn str_to_array(s: &str) -> (r: Vec<u8>)
    ensures
        r@ == canonical32(s.spec_bytes()),
        r@.len() == 32,
{
    let bytes = s.as_bytes();
    let mut r: Vec<u8> = Vec::new();
    let mut i: usize = 0;
    while i < 32
        invariant
            i <= 32,
            r@.len() == i,
            bytes@ == s.spec_bytes(),
            forall|j: int| 0 <= j < i ==> r@[j] == canonical32(s.spec_bytes())[j],
        decreases 32 - i,
    {
        if i < bytes.len() {
            r.push(bytes[i]);
        } else {
            r.push(0);
        }
        i += 1;
    }
    assert(r@ =~= canonical32(s.spec_bytes()));
    r
}

/// Byte `i` (0 = least significant) of the little-endian encoding of `v`.
pub open spec fn u64_le_byte(v: u64, i: int) -> u8 {
    ((v >> (8 * i) as u64) & 0xff) as u8
}

/// The 8-byte little-endian encoding of `v`.
pub open spec fn u64_le_bytes(v: u64) -> Seq<u8> {
    Seq::new(8, |i: int| u64_le_byte(v, i))
}

/// The value read little-endian from 8 bytes.
pub open spec fn u64_from_le_bytes(b: Seq<u8>) -> u64
    recommends
        b.len() == 8,
{
    ((b[0] as u64) | ((b[1] as u64) << 8u64) | ((b[2] as u64) << 16u64) | ((b[3] as u64) << 24u64)
        | ((b[4] as u64) << 32u64) | ((b[5] as u64) << 40u64) | ((b[6] as u64) << 48u64) | ((
    b[7] as u64) << 56u64)) as u64
}

/// Reading back the little-endian encoding of a value yields that value.
pub proof fn lemma_u64_le_round_trip(v: u64)
    ensures
        u64_from_le_bytes(u64_le_bytes(v)) == v,
{
    let b = u64_le_bytes(v);
    assert(b[0] == (((v >> 0u64) & 0xff) as u8) && b[1] == (((v >> 8u64) & 0xff) as u8) && b[2]
        == (((v >> 16u64) & 0xff) as u8) && b[3] == (((v >> 24u64) & 0xff) as u8) && b[4] == (((v
        >> 32u64) & 0xff) as u8) && b[5] == (((v >> 40u64) & 0xff) as u8) && b[6] == (((v
        >> 48u64) & 0xff) as u8) && b[7] == (((v >> 56u64) & 0xff) as u8));
    assert(((((((v >> 0u64) & 0xff) as u8) as u64) | (((((v >> 8u64) & 0xff) as u8) as u64)
        << 8u64) | (((((v >> 16u64) & 0xff) as u8) as u64) << 16u64) | (((((v >> 24u64) & 0xff)
        as u8) as u64) << 24u64) | (((((v >> 32u64) & 0xff) as u8) as u64) << 32u64) | (((((v
        >> 40u64) & 0xff) as u8) as u64) << 40u64) | (((((v >> 48u64) & 0xff) as u8) as u64)
        << 48u64) | (((((v >> 56u64) & 0xff) as u8) as u64) << 56u64)) as u64) == v)
        by (bit_vector);
}

/// Append the 8-byte little-endian encoding of `v` to `out`.
pub fn write_u64_le(out: &mut Vec<u8>, v: u64)
    ensures
        final(out)@ == old(out)@ + u64_le_bytes(v),
{
    let mut i: usize = 0;
    while i < 8
        invariant
            i <= 8,
            out@.len() == old(out)@.len() + i,
            forall|j: int| 0 <= j < old(out)@.len() ==> out@[j] == old(out)@[j],
            forall|j: int| 0 <= j < i ==> out@[old(out)@.len() + j] == u64_le_byte(v, j),
        decreases 8 - i,
    {
        let shift: u64 = 8 * (i as u64);
        let byte: u8 = ((v >> shift) & 0xff) as u8;
        assert(byte == u64_le_byte(v, i as int));
        out.push(byte);
        i += 1;
    }
    assert(out@ =~= old(out)@ + u64_le_bytes(v));
}

/// Read a value little-endian from 8 bytes of `b` starting at `offset`.
pub fn read_u64_le(b: &Vec<u8>, offset: usize) -> (r: u64)
    requires
        offset + 8 <= b@.len(),
    ensures
        r == u64_from_le_bytes(b@.subrange(offset as int, offset as int + 8)),
{
    let n = b.len();
    assert(offset + 8 <= n);
    let r: u64 = (b[offset] as u64) | ((b[offset + 1] as u64) << 8u64) | ((b[offset + 2] as u64)
        << 16u64) | ((b[offset + 3] as u64) << 24u64) | ((b[offset + 4] as u64) << 32u64) | ((
    b[offset + 5] as u64) << 40u64) | ((b[offset + 6] as u64) << 48u64) | ((b[offset + 7] as u64)
        << 56u64);
    let ghost s = b@.subrange(offset as int, offset as int + 8);
    assert(b@[offset as int] == s[0] && b@[offset as int + 1] == s[1] && b@[offset as int + 2]
        == s[2] && b@[offset as int + 3] == s[3] && b@[offset as int + 4] == s[4] && b@[offset
        as int + 5] == s[5] && b@[offset as int + 6] == s[6] && b@[offset as int + 7] == s[7]);
    r
}

/// Copy `count` bytes of `src` starting at `from` onto the end of `out`.
pub fn extend_from(out: &mut Vec<u8>, src: &Vec<u8>, from: usize, count: usize)
    requires
        from + count <= src@.len(),
    ensures
        final(out)@ == old(out)@ + src@.subrange(from as int, from as int + count as int),
{
    let n = src.len();
    let mut i: usize = 0;
    while i < count
        invariant
            i <= count,
            n == src@.len(),
            from + count <= n,
            out@.len() == old(out)@.len() + i,
            forall|j: int| 0 <= j < old(out)@.len() ==> out@[j] == old(out)@[j],
            forall|j: int|
                old(out)@.len() <= j < out@.len() ==> #[trigger] out@[j] == src@[from + j
                    - old(out)@.len()],
        decreases count - i,
    {
        out.push(src[from + i]);
        i += 1;
    }
    assert(out@ =~= old(out)@ + src@.subrange(from as int, from as int + count as int));
}

/// The `count` bytes of `src` starting at `from`, as a fresh vector.
pub fn sub_vec(src: &Vec<u8>, from: usize, count: usize) -> (r: Vec<u8>)
    requires
        from + count <= src@.len(),
    ensures
        r@ == src@.subrange(from as int, from as int + count as int),
{
    let mut r: Vec<u8> = Vec::new();
    extend_from(&mut r, src, from, count);
    r
}

/// Whether two byte vectors hold the same bytes.
pub fn vec_eq(a: &Vec<u8>, b: &Vec<u8>) -> (r: bool)
    ensures
        r <==> a@ == b@,
{
    if a.len() != b.len() {
        proof {
            assert(a@ != b@);
        }
        return false;
    }
    let n = a.len();
    let mut i: usize = 0;
    while i < n
        invariant
            i <= n,
            n == a@.len() && n == b@.len(),
            forall|j: int| 0 <= j < i ==> a@[j] == b@[j],
        decreases n - i,
    {
        if a[i] != b[i] {
            proof {
                assert(a@ != b@);
            }
            return false;
        }
        i += 1;
    }
    proof {
        assert(a@ =~= b@);
    }
    true
}

} // verus!
