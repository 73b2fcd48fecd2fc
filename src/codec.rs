//! Little-endian integers and fixed-width byte fields, the building blocks of
//! the wire and storage layouts.
use vstd::prelude::*;

verus! {

/// The four little-endian bytes of `n`.
pub open spec fn le_bytes_u32(n: u32) -> Seq<u8> {
    seq![n as u8, (n >> 8u32) as u8, (n >> 16u32) as u8, (n >> 24u32) as u8]
}

/// The value whose little-endian bytes are `b0, b1, b2, b3`.
pub open spec fn le_value_u32(b0: u8, b1: u8, b2: u8, b3: u8) -> u32 {
    (b0 as u32) | ((b1 as u32) << 8u32) | ((b2 as u32) << 16u32) | ((b3 as u32) << 24u32)
}

/// The value of the four little-endian bytes of `b` that start at `pos`.
pub open spec fn le_value_at(b: Seq<u8>, pos: int) -> u32 {
    le_value_u32(b[pos], b[pos + 1], b[pos + 2], b[pos + 3])
}

/// Writing a value and reading it back gives the value.
pub proof fn lemma_le_value_of_bytes(n: u32)
    ensures
        le_value_at(le_bytes_u32(n), 0) == n,
{
    assert(((n as u8) as u32) | ((((n >> 8u32) as u8) as u32) << 8u32) | ((((n >> 16u32) as u8)
        as u32) << 16u32) | ((((n >> 24u32) as u8) as u32) << 24u32) == n) by (bit_vector);
}

/// Reading four bytes and writing the value back gives the bytes.
pub proof fn lemma_le_bytes_of_value(b0: u8, b1: u8, b2: u8, b3: u8)
    ensures
        le_bytes_u32(le_value_u32(b0, b1, b2, b3)) == seq![b0, b1, b2, b3],
{
    let n = le_value_u32(b0, b1, b2, b3);
    assert(n == (b0 as u32) | ((b1 as u32) << 8u32) | ((b2 as u32) << 16u32) | ((b3 as u32)
        << 24u32));
    assert(n as u8 == b0) by (bit_vector)
        requires
            n == (b0 as u32) | ((b1 as u32) << 8u32) | ((b2 as u32) << 16u32) | ((b3 as u32)
                << 24u32),
    ;
    assert((n >> 8u32) as u8 == b1) by (bit_vector)
        requires
            n == (b0 as u32) | ((b1 as u32) << 8u32) | ((b2 as u32) << 16u32) | ((b3 as u32)
                << 24u32),
    ;
    assert((n >> 16u32) as u8 == b2) by (bit_vector)
        requires
            n == (b0 as u32) | ((b1 as u32) << 8u32) | ((b2 as u32) << 16u32) | ((b3 as u32)
                << 24u32),
    ;
    assert((n >> 24u32) as u8 == b3) by (bit_vector)
        requires
            n == (b0 as u32) | ((b1 as u32) << 8u32) | ((b2 as u32) << 16u32) | ((b3 as u32)
                << 24u32),
    ;
    assert(le_bytes_u32(n) =~= seq![b0, b1, b2, b3]);
}

/// Reads the little-endian value of the four bytes of `b` at `pos`, if there
/// are four bytes there.
pub fn read_u32_le(b: &[u8], pos: usize) -> (r: Option<u32>)
    ensures
        pos + 4 <= b@.len() ==> r == Some(le_value_at(b@, pos as int)),
        pos + 4 > b@.len() ==> r is None,
{
    if pos > b.len() || b.len() - pos < 4 {
        return None;
    }
    let b0 = b[pos];
    let b1 = b[pos + 1];
    let b2 = b[pos + 2];
    let b3 = b[pos + 3];
    Some((b0 as u32) | ((b1 as u32) << 8u32) | ((b2 as u32) << 16u32) | ((b3 as u32) << 24u32))
}

/// Appends the four little-endian bytes of `n`.
pub fn push_u32_le(out: &mut Vec<u8>, n: u32)
    ensures
        final(out)@ == old(out)@ + le_bytes_u32(n),
{
    out.push(n as u8);
    out.push((n >> 8u32) as u8);
    out.push((n >> 16u32) as u8);
    out.push((n >> 24u32) as u8);
    assert(final(out)@ =~= old(out)@ + le_bytes_u32(n));
}

/// Appends the bytes of `b`.
pub fn push_bytes(out: &mut Vec<u8>, b: &[u8])
    ensures
        final(out)@ == old(out)@ + b@,
{
    let ghost start = out@;
    let mut i: usize = 0;
    while i < b.len()
        invariant
            i <= b@.len(),
            out@ == start + b@.subrange(0, i as int),
        decreases b@.len() - i,
    {
        out.push(b[i]);
        i = i + 1;
        assert(out@ =~= start + b@.subrange(0, i as int));
    }
    assert(b@.subrange(0, b@.len() as int) =~= b@);
}

/// The bytes of `b` from `start` up to `end`, as a new vector.
pub fn copy_range(b: &[u8], start: usize, end: usize) -> (r: Vec<u8>)
    requires
        start <= end <= b@.len(),
    ensures
        r@ == b@.subrange(start as int, end as int),
{
    let mut r: Vec<u8> = Vec::new();
    let mut i: usize = start;
    while i < end
        invariant
            start <= i <= end <= b@.len(),
            r@ == b@.subrange(start as int, i as int),
        decreases end - i,
    {
        r.push(b[i]);
        i = i + 1;
        assert(r@ =~= b@.subrange(start as int, i as int));
    }
    r
}

/// The 32 bytes of `b` that start at `pos`, as an array.
pub fn read_array32(b: &[u8], pos: usize) -> (r: [u8; 32])
    requires
        pos + 32 <= b@.len(),
    ensures
        r@ == b@.subrange(pos as int, pos + 32),
{
    let n: usize = b.len();
    let mut r: [u8; 32] = [0u8; 32];
    let mut i: usize = 0;
    while i < 32
        invariant
            i <= 32,
            n == b@.len(),
            pos + 32 <= b@.len(),
            forall|j: int| 0 <= j < i ==> r@[j] == b@[pos + j],
        decreases 32 - i,
    {
        r[i] = b[pos + i];
        i = i + 1;
    }
    assert(r@ =~= b@.subrange(pos as int, pos + 32));
    r
}

} // verus!
