//! Little-endian byte-level readers and writers: the primitives under the
//! contract parameter layout. Each writer appends the exact encoding of its
//! value; each reader returns the value that the bytes at the given position
//! encode, together with the first position after them.

use vstd::prelude::*;

verus! {

/// Little-endian encoding of a 16-bit value.
pub open spec fn spec_u16_le(v: u16) -> Seq<u8> {
    seq![(v & 0xff) as u8, ((v >> 8) & 0xff) as u8]
}

/// The 16-bit value that two little-endian bytes encode.
pub open spec fn spec_u16_from(s: Seq<u8>) -> u16
    recommends
        s.len() == 2,
{
    (s[0] as u16) | ((s[1] as u16) << 8)
}

/// The 32-bit value that four little-endian bytes encode.
pub open spec fn spec_u32_from(s: Seq<u8>) -> u32
    recommends
        s.len() == 4,
{
    (s[0] as u32) | ((s[1] as u32) << 8) | ((s[2] as u32) << 16) | ((s[3] as u32) << 24)
}

/// Little-endian encoding of a 64-bit value.
pub open spec fn spec_u64_le(v: u64) -> Seq<u8> {
    seq![
        (v & 0xff) as u8,
        ((v >> 8) & 0xff) as u8,
        ((v >> 16) & 0xff) as u8,
        ((v >> 24) & 0xff) as u8,
        ((v >> 32) & 0xff) as u8,
        ((v >> 40) & 0xff) as u8,
        ((v >> 48) & 0xff) as u8,
        ((v >> 56) & 0xff) as u8,
    ]
}

/// The 64-bit value that eight little-endian bytes encode.
pub open spec fn spec_u64_from(s: Seq<u8>) -> u64
    recommends
        s.len() == 8,
{
    (s[0] as u64) | ((s[1] as u64) << 8) | ((s[2] as u64) << 16) | ((s[3] as u64) << 24) | (
    (s[4] as u64) << 32) | ((s[5] as u64) << 40) | ((s[6] as u64) << 48) | ((s[7] as u64) << 56)
}

/// Reading back the two bytes of a 16-bit value gives the value.
pub proof fn lemma_u16_round_trip(v: u16)
    ensures
        spec_u16_from(spec_u16_le(v)) == v,
{
    let b0 = (v & 0xff) as u8;
    let b1 = ((v >> 8) & 0xff) as u8;
    assert(((b0 as u16) | ((b1 as u16) << 8)) == v) by (bit_vector)
        requires
            b0 == (v & 0xff) as u8,
            b1 == ((v >> 8) & 0xff) as u8,
    ;
}

/// Two bytes are the encoding of the value they are read as.
pub proof fn lemma_u16_bytes_round_trip(s: Seq<u8>)
    requires
        s.len() == 2,
    ensures
        spec_u16_le(spec_u16_from(s)) =~= s,
{
    let b0 = s[0];
    let b1 = s[1];
    let v = (b0 as u16) | ((b1 as u16) << 8);
    assert((v & 0xff) as u8 == b0 && ((v >> 8) & 0xff) as u8 == b1) by (bit_vector)
        requires
            v == (b0 as u16) | ((b1 as u16) << 8),
    ;
}

/// Reading back the eight bytes of a 64-bit value gives the value.
pub proof fn lemma_u64_round_trip(v: u64)
    ensures
        spec_u64_from(spec_u64_le(v)) == v,
{
    let b0 = (v & 0xff) as u8;
    let b1 = ((v >> 8) & 0xff) as u8;
    let b2 = ((v >> 16) & 0xff) as u8;
    let b3 = ((v >> 24) & 0xff) as u8;
    let b4 = ((v >> 32) & 0xff) as u8;
    let b5 = ((v >> 40) & 0xff) as u8;
    let b6 = ((v >> 48) & 0xff) as u8;
    let b7 = ((v >> 56) & 0xff) as u8;
    assert(((b0 as u64) | ((b1 as u64) << 8) | ((b2 as u64) << 16) | ((b3 as u64) << 24) | (
    (b4 as u64) << 32) | ((b5 as u64) << 40) | ((b6 as u64) << 48) | ((b7 as u64) << 56)) == v)
        by (bit_vector)
        requires
            b0 == (v & 0xff) as u8,
            b1 == ((v >> 8) & 0xff) as u8,
            b2 == ((v >> 16) & 0xff) as u8,
            b3 == ((v >> 24) & 0xff) as u8,
            b4 == ((v >> 32) & 0xff) as u8,
            b5 == ((v >> 40) & 0xff) as u8,
            b6 == ((v >> 48) & 0xff) as u8,
            b7 == ((v >> 56) & 0xff) as u8,
    ;
}

/// Append one byte.
pub fn write_u8(out: &mut Vec<u8>, v: u8)
    ensures
        final(out)@ =~= old(out)@ + seq![v],
{
    out.push(v);
}

/// Append the two little-endian bytes of a 16-bit value.
pub fn write_u16_le(out: &mut Vec<u8>, v: u16)
    ensures
        final(out)@ =~= old(out)@ + spec_u16_le(v),
{
    out.push((v & 0xff) as u8);
    out.push(((v >> 8) & 0xff) as u8);
}

/// Append the eight little-endian bytes of a 64-bit value.
pub fn write_u64_le(out: &mut Vec<u8>, v: u64)
    ensures
        final(out)@ =~= old(out)@ + spec_u64_le(v),
{
    out.push((v & 0xff) as u8);
    out.push(((v >> 8) & 0xff) as u8);
    out.push(((v >> 16) & 0xff) as u8);
    out.push(((v >> 24) & 0xff) as u8);
    out.push(((v >> 32) & 0xff) as u8);
    out.push(((v >> 40) & 0xff) as u8);
    out.push(((v >> 48) & 0xff) as u8);
    out.push(((v >> 56) & 0xff) as u8);
}

/// Append a byte sequence unchanged.
pub fn write_bytes(out: &mut Vec<u8>, bytes: &Vec<u8>)
    ensures
        final(out)@ =~= old(out)@ + bytes@,
{
    let mut i: usize = 0;
    while i < bytes.len()
        invariant
            i <= bytes@.len(),
            out@ =~= old(out)@ + bytes@.subrange(0, i as int),
        decreases bytes@.len() - i,
    {
        out.push(bytes[i]);
        proof {
            assert(bytes@.subrange(0, i + 1) =~= bytes@.subrange(0, i as int) + seq![bytes@[
                i as int]]);
        }
        i = i + 1;
    }
    proof {
        assert(bytes@.subrange(0, bytes@.len() as int) =~= bytes@);
    }
}

/// A fresh byte vector with the same bytes.
pub fn copy_bytes(src: &Vec<u8>) -> (r: Vec<u8>)
    ensures
        r@ =~= src@,
{
    let mut r: Vec<u8> = Vec::new();
    write_bytes(&mut r, src);
    r
}

/// Whether two byte sequences hold the same bytes.
pub fn bytes_eq(a: &Vec<u8>, b: &Vec<u8>) -> (r: bool)
    ensures
        r <==> a@ =~= b@,
{
    if a.len() != b.len() {
        return false;
    }
    let mut i: usize = 0;
    while i < a.len()
        invariant
            a@.len() == b@.len(),
            i <= a@.len(),
            forall|j: int| 0 <= j < i ==> a@[j] == b@[j],
        decreases a@.len() - i,
    {
        if a[i] != b[i] {
            return false;
        }
        i = i + 1;
    }
    true
}

/// Read one byte.
pub fn read_u8(input: &Vec<u8>, pos: usize) -> (r: Option<(u8, usize)>)
    requires
        pos <= input@.len(),
    ensures
        r is Some <==> pos + 1 <= input@.len(),
        r matches Some((v, p)) ==> p == pos + 1 && v == input@[pos as int],
{
    if input.len() - pos >= 1 {
        Some((input[pos], pos + 1))
    } else {
        None
    }
}

/// Read a 16-bit little-endian value.
pub fn read_u16_le(input: &Vec<u8>, pos: usize) -> (r: Option<(u16, usize)>)
    requires
        pos <= input@.len(),
    ensures
        r is Some <==> pos + 2 <= input@.len(),
        r matches Some((v, p)) ==> p == pos + 2 && v == spec_u16_from(
            input@.subrange(pos as int, pos + 2),
        ),
{
    if input.len() - pos >= 2 {
        let b0 = input[pos];
        let b1 = input[pos + 1];
        let v = (b0 as u16) | ((b1 as u16) << 8);
        proof {
            let s = input@.subrange(pos as int, pos + 2);
            assert(s[0] == b0 && s[1] == b1);
        }
        Some((v, pos + 2))
    } else {
        None
    }
}

/// Read a 32-bit little-endian value.
pub fn read_u32_le(input: &Vec<u8>, pos: usize) -> (r: Option<(u32, usize)>)
    requires
        pos <= input@.len(),
    ensures
        r is Some <==> pos + 4 <= input@.len(),
        r matches Some((v, p)) ==> p == pos + 4 && v == spec_u32_from(
            input@.subrange(pos as int, pos + 4),
        ),
{
    if input.len() - pos >= 4 {
        let b0 = input[pos];
        let b1 = input[pos + 1];
        let b2 = input[pos + 2];
        let b3 = input[pos + 3];
        let v = (b0 as u32) | ((b1 as u32) << 8) | ((b2 as u32) << 16) | ((b3 as u32) << 24);
        proof {
            let s = input@.subrange(pos as int, pos + 4);
            assert(s[0] == b0 && s[1] == b1 && s[2] == b2 && s[3] == b3);
        }
        Some((v, pos + 4))
    } else {
        None
    }
}

/// Read a 64-bit little-endian value.
pub fn read_u64_le(input: &Vec<u8>, pos: usize) -> (r: Option<(u64, usize)>)
    requires
        pos <= input@.len(),
    ensures
        r is Some <==> pos + 8 <= input@.len(),
        r matches Some((v, p)) ==> p == pos + 8 && v == spec_u64_from(
            input@.subrange(pos as int, pos + 8),
        ),
{
    if input.len() - pos >= 8 {
        let b0 = input[pos];
        let b1 = input[pos + 1];
        let b2 = input[pos + 2];
        let b3 = input[pos + 3];
        let b4 = input[pos + 4];
        let b5 = input[pos + 5];
        let b6 = input[pos + 6];
        let b7 = input[pos + 7];
        let v = (b0 as u64) | ((b1 as u64) << 8) | ((b2 as u64) << 16) | ((b3 as u64) << 24) | (
        (b4 as u64) << 32) | ((b5 as u64) << 40) | ((b6 as u64) << 48) | ((b7 as u64) << 56);
        proof {
            let s = input@.subrange(pos as int, pos + 8);
            assert(s[0] == b0 && s[1] == b1 && s[2] == b2 && s[3] == b3 && s[4] == b4 && s[5]
                == b5 && s[6] == b6 && s[7] == b7);
        }
        Some((v, pos + 8))
    } else {
        None
    }
}

/// Read a fixed number of bytes unchanged.
pub fn read_bytes(input: &Vec<u8>, pos: usize, n: usize) -> (r: Option<(Vec<u8>, usize)>)
    requires
        pos <= input@.len(),
    ensures
        r is Some <==> pos + n <= input@.len(),
        r matches Some((v, p)) ==> p == pos + n && v@ =~= input@.subrange(pos as int, pos + n),
{
    if input.len() - pos >= n {
        let mut v: Vec<u8> = Vec::new();
        let mut i: usize = 0;
        while i < n
            invariant
                pos + n <= input@.len(),
                pos + n <= usize::MAX,
                i <= n,
                v@ =~= input@.subrange(pos as int, pos + i),
            decreases n - i,
        {
            v.push(input[pos + i]);
            proof {
                assert(input@.subrange(pos as int, pos + i + 1) =~= input@.subrange(
                    pos as int,
                    pos + i,
                ) + seq![input@[pos + i]]);
            }
            i = i + 1;
        }
        Some((v, pos + n))
    } else {
        None
    }
}

} // verus!
