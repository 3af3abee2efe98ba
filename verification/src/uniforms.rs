//! Per-frame uniform data and its byte layout: two 32-bit scalars —
//! elapsed time and frame delta, carried as bit patterns — written as
//! eight little-endian bytes with no padding, exactly the layout the
//! shader programs read from the uniform buffer.

use vstd::prelude::*;

verus! {

/// The per-frame uniform record: the bit patterns of the two 32-bit
/// scalars the shaders read (elapsed time and frame delta). The library
/// treats the patterns as opaque; the caller chooses the encoding.
#[derive(Clone, Copy, PartialEq, Eq, Structural, Debug)]
pub struct Uniforms {
    pub time_bits: u32,
    pub delta_time_bits: u32,
}

/// The four little-endian bytes of one 32-bit scalar.
pub open spec fn u32_le_bytes(x: u32) -> Seq<u8> {
    seq![
        (x & 0xff) as u8,
        ((x >> 8) & 0xff) as u8,
        ((x >> 16) & 0xff) as u8,
        ((x >> 24) & 0xff) as u8,
    ]
}

/// The 32-bit scalar read back from four little-endian bytes.
pub open spec fn u32_from_le_bytes(b: Seq<u8>) -> u32
    recommends
        b.len() == 4,
{
    (b[0] as u32) | ((b[1] as u32) << 8) | ((b[2] as u32) << 16) | ((b[3] as u32) << 24)
}

/// The eight-byte wire form of one uniform record: time first, then
/// delta, each little-endian, no padding.
pub open spec fn uniforms_bytes_spec(u: Uniforms) -> Seq<u8> {
    u32_le_bytes(u.time_bits) + u32_le_bytes(u.delta_time_bits)
}

/// The uniform record read back from its eight-byte wire form; `None`
/// on any other length.
pub open spec fn uniforms_from_bytes_spec(b: Seq<u8>) -> Option<Uniforms> {
    if b.len() == 8 {
        Some(
            Uniforms {
                time_bits: u32_from_le_bytes(b.subrange(0, 4)),
                delta_time_bits: u32_from_le_bytes(b.subrange(4, 8)),
            },
        )
    } else {
        None
    }
}

/// Reading four little-endian bytes undoes writing them.
pub proof fn lemma_u32_le_roundtrip(x: u32)
    ensures
        u32_from_le_bytes(u32_le_bytes(x)) == x,
{
    let b = u32_le_bytes(x);
    assert(b[0] == (x & 0xff) as u8);
    assert(b[1] == ((x >> 8) & 0xff) as u8);
    assert(b[2] == ((x >> 16) & 0xff) as u8);
    assert(b[3] == ((x >> 24) & 0xff) as u8);
    assert((((x & 0xff) as u8) as u32) | ((((x >> 8) & 0xff) as u8) as u32) << 8 | ((((x
        >> 16) & 0xff) as u8) as u32) << 16 | ((((x >> 24) & 0xff) as u8) as u32) << 24
        == x) by (bit_vector);
}

/// Reading the eight written bytes back yields a bit-identical record.
pub proof fn lemma_uniforms_roundtrip(u: Uniforms)
    ensures
        uniforms_from_bytes_spec(uniforms_bytes_spec(u)) == Some(u),
{
    let b = uniforms_bytes_spec(u);
    assert(b.subrange(0, 4) =~= u32_le_bytes(u.time_bits));
    assert(b.subrange(4, 8) =~= u32_le_bytes(u.delta_time_bits));
    lemma_u32_le_roundtrip(u.time_bits);
    lemma_u32_le_roundtrip(u.delta_time_bits);
}

/// Appends the four little-endian bytes of one 32-bit scalar.
fn push_u32_le(out: &mut Vec<u8>, x: u32)
    ensures
        final(out)@ == old(out)@ + u32_le_bytes(x),
{
    proof {
        assert(x & 0xff < 256 && (x >> 8) & 0xff < 256 && (x >> 16) & 0xff < 256 && (x >> 24)
            & 0xff < 256) by (bit_vector);
    }
    out.push((x & 0xff) as u8);
    out.push(((x >> 8) & 0xff) as u8);
    out.push(((x >> 16) & 0xff) as u8);
    out.push(((x >> 24) & 0xff) as u8);
    proof {
        assert(out@ =~= old(out)@ + u32_le_bytes(x));
    }
}

/// Reads one 32-bit scalar from four little-endian bytes at `at`.
fn read_u32_le(bytes: &[u8], at: usize) -> (r: u32)
    requires
        at + 4 <= bytes@.len(),
    ensures
        r == u32_from_le_bytes(bytes@.subrange(at as int, at + 4)),
{
    let r = (bytes[at] as u32) | ((bytes[at + 1] as u32) << 8) | ((bytes[at + 2] as u32) << 16) | (
    (bytes[at + 3] as u32) << 24);
    proof {
        let s = bytes@.subrange(at as int, at + 4);
        assert(s[0] == bytes@[at as int] && s[1] == bytes@[at + 1] && s[2] == bytes@[at + 2] && s[3]
            == bytes@[at + 3]);
    }
    r
}

impl Uniforms {
    /// Writes the record as its eight-byte wire form.
    pub fn to_bytes(&self) -> (b: Vec<u8>)
        ensures
            b@ == uniforms_bytes_spec(*self),
            b@.len() == 8,
    {
        let mut b: Vec<u8> = Vec::new();
        push_u32_le(&mut b, self.time_bits);
        push_u32_le(&mut b, self.delta_time_bits);
        proof {
            assert(b@ =~= uniforms_bytes_spec(*self));
        }
        b
    }

    /// Reads a record back from its eight-byte wire form; any other
    /// length is rejected.
    pub fn from_bytes(bytes: &[u8]) -> (u: Option<Uniforms>)
        ensures
            u == uniforms_from_bytes_spec(bytes@),
    {
        if bytes.len() == 8 {
            let time_bits = read_u32_le(bytes, 0);
            let delta_time_bits = read_u32_le(bytes, 4);
            Some(Uniforms { time_bits, delta_time_bits })
        } else {
            None
        }
    }
}

} // verus!
