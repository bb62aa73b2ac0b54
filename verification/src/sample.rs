//! Native sample representations and their little-endian byte decoding.

use vstd::prelude::*;

verus! {

/// The native representation a channel's samples are stored in.
#[derive(Clone, Copy, Debug, PartialEq, Eq, Structural)]
pub enum SampleType {
    /// 16-bit binary floating point, stored as 2 little-endian bytes.
    Half,
    /// 32-bit binary floating point, stored as 4 little-endian bytes.
    Float,
    /// 32-bit unsigned integer, stored as 4 little-endian bytes.
    Uint,
}

/// One decoded sample, carried verbatim: floating-point samples are held as
/// their IEEE 754 bit patterns, so decoding never loses precision and never
/// needs floating-point arithmetic.
#[derive(Clone, Copy, Debug, PartialEq, Eq, Structural)]
pub enum Sample {
    /// Bit pattern of a 16-bit binary float.
    Half(u16),
    /// Bit pattern of a 32-bit binary float.
    Float(u32),
    /// A 32-bit unsigned integer value.
    Uint(u32),
}

/// How many bytes one sample of type `t` occupies within a row.
pub open spec fn spec_bytes_per_sample(t: SampleType) -> nat {
    match t {
        SampleType::Half => 2,
        SampleType::Float => 4,
        SampleType::Uint => 4,
    }
}

/// The representation that a sample value is stored in.
pub open spec fn spec_sample_type_of(s: Sample) -> SampleType {
    match s {
        Sample::Half(_) => SampleType::Half,
        Sample::Float(_) => SampleType::Float,
        Sample::Uint(_) => SampleType::Uint,
    }
}

/// The 16-bit value stored little-endian at byte offset `o` of `b`.
pub open spec fn spec_u16_le(b: Seq<u8>, o: int) -> u16 {
    (b[o] as u16) | ((b[o + 1] as u16) << 8)
}

/// The 32-bit value stored little-endian at byte offset `o` of `b`.
pub open spec fn spec_u32_le(b: Seq<u8>, o: int) -> u32 {
    (b[o] as u32) | ((b[o + 1] as u32) << 8) | ((b[o + 2] as u32) << 16) | ((b[o + 3] as u32)
        << 24)
}

/// The sample of type `t` stored at byte offset `o` of `b`.
pub open spec fn spec_decode_sample(b: Seq<u8>, o: int, t: SampleType) -> Sample {
    match t {
        SampleType::Half => Sample::Half(spec_u16_le(b, o)),
        SampleType::Float => Sample::Float(spec_u32_le(b, o)),
        SampleType::Uint => Sample::Uint(spec_u32_le(b, o)),
    }
}

impl Default for Sample {
    /// The default sample is a 32-bit float zero.
    fn default() -> (r: Self)
        ensures
            r == Sample::Float(0),
    {
        Sample::Float(0)
    }
}

impl SampleType {
    /// How many bytes one sample of this type occupies within a row.
    pub fn bytes_per_sample(self) -> (r: usize)
        ensures
            r == spec_bytes_per_sample(self),
    {
        match self {
            SampleType::Half => 2,
            SampleType::Float => 4,
            SampleType::Uint => 4,
        }
    }
}

/// Reads the little-endian 16-bit value at byte offset `o` of `bytes`.
pub fn read_u16_le(bytes: &[u8], o: usize) -> (r: u16)
    requires
        o + 2 <= bytes@.len(),
    ensures
        r == spec_u16_le(bytes@, o as int),
{
    // the slice's length is a machine word, so the offsets below fit one too
    let _len: usize = bytes.len();
    let b0 = *vstd::slice::slice_index_get(bytes, o);
    let b1 = *vstd::slice::slice_index_get(bytes, o + 1);
    (b0 as u16) | ((b1 as u16) << 8)
}

/// Reads the little-endian 32-bit value at byte offset `o` of `bytes`.
pub fn read_u32_le(bytes: &[u8], o: usize) -> (r: u32)
    requires
        o + 4 <= bytes@.len(),
    ensures
        r == spec_u32_le(bytes@, o as int),
{
    // the slice's length is a machine word, so the offsets below fit one too
    let _len: usize = bytes.len();
    let b0 = *vstd::slice::slice_index_get(bytes, o);
    let b1 = *vstd::slice::slice_index_get(bytes, o + 1);
    let b2 = *vstd::slice::slice_index_get(bytes, o + 2);
    let b3 = *vstd::slice::slice_index_get(bytes, o + 3);
    (b0 as u32) | ((b1 as u32) << 8) | ((b2 as u32) << 16) | ((b3 as u32) << 24)
}

/// Reads the sample of type `t` stored at byte offset `o` of `bytes`.
pub fn read_sample(bytes: &[u8], o: usize, t: SampleType) -> (r: Sample)
    requires
        o + spec_bytes_per_sample(t) <= bytes@.len(),
    ensures
        r == spec_decode_sample(bytes@, o as int, t),
{
    match t {
        SampleType::Half => Sample::Half(read_u16_le(bytes, o)),
        SampleType::Float => Sample::Float(read_u32_le(bytes, o)),
        SampleType::Uint => Sample::Uint(read_u32_le(bytes, o)),
    }
}

} // verus!
