//! Laws relating compilation, decoding and the byte layout, stated and
//! proved over the same spec functions the executable contracts use.

use vstd::prelude::*;

use crate::channels::{
    lemma_channel_run_in_pixel, spec_bytes_per_pixel, spec_channel_offset, spec_find_channel,
    spec_find_channel_from, spec_has_channel, ChannelDescriptionView,
};
use crate::decoder::{spec_slot_sample, SlotSpec};
use crate::reader::spec_decoder_within_pixel;
use crate::sample::{
    spec_bytes_per_sample, spec_decode_sample, spec_sample_type_of, spec_u16_le, spec_u32_le,
    Sample,
};
use crate::selection::{
    spec_compile, spec_first_missing, spec_node_slot, SelectionNode,
};

verus! {

/// The little-endian bytes of a 16-bit value.
pub open spec fn spec_encode_u16_le(v: u16) -> Seq<u8> {
    seq![(v & 0xff) as u8, ((v >> 8) & 0xff) as u8]
}

/// The little-endian bytes of a 32-bit value.
pub open spec fn spec_encode_u32_le(v: u32) -> Seq<u8> {
    seq![
        (v & 0xff) as u8,
        ((v >> 8) & 0xff) as u8,
        ((v >> 16) & 0xff) as u8,
        ((v >> 24) & 0xff) as u8,
    ]
}

/// The bytes that store sample `s` in its native representation.
pub open spec fn spec_encode_sample(s: Sample) -> Seq<u8> {
    match s {
        Sample::Half(h) => spec_encode_u16_le(h),
        Sample::Float(f) => spec_encode_u32_le(f),
        Sample::Uint(u) => spec_encode_u32_le(u),
    }
}

/// Decoding the two little-endian bytes of a 16-bit value yields it back.
pub proof fn lemma_u16_le_round_trip(b: Seq<u8>, o: int, v: u16)
    requires
        0 <= o,
        o + 2 <= b.len(),
        b.subrange(o, o + 2) == spec_encode_u16_le(v),
    ensures
        spec_u16_le(b, o) == v,
{
    assert(b[o] == spec_encode_u16_le(v)[0]);
    assert(b[o + 1] == spec_encode_u16_le(v)[1]);
    let b0 = b[o];
    let b1 = b[o + 1];
    assert(((b0 as u16) | ((b1 as u16) << 8)) == v) by (bit_vector)
        requires
            b0 == (v & 0xff) as u8,
            b1 == ((v >> 8) & 0xff) as u8,
    ;
}

/// Decoding the four little-endian bytes of a 32-bit value yields it back.
pub proof fn lemma_u32_le_round_trip(b: Seq<u8>, o: int, v: u32)
    requires
        0 <= o,
        o + 4 <= b.len(),
        b.subrange(o, o + 4) == spec_encode_u32_le(v),
    ensures
        spec_u32_le(b, o) == v,
{
    assert(b[o] == spec_encode_u32_le(v)[0]);
    assert(b[o + 1] == spec_encode_u32_le(v)[1]);
    assert(b[o + 2] == spec_encode_u32_le(v)[2]);
    assert(b[o + 3] == spec_encode_u32_le(v)[3]);
    let b0 = b[o];
    let b1 = b[o + 1];
    let b2 = b[o + 2];
    let b3 = b[o + 3];
    assert(((b0 as u32) | ((b1 as u32) << 8) | ((b2 as u32) << 16) | ((b3 as u32) << 24))
        == v) by (bit_vector)
        requires
            b0 == (v & 0xff) as u8,
            b1 == ((v >> 8) & 0xff) as u8,
            b2 == ((v >> 16) & 0xff) as u8,
            b3 == ((v >> 24) & 0xff) as u8,
    ;
}

/// Round trip for one sample: bytes that store a sample in its native
/// representation decode back to exactly that sample, bit for bit.
pub proof fn lemma_sample_round_trip(b: Seq<u8>, o: int, s: Sample)
    requires
        0 <= o,
        o + spec_bytes_per_sample(spec_sample_type_of(s)) <= b.len(),
        b.subrange(o, o + spec_bytes_per_sample(spec_sample_type_of(s)) as int)
            == spec_encode_sample(s),
    ensures
        spec_decode_sample(b, o, spec_sample_type_of(s)) == s,
{
    match s {
        Sample::Half(h) => lemma_u16_le_round_trip(b, o, h),
        Sample::Float(f) => lemma_u32_le_round_trip(b, o, f),
        Sample::Uint(u) => lemma_u32_le_round_trip(b, o, u),
    }
}

/// Round trip through a bound decoder slot: wherever a row's bytes hold, at
/// the position the planar layout assigns to column `x` of the slot's
/// channel, the native encoding of sample `s` of the channel's type, the
/// slot decodes column `x` to exactly `s`. With every channel selected in
/// its native type, a decoded layer therefore reproduces the stored values.
pub proof fn lemma_bound_slot_round_trip(
    channel_byte_offset: nat,
    channel: ChannelDescriptionView,
    row: Seq<u8>,
    n: nat,
    x: int,
    s: Sample,
)
    requires
        spec_sample_type_of(s) == channel.sample_type,
        0 <= x < n,
        channel_byte_offset * n + (x + 1) * spec_bytes_per_sample(channel.sample_type)
            <= row.len(),
        row.subrange(
            channel_byte_offset * n + x * spec_bytes_per_sample(channel.sample_type),
            channel_byte_offset * n + x * spec_bytes_per_sample(channel.sample_type)
                + spec_bytes_per_sample(channel.sample_type),
        ) == spec_encode_sample(s),
    ensures
        spec_slot_sample(SlotSpec::Bound { channel_byte_offset, channel }, row, n, x) == s,
{
    let size = spec_bytes_per_sample(channel.sample_type);
    let o = channel_byte_offset * n + x * size;
    assert((x + 1) * size == x * size + size) by (nonlinear_arith);
    lemma_sample_round_trip(row, o, s);
}

/// An unbound optional slot yields its default for every pixel and never
/// consults the row's bytes: any two rows give the same result.
pub proof fn lemma_unbound_slot_ignores_bytes(
    default_sample: Sample,
    b1: Seq<u8>,
    b2: Seq<u8>,
    n: nat,
    x: int,
)
    ensures
        spec_slot_sample(SlotSpec::Unbound { default_sample }, b1, n, x) == default_sample,
        spec_slot_sample(SlotSpec::Unbound { default_sample }, b1, n, x) == spec_slot_sample(
            SlotSpec::Unbound { default_sample },
            b2,
            n,
            x,
        ),
{
}

/// An optional request whose channel the header lacks compiles to the
/// unbound slot carrying exactly the request's default.
pub proof fn lemma_optional_absent_compiles_to_default(
    name: Seq<u8>,
    default_sample: Sample,
    chs: Seq<ChannelDescriptionView>,
)
    requires
        !spec_has_channel(chs, name),
    ensures
        spec_node_slot(SelectionNode::Optional { name, default_sample }, chs)
            == (SlotSpec::Unbound { default_sample }),
{
}

/// A successful channel lookup points at an actual channel of that name.
pub proof fn lemma_find_channel_valid(
    chs: Seq<ChannelDescriptionView>,
    name: Seq<u8>,
    i: int,
)
    requires
        spec_find_channel_from(chs, name, i) is Some,
        0 <= i,
    ensures
        ({
            let j = spec_find_channel_from(chs, name, i)->0;
            &&& i <= j < chs.len()
            &&& chs[j].name == name
        }),
    decreases chs.len() - i,
{
    if i < chs.len() && chs[i].name != name {
        lemma_find_channel_valid(chs, name, i + 1);
    }
}

/// When no required request is missing, every required request's channel is
/// present in the header's list.
pub proof fn lemma_no_missing_all_present(
    sel: Seq<SelectionNode>,
    chs: Seq<ChannelDescriptionView>,
)
    requires
        spec_first_missing(sel, chs) is None,
    ensures
        forall|i: int|
            0 <= i < sel.len() && sel[i] is Required ==> spec_has_channel(
                chs,
                (#[trigger] sel[i]).name(),
            ),
    decreases sel.len(),
{
    if sel.len() > 0 {
        lemma_no_missing_all_present(sel.drop_last(), chs);
        assert forall|i: int|
            0 <= i < sel.len() && sel[i] is Required implies spec_has_channel(
            chs,
            (#[trigger] sel[i]).name(),
        ) by {
            if i < sel.len() - 1 {
                assert(sel[i] == sel.drop_last()[i]);
            } else {
                assert(sel[i] == sel.last());
            }
        }
    }
}

/// Successful compilation yields one slot per request, in selection order,
/// and binds every required request to the first header channel of its
/// name, at that channel's derived byte offset.
pub proof fn lemma_compile_shape(sel: Seq<SelectionNode>, chs: Seq<ChannelDescriptionView>)
    requires
        spec_first_missing(sel, chs) is None,
    ensures
        spec_compile(sel, chs).len() == sel.len(),
        forall|i: int|
            0 <= i < sel.len() && sel[i] is Required ==> ({
                let j = spec_find_channel(chs, (#[trigger] sel[i]).name())->0;
                &&& spec_find_channel(chs, sel[i].name()) is Some
                &&& 0 <= j < chs.len()
                &&& chs[j].name == sel[i].name()
                &&& spec_compile(sel, chs)[i] == (SlotSpec::Bound {
                    channel_byte_offset: spec_channel_offset(chs, j),
                    channel: chs[j],
                })
            }),
{
    lemma_no_missing_all_present(sel, chs);
    assert forall|i: int| 0 <= i < sel.len() && sel[i] is Required implies ({
        let j = spec_find_channel(chs, (#[trigger] sel[i]).name())->0;
        &&& spec_find_channel(chs, sel[i].name()) is Some
        &&& 0 <= j < chs.len()
        &&& chs[j].name == sel[i].name()
        &&& spec_compile(sel, chs)[i] == (SlotSpec::Bound {
            channel_byte_offset: spec_channel_offset(chs, j),
            channel: chs[j],
        })
    }) by {
        lemma_find_channel_valid(chs, sel[i].name(), 0);
        match sel[i] {
            SelectionNode::Required { name } => {
                assert(spec_node_slot(sel[i], chs) == (SlotSpec::Bound {
                    channel_byte_offset: spec_channel_offset(
                        chs,
                        spec_find_channel(chs, name)->0,
                    ),
                    channel: chs[spec_find_channel(chs, name)->0],
                }));
            },
            SelectionNode::Optional { .. } => {},
        }
    }
}

/// Every compiled decoder stays within its header's per-pixel byte budget:
/// each bound slot's offset plus its sample size is at most the per-pixel
/// byte count of the channel list it was compiled from. This discharges the
/// layout obligation of the per-block read for any compiled selection.
pub proof fn lemma_compile_within_pixel(
    sel: Seq<SelectionNode>,
    chs: Seq<ChannelDescriptionView>,
)
    ensures
        spec_decoder_within_pixel(spec_compile(sel, chs), spec_bytes_per_pixel(chs)),
{
    let slots = spec_compile(sel, chs);
    assert forall|i: int| 0 <= i < slots.len() implies match #[trigger] slots[i] {
        SlotSpec::Bound { channel_byte_offset, channel } => channel_byte_offset
            + spec_bytes_per_sample(channel.sample_type) <= spec_bytes_per_pixel(chs),
        SlotSpec::Unbound { .. } => true,
    } by {
        let node = sel[i];
        match node {
            SelectionNode::Required { name } => {
                if spec_find_channel(chs, name) is Some {
                    lemma_find_channel_valid(chs, name, 0);
                    lemma_channel_run_in_pixel(chs, spec_find_channel(chs, name)->0);
                }
            },
            SelectionNode::Optional { name, .. } => {
                if spec_find_channel(chs, name) is Some {
                    lemma_find_channel_valid(chs, name, 0);
                    lemma_channel_run_in_pixel(chs, spec_find_channel(chs, name)->0);
                }
            },
        }
    }
}

} // verus!
