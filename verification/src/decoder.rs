//! The compiled pixel decoder: a selection chain resolved against a header's
//! channel list, able to decode one planar row of raw bytes at a time.

use vstd::prelude::*;

use crate::channels::ChannelDescription;
use crate::channels::ChannelDescriptionView;
use crate::sample::{read_sample, spec_bytes_per_sample, spec_decode_sample, Sample};

verus! {

/// A selection slot bound to a channel that is present in the header: the
/// channel's description and its derived per-pixel byte offset, to be
/// multiplied by the row's pixel count to find the channel's run in a row.
#[derive(Clone, Debug)]
pub struct SampleReader {
    /// The channel's per-pixel byte offset; its run within a row of `n`
    /// pixels starts at `channel_byte_offset * n`.
    pub channel_byte_offset: usize,
    /// The bound channel.
    pub channel: ChannelDescription,
}

/// An optional selection slot after compilation: bound to a present channel,
/// or unbound with the default sample that every pixel then receives.
#[derive(Clone, Debug)]
pub struct OptionalSampleReader {
    /// The bound channel reader, or `None` when the channel is absent.
    pub reader: Option<SampleReader>,
    /// The sample filled in for every pixel when `reader` is `None`.
    pub default_sample: Sample,
}

/// One compiled slot: a required request (always bound) or an optional one.
#[derive(Clone, Debug)]
pub enum SlotReader {
    Required(SampleReader),
    Optional(OptionalSampleReader),
}

/// The mathematical value of one compiled slot: either bound to a channel at
/// a per-pixel byte offset, or unbound with a default sample.
pub enum SlotSpec {
    Bound { channel_byte_offset: nat, channel: ChannelDescriptionView },
    Unbound { default_sample: Sample },
}

impl View for SampleReader {
    type V = SlotSpec;

    open spec fn view(&self) -> SlotSpec {
        SlotSpec::Bound {
            channel_byte_offset: self.channel_byte_offset as nat,
            channel: self.channel@,
        }
    }
}

impl View for SlotReader {
    type V = SlotSpec;

    open spec fn view(&self) -> SlotSpec {
        match self {
            SlotReader::Required(reader) => reader@,
            SlotReader::Optional(optional) => match optional.reader {
                Some(reader) => reader@,
                None => SlotSpec::Unbound { default_sample: optional.default_sample },
            },
        }
    }
}

/// The compiled decoder for one layer: one slot per selection request, in
/// selection order. It is built once per layer and is the same for every
/// block of that layer.
#[derive(Clone, Debug)]
pub struct CompiledDecoder {
    /// The compiled slots, in selection order.
    pub slots: Vec<SlotReader>,
}

impl View for CompiledDecoder {
    type V = Seq<SlotSpec>;

    open spec fn view(&self) -> Seq<SlotSpec> {
        Seq::new(self.slots@.len(), |i: int| self.slots@[i]@)
    }
}

/// The sample that slot `slot` contributes to pixel `x` of a decoded row of
/// `n` pixels whose raw bytes are `row`: for a bound slot, the sample stored
/// in column `x` of the channel's run within the row; for an unbound slot,
/// its default, whatever the row's bytes are.
pub open spec fn spec_slot_sample(slot: SlotSpec, row: Seq<u8>, n: nat, x: int) -> Sample {
    match slot {
        SlotSpec::Bound { channel_byte_offset, channel } => spec_decode_sample(
            row,
            channel_byte_offset * n + x * spec_bytes_per_sample(channel.sample_type),
            channel.sample_type,
        ),
        SlotSpec::Unbound { default_sample } => default_sample,
    }
}

/// Whether a bound slot's whole run within a row of `n` pixels lies inside
/// `len` row bytes. An unbound slot reads no bytes at all.
pub open spec fn spec_slot_run_fits(slot: SlotSpec, n: nat, len: nat) -> bool {
    match slot {
        SlotSpec::Bound { channel_byte_offset, channel } => channel_byte_offset * n
            + spec_bytes_per_sample(channel.sample_type) * n <= len,
        SlotSpec::Unbound { .. } => true,
    }
}

/// Whether every slot's run lies inside `len` row bytes.
pub open spec fn spec_decoder_fits(slots: Seq<SlotSpec>, n: nat, len: nat) -> bool {
    forall|i: int| 0 <= i < slots.len() ==> spec_slot_run_fits(#[trigger] slots[i], n, len)
}

/// The description that slot `slot` reports: the bound channel, or `None`
/// for an unbound optional slot.
pub open spec fn spec_slot_description(slot: SlotSpec, d: Option<ChannelDescription>) -> bool {
    match slot {
        SlotSpec::Bound { channel, .. } => d matches Some(c) && c@ == channel,
        SlotSpec::Unbound { .. } => d is None,
    }
}

/// A decoder compiled for one layer, able to decode rows of raw planar bytes
/// into per-pixel sample accumulators and to report, in selection order,
/// which channel each slot resolved to.
pub trait RecursivePixelReader: Sized + View<V = Seq<SlotSpec>> {
    /// Reports, in selection order, the channel each slot is bound to, or
    /// `None` for an optional slot whose channel is absent.
    fn get_descriptions(&self) -> (r: Vec<Option<ChannelDescription>>)
        ensures
            r@.len() == self@.len(),
            forall|i: int|
                0 <= i < self@.len() ==> spec_slot_description(self@[i], #[trigger] r@[i]),
    ;

    /// Decodes one row of raw planar bytes into the given row of per-pixel
    /// accumulators, channel-major: slot `i` of accumulator `x` receives the
    /// sample stored in column `x` of slot `i`'s channel run, or the slot's
    /// default where it is unbound. The accumulators keep their shape: one
    /// slot per selection request.
    fn read_pixels(&self, bytes: &[u8], pixels: &mut Vec<Vec<Sample>>)
        requires
            spec_decoder_fits(self@, old(pixels)@.len() as nat, bytes@.len() as nat),
            forall|x: int|
                0 <= x < old(pixels)@.len() ==> (#[trigger] old(pixels)@[x])@.len()
                    == self@.len(),
        ensures
            final(pixels)@.len() == old(pixels)@.len(),
            forall|x: int|
                0 <= x < final(pixels)@.len() ==> (#[trigger] final(pixels)@[x])@.len()
                    == self@.len(),
            forall|x: int, i: int|
                0 <= x < final(pixels)@.len() && 0 <= i < self@.len()
                    ==> (#[trigger] final(pixels)@[x]@[i])
                    == spec_slot_sample(self@[i], bytes@, final(pixels)@.len() as nat, x),
    ;
}

impl RecursivePixelReader for CompiledDecoder {
    fn get_descriptions(&self) -> (r: Vec<Option<ChannelDescription>>) {
        let mut descriptions: Vec<Option<ChannelDescription>> = Vec::new();
        let mut i: usize = 0;
        while i < self.slots.len()
            invariant
                i <= self.slots.len(),
                descriptions@.len() == i,
                forall|j: int|
                    0 <= j < i ==> spec_slot_description(self@[j], #[trigger] descriptions@[j]),
            decreases self.slots.len() - i,
        {
            let d = match &self.slots[i] {
                SlotReader::Required(reader) => Some(reader.channel.clone()),
                SlotReader::Optional(optional) => match &optional.reader {
                    Some(reader) => Some(reader.channel.clone()),
                    None => None,
                },
            };
            descriptions.push(d);
            i = i + 1;
        }
        descriptions
    }

    fn read_pixels(&self, bytes: &[u8], pixels: &mut Vec<Vec<Sample>>) {
        // the slice's length is a machine word, so every run offset fits one too
        let _bytes_len: usize = bytes.len();
        let n = pixels.len();
        let slot_count = self.slots.len();
        let mut i: usize = 0;
        while i < slot_count
            invariant
                i <= slot_count,
                slot_count == self@.len(),
                bytes@.len() <= usize::MAX,
                spec_decoder_fits(self@, n as nat, bytes@.len() as nat),
                pixels@.len() == n,
                forall|x: int|
                    0 <= x < n ==> (#[trigger] pixels@[x])@.len() == slot_count,
                forall|x: int, j: int|
                    0 <= x < n && 0 <= j < i ==> (#[trigger] pixels@[x]@[j]) == spec_slot_sample(
                        self@[j],
                        bytes@,
                        n as nat,
                        x,
                    ),
            decreases slot_count - i,
        {
            let ghost slot_spec = self@[i as int];
            let bound = match &self.slots[i] {
                SlotReader::Required(reader) => Some(
                    (reader.channel_byte_offset, reader.channel.sample_type),
                ),
                SlotReader::Optional(optional) => match &optional.reader {
                    Some(reader) => Some((reader.channel_byte_offset, reader.channel.sample_type)),
                    None => None,
                },
            };
            match bound {
                Some((channel_byte_offset, sample_type)) => {
                    assert(slot_spec matches SlotSpec::Bound {
                        channel_byte_offset: o,
                        channel: c,
                    } && o == channel_byte_offset as nat && c.sample_type == sample_type);
                    let size = sample_type.bytes_per_sample();
                    assert(channel_byte_offset * n + size * n <= bytes@.len());
                    let start = channel_byte_offset * n;
                    let mut pos = start;
                    let mut x: usize = 0;
                    while x < n
                        invariant
                            x <= n,
                            slot_count == self@.len(),
                            i < slot_count,
                            bytes@.len() <= usize::MAX,
                            slot_spec == self@[i as int],
                            slot_spec matches SlotSpec::Bound {
                                channel_byte_offset: o,
                                channel: c,
                            } && o == channel_byte_offset as nat && c.sample_type == sample_type,
                            size == spec_bytes_per_sample(sample_type),
                            start == channel_byte_offset * n,
                            start + size * n <= bytes@.len(),
                            pos == start + x * size,
                            pixels@.len() == n,
                            forall|x2: int|
                                0 <= x2 < n ==> (#[trigger] pixels@[x2])@.len() == slot_count,
                            forall|x2: int, j: int|
                                0 <= x2 < n && 0 <= j < i ==> (#[trigger] pixels@[x2]@[j])
                                    == spec_slot_sample(self@[j], bytes@, n as nat, x2),
                            forall|x2: int|
                                0 <= x2 < x ==> (#[trigger] pixels@[x2]@[i as int])
                                    == spec_slot_sample(self@[i as int], bytes@, n as nat, x2),
                        decreases n - x,
                    {
                        proof {
                            assert((x + 1) * size <= n * size && (x + 1) * size == x * size
                                + size) by (nonlinear_arith)
                                requires
                                    x + 1 <= n,
                                    size >= 0,
                            ;
                            assert(size * n == n * size) by (nonlinear_arith);
                        }
                        let value = read_sample(bytes, pos, sample_type);
                        let accumulator = &mut pixels[x];
                        accumulator.set(i, value);
                        pos = pos + size;
                        x = x + 1;
                    }
                },
                None => {
                    let default_value = match &self.slots[i] {
                        SlotReader::Optional(optional) => optional.default_sample,
                        SlotReader::Required(_) => {
                            proof {
                                assert(false);
                            }
                            Sample::Uint(0)
                        },
                    };
                    assert(slot_spec == SlotSpec::Unbound { default_sample: default_value });
                    let mut x: usize = 0;
                    while x < n
                        invariant
                            x <= n,
                            slot_count == self@.len(),
                            i < slot_count,
                            self@[i as int] == (SlotSpec::Unbound { default_sample: default_value }),
                            pixels@.len() == n,
                            forall|x2: int|
                                0 <= x2 < n ==> (#[trigger] pixels@[x2])@.len() == slot_count,
                            forall|x2: int, j: int|
                                0 <= x2 < n && 0 <= j < i ==> (#[trigger] pixels@[x2]@[j])
                                    == spec_slot_sample(self@[j], bytes@, n as nat, x2),
                            forall|x2: int|
                                0 <= x2 < x ==> (#[trigger] pixels@[x2]@[i as int])
                                    == spec_slot_sample(self@[i as int], bytes@, n as nat, x2),
                        decreases n - x,
                    {
                        let accumulator = &mut pixels[x];
                        accumulator.set(i, default_value);
                        x = x + 1;
                    }
                },
            }
            i = i + 1;
        }
    }
}

} // verus!
