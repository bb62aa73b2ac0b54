//! Channel descriptions, the header's ordered channel list, and the byte
//! offsets that the planar row layout derives from it.

use vstd::prelude::*;

use crate::sample::{spec_bytes_per_sample, SampleType};
use crate::Vec2;

verus! {

/// One named channel of a layer: its name and the representation its samples
/// are stored in. Owned by the layer header; its byte offset within a row is
/// derived from its position in the header's channel list.
#[derive(Debug, PartialEq, Eq)]
pub struct ChannelDescription {
    /// The channel's name, as raw bytes.
    pub name: Vec<u8>,
    /// The representation the channel's samples are stored in.
    pub sample_type: SampleType,
}

/// The mathematical value of a [`ChannelDescription`].
pub struct ChannelDescriptionView {
    pub name: Seq<u8>,
    pub sample_type: SampleType,
}

impl View for ChannelDescription {
    type V = ChannelDescriptionView;

    open spec fn view(&self) -> ChannelDescriptionView {
        ChannelDescriptionView { name: self.name@, sample_type: self.sample_type }
    }
}

impl Clone for ChannelDescription {
    /// A clone describes the same channel.
    fn clone(&self) -> (r: Self)
        ensures
            r@ == self@,
    {
        let name = self.name.clone();
        proof {
            assert(name@ =~= self.name@);
        }
        ChannelDescription { name, sample_type: self.sample_type }
    }
}

/// The ordered channel list of a layer header. The order determines where
/// each channel's samples lie within a planar row.
#[derive(Clone, Debug, PartialEq, Eq)]
pub struct ChannelList {
    /// The channels, in the order their samples occur within each row.
    pub list: Vec<ChannelDescription>,
}

impl View for ChannelList {
    type V = Seq<ChannelDescriptionView>;

    open spec fn view(&self) -> Seq<ChannelDescriptionView> {
        Seq::new(self.list@.len(), |i: int| self.list@[i]@)
    }
}

/// The byte offset that channel `j` of `chs` contributes per pixel: the sum
/// of the sample sizes of all channels before it. Multiplied by the row's
/// pixel count, it is where channel `j`'s run starts within a row.
pub open spec fn spec_channel_offset(chs: Seq<ChannelDescriptionView>, j: int) -> nat
    decreases j,
{
    if j <= 0 {
        0
    } else {
        spec_channel_offset(chs, j - 1) + spec_bytes_per_sample(chs[j - 1].sample_type)
    }
}

/// How many bytes all channels of `chs` together contribute per pixel.
pub open spec fn spec_bytes_per_pixel(chs: Seq<ChannelDescriptionView>) -> nat {
    spec_channel_offset(chs, chs.len() as int)
}

/// The first index of a channel named `name` in `chs`, if any.
pub open spec fn spec_find_channel_from(
    chs: Seq<ChannelDescriptionView>,
    name: Seq<u8>,
    i: int,
) -> Option<int>
    decreases chs.len() - i,
{
    if i < 0 || i >= chs.len() {
        None
    } else if chs[i].name == name {
        Some(i)
    } else {
        spec_find_channel_from(chs, name, i + 1)
    }
}

/// The first index of a channel named `name` in `chs`, if any.
pub open spec fn spec_find_channel(chs: Seq<ChannelDescriptionView>, name: Seq<u8>) -> Option<
    int,
> {
    spec_find_channel_from(chs, name, 0)
}

/// Whether a channel named `name` occurs in `chs`.
pub open spec fn spec_has_channel(chs: Seq<ChannelDescriptionView>, name: Seq<u8>) -> bool {
    spec_find_channel(chs, name) is Some
}

/// A channel list whose per-pixel byte count fits the machine's word size;
/// every list read from an actual file satisfies this.
pub open spec fn spec_channel_list_fits(chs: Seq<ChannelDescriptionView>) -> bool {
    spec_bytes_per_pixel(chs) <= usize::MAX
}

/// Channel offsets grow along the list: the offset of a later channel is at
/// least the offset of an earlier one plus that earlier channel's size.
pub proof fn lemma_channel_offset_monotonic(
    chs: Seq<ChannelDescriptionView>,
    i: int,
    j: int,
)
    requires
        0 <= i < j <= chs.len(),
    ensures
        spec_channel_offset(chs, i) + spec_bytes_per_sample(chs[i].sample_type)
            <= spec_channel_offset(chs, j),
    decreases j - i,
{
    if j == i + 1 {
    } else {
        lemma_channel_offset_monotonic(chs, i, j - 1);
    }
}

/// Every channel's run, offset plus size, lies within the per-pixel byte
/// count of the whole list.
pub proof fn lemma_channel_run_in_pixel(chs: Seq<ChannelDescriptionView>, i: int)
    requires
        0 <= i < chs.len(),
    ensures
        spec_channel_offset(chs, i) + spec_bytes_per_sample(chs[i].sample_type)
            <= spec_bytes_per_pixel(chs),
{
    lemma_channel_offset_monotonic(chs, i, chs.len() as int);
}

/// What the result of a successful channel lookup satisfies: `found` is the
/// first index carrying `name`, and `offset` is that channel's derived
/// per-pixel byte offset.
pub open spec fn spec_found_channel(
    chs: Seq<ChannelDescriptionView>,
    name: Seq<u8>,
    offset: nat,
    channel: ChannelDescriptionView,
) -> bool {
    &&& spec_find_channel(chs, name) matches Some(j) && channel == chs[j] && offset
        == spec_channel_offset(chs, j)
}

impl ChannelList {
    /// How many bytes every pixel contributes to a row: the sum of the
    /// native sample sizes of all channels in the list.
    pub fn bytes_per_pixel(&self) -> (r: usize)
        requires
            spec_channel_list_fits(self@),
        ensures
            r == spec_bytes_per_pixel(self@),
    {
        let mut sum: usize = 0;
        let mut j: usize = 0;
        while j < self.list.len()
            invariant
                j <= self.list.len(),
                spec_channel_list_fits(self@),
                sum == spec_channel_offset(self@, j as int),
            decreases self.list.len() - j,
        {
            proof {
                lemma_channel_run_in_pixel(self@, j as int);
            }
            sum = sum + self.list[j].sample_type.bytes_per_sample();
            j = j + 1;
        }
        sum
    }

    /// Looks up the first channel named `name`, returning its per-pixel byte
    /// offset and its description, or `None` when the list holds no channel
    /// of that name.
    pub fn find_channel_with_byte_offset(&self, name: &Vec<u8>) -> (r: Option<
        (usize, ChannelDescription),
    >)
        requires
            spec_channel_list_fits(self@),
        ensures
            match r {
                Some((offset, channel)) => spec_found_channel(
                    self@,
                    name@,
                    offset as nat,
                    channel@,
                ),
                None => !spec_has_channel(self@, name@),
            },
    {
        let mut offset: usize = 0;
        let mut j: usize = 0;
        while j < self.list.len()
            invariant
                j <= self.list.len(),
                spec_channel_list_fits(self@),
                offset == spec_channel_offset(self@, j as int),
                spec_find_channel(self@, name@) == spec_find_channel_from(
                    self@,
                    name@,
                    j as int,
                ),
            decreases self.list.len() - j,
        {
            proof {
                lemma_channel_run_in_pixel(self@, j as int);
            }
            if self.list[j].name == *name {
                proof {
                    assert(self@[j as int].name =~= name@);
                }
                return Some((offset, self.list[j].clone()));
            }
            offset = offset + self.list[j].sample_type.bytes_per_sample();
            j = j + 1;
        }
        None
    }
}

/// What this subsystem consumes from a parsed layer header: the ordered
/// channel list, the layer's pixel dimensions, and whether the layer stores
/// deep data (a variable sample count per pixel).
#[derive(Clone, Debug)]
pub struct Header {
    /// The layer's channels, in stored row order.
    pub channels: ChannelList,
    /// The layer's width and height in pixels.
    pub layer_size: Vec2,
    /// Whether the layer stores deep data; such a layer is rejected.
    pub deep: bool,
}

} // verus!
