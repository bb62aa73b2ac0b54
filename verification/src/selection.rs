//! The fluent, immutable channel selection chain and its compilation against
//! a header's channel list.

use vstd::prelude::*;

use crate::channels::{
    spec_channel_offset, spec_channel_list_fits, spec_find_channel, spec_has_channel,
    ChannelDescriptionView, ChannelList,
};
use crate::decoder::{CompiledDecoder, OptionalSampleReader, SampleReader, SlotReader, SlotSpec};
use crate::reader::CollectPixels;
use crate::sample::Sample;
use crate::Error;

verus! {

/// The mathematical value of one selection request: a channel name together
/// with whether the channel must be present, and, for an optional request,
/// the sample that stands in for an absent channel.
pub enum SelectionNode {
    Required { name: Seq<u8> },
    Optional { name: Seq<u8>, default_sample: Sample },
}

impl SelectionNode {
    /// The requested channel name.
    pub open spec fn name(self) -> Seq<u8> {
        match self {
            SelectionNode::Required { name } => name,
            SelectionNode::Optional { name, .. } => name,
        }
    }
}

/// An immutable chain of channel selection requests. Each appended request
/// wraps the previous chain, so the chain's shape is exactly its call
/// sequence; its view lists the requests in selection (call) order.
#[derive(Debug)]
pub enum ChannelSelection {
    /// The empty selection that every chain starts from.
    Empty,
    /// A chain ending in a mandatory channel request.
    Required(Box<ReadRequiredChannel>),
    /// A chain ending in an optional channel request.
    Optional(Box<ReadOptionalChannel>),
}

/// A mandatory channel request together with the chain it extends.
/// Compilation fails if no channel of this name is present in the header.
#[derive(Debug)]
pub struct ReadRequiredChannel {
    /// The chain this request was appended to.
    pub previous_channels: ChannelSelection,
    /// The name of the channel that must be present.
    pub channel_name: Vec<u8>,
}

/// An optional channel request together with the chain it extends. If no
/// channel of this name is present, every pixel receives `default_sample`.
#[derive(Debug)]
pub struct ReadOptionalChannel {
    /// The chain this request was appended to.
    pub previous_channels: ChannelSelection,
    /// The name of the channel to read if it is present.
    pub channel_name: Vec<u8>,
    /// The sample used for every pixel when the channel is absent.
    pub default_sample: Sample,
}

/// The selection requests of `sel` in selection order: the base of the chain
/// comes first, the most recently appended request last.
pub open spec fn spec_selection(sel: ChannelSelection) -> Seq<SelectionNode>
    decreases sel,
{
    match sel {
        ChannelSelection::Empty => Seq::empty(),
        ChannelSelection::Required(node) => spec_selection(node.previous_channels).push(
            SelectionNode::Required { name: node.channel_name@ },
        ),
        ChannelSelection::Optional(node) => spec_selection(node.previous_channels).push(
            SelectionNode::Optional {
                name: node.channel_name@,
                default_sample: node.default_sample,
            },
        ),
    }
}

impl View for ChannelSelection {
    type V = Seq<SelectionNode>;

    open spec fn view(&self) -> Seq<SelectionNode> {
        spec_selection(*self)
    }
}

/// The compiled slot that request `node` resolves to against the channel
/// list `chs`: bound to the first channel of the requested name if present,
/// otherwise unbound with the request's default. Only meaningful for a
/// required request when its channel is present.
pub open spec fn spec_node_slot(node: SelectionNode, chs: Seq<ChannelDescriptionView>) -> SlotSpec {
    match node {
        SelectionNode::Required { name } => match spec_find_channel(chs, name) {
            Some(j) => SlotSpec::Bound {
                channel_byte_offset: spec_channel_offset(chs, j),
                channel: chs[j],
            },
            None => SlotSpec::Unbound { default_sample: arbitrary() },
        },
        SelectionNode::Optional { name, default_sample } => match spec_find_channel(chs, name) {
            Some(j) => SlotSpec::Bound {
                channel_byte_offset: spec_channel_offset(chs, j),
                channel: chs[j],
            },
            None => SlotSpec::Unbound { default_sample },
        },
    }
}

/// The compiled decoder chain for selection `sel` against channel list
/// `chs`: one slot per request, in selection order.
pub open spec fn spec_compile(
    sel: Seq<SelectionNode>,
    chs: Seq<ChannelDescriptionView>,
) -> Seq<SlotSpec> {
    Seq::new(sel.len(), |i: int| spec_node_slot(sel[i], chs))
}

/// The position of the first required request of `sel` whose channel name is
/// absent from `chs`, if any; compilation fails exactly then, naming that
/// request's channel.
pub open spec fn spec_first_missing(
    sel: Seq<SelectionNode>,
    chs: Seq<ChannelDescriptionView>,
) -> Option<int>
    decreases sel.len(),
{
    if sel.len() == 0 {
        None
    } else {
        match spec_first_missing(sel.drop_last(), chs) {
            Some(i) => Some(i),
            None => match sel.last() {
                SelectionNode::Required { name } => if spec_has_channel(chs, name) {
                    None
                } else {
                    Some(sel.len() - 1)
                },
                SelectionNode::Optional { .. } => None,
            },
        }
    }
}

/// A failed compilation points at an actual selection request: the first
/// missing index lies within the selection, names a required request, and
/// that request's channel is absent from the header's list.
pub proof fn lemma_first_missing_valid(
    sel: Seq<SelectionNode>,
    chs: Seq<ChannelDescriptionView>,
)
    requires
        spec_first_missing(sel, chs) is Some,
    ensures
        ({
            let i = spec_first_missing(sel, chs)->0;
            &&& 0 <= i < sel.len()
            &&& sel[i] is Required
            &&& !spec_has_channel(chs, sel[i].name())
        }),
    decreases sel.len(),
{
    if sel.len() > 0 {
        if spec_first_missing(sel.drop_last(), chs) is Some {
            lemma_first_missing_valid(sel.drop_last(), chs);
        }
    }
}

/// Fluent construction of a channel selection and its compilation into a
/// pixel decoder once a header's channel list is known.
pub trait ReadSpecificChannel: Sized + View<V = Seq<SelectionNode>> {
    /// Appends a request for a channel that must be present in the header.
    fn required(self, channel_name: Vec<u8>) -> (r: ChannelSelection)
        ensures
            r@ == self@.push(SelectionNode::Required { name: channel_name@ }),
    ;

    /// Appends a request for a channel that may be absent from the header;
    /// if it is, every pixel receives `default_sample` in its place.
    fn optional(self, channel_name: Vec<u8>, default_sample: Sample) -> (r: ChannelSelection)
        ensures
            r@ == self@.push(
                SelectionNode::Optional { name: channel_name@, default_sample },
            ),
    ;

    /// Resolves every request of this selection against the header's channel
    /// list. Succeeds, with one compiled slot per request in selection
    /// order, exactly when every required request's channel is present;
    /// otherwise fails naming the first required channel that is missing.
    fn create_recursive_reader(&self, channels: &ChannelList) -> (r: Result<
        CompiledDecoder,
        Error,
    >)
        requires
            spec_channel_list_fits(channels@),
        ensures
            match r {
                Ok(decoder) => {
                    &&& spec_first_missing(self@, channels@) is None
                    &&& decoder@ == spec_compile(self@, channels@)
                },
                Err(e) => {
                    &&& spec_first_missing(self@, channels@) matches Some(i) && (
                    e matches Error::MissingChannel(n) && n@ == self@[i].name())
                },
            },
    ;

    /// Attaches the caller's storage-factory and set-pixel callbacks,
    /// producing the outward-facing capability for reading a whole layer.
    fn collect_pixels<CreatePixels, SetPixel>(
        self,
        create_pixels: CreatePixels,
        set_pixel: SetPixel,
    ) -> (r: CollectPixels<Self, CreatePixels, SetPixel>)
        ensures
            r.read_channels == self,
            r.create_pixels == create_pixels,
            r.set_pixel == set_pixel,
    ;
}

impl ReadSpecificChannel for ChannelSelection {
    fn required(self, channel_name: Vec<u8>) -> (r: ChannelSelection) {
        ChannelSelection::Required(
            Box::new(ReadRequiredChannel { previous_channels: self, channel_name }),
        )
    }

    fn optional(self, channel_name: Vec<u8>, default_sample: Sample) -> (r: ChannelSelection) {
        ChannelSelection::Optional(
            Box::new(
                ReadOptionalChannel { previous_channels: self, channel_name, default_sample },
            ),
        )
    }

    fn create_recursive_reader(&self, channels: &ChannelList) -> (r: Result<
        CompiledDecoder,
        Error,
    >)
        decreases *self,
    {
        match self {
            ChannelSelection::Empty => Ok(CompiledDecoder { slots: Vec::new() }),
            ChannelSelection::Required(node) => {
                let mut decoder = match node.previous_channels.create_recursive_reader(
                    channels,
                ) {
                    Ok(decoder) => decoder,
                    Err(e) => {
                        proof {
                            assert(self@.drop_last() =~= node.previous_channels@);
                            lemma_first_missing_valid(node.previous_channels@, channels@);
                        }
                        return Err(e);
                    },
                };
                proof {
                    assert(self@.drop_last() =~= node.previous_channels@);
                    assert(self@.last() == (SelectionNode::Required {
                        name: node.channel_name@,
                    }));
                }
                match channels.find_channel_with_byte_offset(&node.channel_name) {
                    Some((channel_byte_offset, channel)) => {
                        let ghost prev_slots = decoder@;
                        decoder.slots.push(
                            SlotReader::Required(SampleReader { channel_byte_offset, channel }),
                        );
                        proof {
                            let prev = node.previous_channels@;
                            let chs = channels@;
                            assert(self@ == prev.push(
                                SelectionNode::Required { name: node.channel_name@ },
                            ));
                            assert forall|i2: int| 0 <= i2 < decoder@.len() implies decoder@[i2]
                                == spec_node_slot(self@[i2], chs) by {
                                if i2 < prev_slots.len() {
                                    assert(decoder@[i2] == prev_slots[i2]);
                                    assert(self@[i2] == self@.drop_last()[i2]);
                                    assert(spec_compile(prev, chs)[i2] == spec_node_slot(
                                        prev[i2],
                                        chs,
                                    ));
                                } else {
                                    assert(self@[i2] == self@.last());
                                }
                            }
                            assert(decoder@.len() == prev_slots.len() + 1);
                            assert(prev_slots.len() == prev.len());
                            assert(spec_compile(self@, chs).len() == self@.len());
                            assert(self@.len() == prev.len() + 1);
                            assert(decoder@ =~= spec_compile(self@, chs));
                        }
                        Ok(decoder)
                    },
                    None => Err(Error::MissingChannel(node.channel_name.clone())),
                }
            },
            ChannelSelection::Optional(node) => {
                let mut decoder = match node.previous_channels.create_recursive_reader(
                    channels,
                ) {
                    Ok(decoder) => decoder,
                    Err(e) => {
                        proof {
                            assert(self@.drop_last() =~= node.previous_channels@);
                            lemma_first_missing_valid(node.previous_channels@, channels@);
                        }
                        return Err(e);
                    },
                };
                proof {
                    assert(self@.drop_last() =~= node.previous_channels@);
                    assert(self@.last() == (SelectionNode::Optional {
                        name: node.channel_name@,
                        default_sample: node.default_sample,
                    }));
                }
                let reader = channels.find_channel_with_byte_offset(&node.channel_name);
                let slot = match reader {
                    Some((channel_byte_offset, channel)) => OptionalSampleReader {
                        reader: Some(SampleReader { channel_byte_offset, channel }),
                        default_sample: node.default_sample,
                    },
                    None => OptionalSampleReader {
                        reader: None,
                        default_sample: node.default_sample,
                    },
                };
                let ghost prev_slots = decoder@;
                decoder.slots.push(SlotReader::Optional(slot));
                proof {
                    let prev = node.previous_channels@;
                    let chs = channels@;
                    assert(self@ == prev.push(
                        SelectionNode::Optional {
                            name: node.channel_name@,
                            default_sample: node.default_sample,
                        },
                    ));
                    assert forall|i2: int| 0 <= i2 < decoder@.len() implies decoder@[i2]
                        == spec_node_slot(self@[i2], chs) by {
                        if i2 < prev_slots.len() {
                            assert(decoder@[i2] == prev_slots[i2]);
                            assert(self@[i2] == self@.drop_last()[i2]);
                            assert(spec_compile(prev, chs)[i2] == spec_node_slot(prev[i2], chs));
                        } else {
                            assert(self@[i2] == self@.last());
                        }
                    }
                    assert(decoder@.len() == prev_slots.len() + 1);
                    assert(prev_slots.len() == prev.len());
                    assert(spec_compile(self@, chs).len() == self@.len());
                    assert(self@.len() == prev.len() + 1);
                    assert(decoder@ =~= spec_compile(self@, chs));
                }
                Ok(decoder)
            },
        }
    }

    fn collect_pixels<CreatePixels, SetPixel>(
        self,
        create_pixels: CreatePixels,
        set_pixel: SetPixel,
    ) -> (r: CollectPixels<Self, CreatePixels, SetPixel>) {
        CollectPixels { read_channels: self, create_pixels, set_pixel }
    }
}

} // verus!
