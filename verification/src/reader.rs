//! Reading whole blocks: the collector pairing a selection with the caller's
//! storage callbacks, and the per-layer block reader built from it.

use vstd::prelude::*;

use crate::channels::{
    spec_bytes_per_pixel, spec_channel_list_fits, ChannelDescription, Header,
};
use crate::decoder::{
    spec_decoder_fits, spec_slot_description, spec_slot_sample, CompiledDecoder,
    RecursivePixelReader, SlotSpec,
};
use crate::sample::{spec_bytes_per_sample, Sample};
use crate::selection::{spec_compile, spec_first_missing, ReadSpecificChannel};
use crate::{Error, Vec2};

verus! {

/// Which tile of which resolution level a block belongs to.
#[derive(Clone, Copy, Debug, PartialEq, Eq, Structural)]
pub struct TileCoordinates {
    /// The tile's position within its resolution level, in tiles.
    pub tile_index: Vec2,
    /// The resolution level the tile belongs to; the base (full) resolution
    /// level has index zero in both directions.
    pub level_index: Vec2,
}

impl TileCoordinates {
    /// Whether this tile belongs to the base (full) resolution level, the
    /// only level this subsystem decodes.
    pub fn is_largest_resolution_level(&self) -> (r: bool)
        ensures
            r == (self.level_index.x == 0 && self.level_index.y == 0),
    {
        self.level_index.x == 0 && self.level_index.y == 0
    }
}

/// Where a decompressed block lies within its layer.
#[derive(Clone, Copy, Debug, PartialEq, Eq, Structural)]
pub struct BlockIndex {
    /// The position of the block's first pixel within the layer.
    pub pixel_position: Vec2,
    /// The block's width and height in pixels.
    pub pixel_size: Vec2,
    /// The resolution level the block belongs to.
    pub level: Vec2,
}

/// One decompressed block: its position and the raw planar bytes, rows
/// stored consecutively, each row holding every header channel's run in
/// header channel-list order.
#[derive(Clone, Debug)]
pub struct UncompressedBlock {
    /// Where the block lies within its layer.
    pub index: BlockIndex,
    /// The decompressed bytes of the block.
    pub data: Vec<u8>,
}

/// Pure configuration pairing a channel selection with the caller's
/// storage-factory and set-pixel callbacks. Performs no decoding itself.
#[derive(Clone, Copy, Debug)]
pub struct CollectPixels<ReadChannels, CreatePixels, SetPixel> {
    /// The channel selection to compile once a header is known.
    pub read_channels: ReadChannels,
    /// Called once per layer with the layer size and the resolved channel
    /// descriptions; returns the caller's pixel storage.
    pub create_pixels: CreatePixels,
    /// Called once per decoded pixel with the storage, the absolute pixel
    /// position, and the pixel's samples in selection order.
    pub set_pixel: SetPixel,
}

/// The raw bytes of row `y` of a block whose rows are `row_len` bytes long.
pub open spec fn spec_row_bytes(data: Seq<u8>, row_len: nat, y: int) -> Seq<u8> {
    data.subrange(y * row_len, (y + 1) * row_len)
}

/// The absolute position of the `k`-th pixel of block `index`, counting
/// row-major within the block.
pub open spec fn spec_block_position(index: BlockIndex, k: int) -> Vec2 {
    Vec2 {
        x: (index.pixel_position.x + k % (index.pixel_size.x as int)) as usize,
        y: (index.pixel_position.y + k / (index.pixel_size.x as int)) as usize,
    }
}

/// The samples, in selection order, of the `k`-th pixel (row-major) of a
/// block with raw bytes `data`, rows of `row_len` bytes, `width` pixels per
/// row, decoded by `slots`.
pub open spec fn spec_block_pixel(
    slots: Seq<SlotSpec>,
    data: Seq<u8>,
    row_len: nat,
    width: nat,
    k: int,
) -> Seq<Sample> {
    Seq::new(
        slots.len(),
        |i: int|
            spec_slot_sample(
                slots[i],
                spec_row_bytes(data, row_len, k / width as int),
                width,
                k % width as int,
            ),
    )
}

/// One step of a block read: the set-pixel callback, applied to storage
/// `s0`, the `k`-th pixel's absolute position and its decoded samples, may
/// return storage `s1`.
pub open spec fn spec_chain_step<PixelStorage, SetPixel: Fn(
    PixelStorage,
    Vec2,
    Vec<Sample>,
) -> PixelStorage>(
    set_pixel: SetPixel,
    s0: PixelStorage,
    s1: PixelStorage,
    index: BlockIndex,
    slots: Seq<SlotSpec>,
    data: Seq<u8>,
    row_len: nat,
    k: int,
) -> bool {
    exists|pv: Vec<Sample>|
        pv@ == spec_block_pixel(slots, data, row_len, index.pixel_size.x as nat, k)
            && call_ensures(set_pixel, (s0, spec_block_position(index, k), pv), s1)
}

/// Whether every bound slot's per-pixel run, offset plus sample size, lies
/// within one pixel's byte budget; every decoder compiled from a header
/// satisfies this with that header's per-pixel byte count.
pub open spec fn spec_decoder_within_pixel(slots: Seq<SlotSpec>, bytes_per_pixel: nat) -> bool {
    forall|i: int|
        0 <= i < slots.len() ==> match #[trigger] slots[i] {
            SlotSpec::Bound { channel_byte_offset, channel } => channel_byte_offset
                + spec_bytes_per_sample(channel.sample_type) <= bytes_per_pixel,
            SlotSpec::Unbound { .. } => true,
        }
}

/// A decoder whose slots stay within one pixel's byte budget fits every row
/// of `n` pixels and `bytes_per_pixel * n` bytes.
pub proof fn lemma_decoder_fits_row(slots: Seq<SlotSpec>, bytes_per_pixel: nat, n: nat)
    requires
        spec_decoder_within_pixel(slots, bytes_per_pixel),
    ensures
        spec_decoder_fits(slots, n, bytes_per_pixel * n),
{
    assert forall|i: int| 0 <= i < slots.len() implies crate::decoder::spec_slot_run_fits(
        #[trigger] slots[i],
        n,
        bytes_per_pixel * n,
    ) by {
        match slots[i] {
            SlotSpec::Bound { channel_byte_offset: o, channel } => {
                let s = spec_bytes_per_sample(channel.sample_type);
                assert(o + s <= bytes_per_pixel);
                assert(o * n + s * n <= bytes_per_pixel * n) by (nonlinear_arith)
                    requires
                        o + s <= bytes_per_pixel,
                        n >= 0,
                ;
            },
            SlotSpec::Unbound { .. } => {},
        }
    }
}

impl<ReadChannels, CreatePixels, SetPixel> CollectPixels<ReadChannels, CreatePixels, SetPixel> {
    /// Opens one layer: rejects a deep layer outright, before any storage is
    /// created; compiles the selection against the header's channel list,
    /// failing on the first missing required channel; and otherwise creates
    /// the caller's storage from the layer size and the resolved channel
    /// descriptions, yielding the per-layer block reader.
    pub fn create_channels_reader<PixelStorage>(self, header: &Header) -> (r: Result<
        SpecificChannelsReader<PixelStorage, SetPixel>,
        Error,
    >) where
        ReadChannels: ReadSpecificChannel,
        CreatePixels: Fn(Vec2, Vec<Option<ChannelDescription>>) -> PixelStorage,
        SetPixel: Fn(PixelStorage, Vec2, Vec<Sample>) -> PixelStorage,

        requires
            spec_channel_list_fits(header.channels@),
            forall|size: Vec2, d: Vec<Option<ChannelDescription>>|
                call_requires(self.create_pixels, (size, d)),
        ensures
            r is Ok <==> (!header.deep && spec_first_missing(
                self.read_channels@,
                header.channels@,
            ) is None),
            match r {
                Ok(reader) => {
                    &&& reader.wf()
                    &&& reader.spec_set_pixel() == self.set_pixel
                    &&& reader.spec_decoder()@ == spec_compile(
                        self.read_channels@,
                        header.channels@,
                    )
                    &&& exists|d: Vec<Option<ChannelDescription>>|
                        {
                            &&& d@.len() == reader.spec_decoder()@.len()
                            &&& (forall|i: int|
                                0 <= i < d@.len() ==> spec_slot_description(
                                    reader.spec_decoder()@[i],
                                    #[trigger] d@[i],
                                ))
                            &&& call_ensures(
                                self.create_pixels,
                                (header.layer_size, d),
                                reader.spec_storage(),
                            )
                        }
                },
                Err(e) => {
                    &&& header.deep ==> e == Error::UnsupportedDeepData
                    &&& !header.deep ==> (spec_first_missing(
                        self.read_channels@,
                        header.channels@,
                    ) matches Some(i) && (e matches Error::MissingChannel(n) && n@
                        == self.read_channels@[i].name()))
                },
            },
    {
        if header.deep {
            return Err(Error::UnsupportedDeepData);
        }
        let pixel_reader = match self.read_channels.create_recursive_reader(&header.channels) {
            Ok(decoder) => decoder,
            Err(e) => {
                return Err(e);
            },
        };
        let channel_descriptions = pixel_reader.get_descriptions();
        let ghost descriptions_value = channel_descriptions;
        let pixel_storage = (self.create_pixels)(header.layer_size, channel_descriptions);
        let reader = SpecificChannelsReader {
            set_pixel: self.set_pixel,
            pixel_storage: Some(pixel_storage),
            pixel_reader,
        };
        proof {
            assert(reader.spec_storage() == pixel_storage);
            assert(call_ensures(
                self.create_pixels,
                (header.layer_size, descriptions_value),
                reader.spec_storage(),
            ));
        }
        Ok(reader)
    }
}

/// The per-layer block reader: the compiled decoder, the caller's storage,
/// and the set-pixel callback, created once per layer and fed each accepted
/// block of that layer in turn.
#[derive(Debug)]
pub struct SpecificChannelsReader<PixelStorage, SetPixel> {
    set_pixel: SetPixel,
    pixel_storage: Option<PixelStorage>,
    pixel_reader: CompiledDecoder,
}

/// A finished layer read: the caller's storage, filled pixel by pixel, and
/// the resolved channel descriptions in selection order.
#[derive(Clone, Debug)]
pub struct SpecificChannels<PixelStorage> {
    /// The channel each selection slot resolved to, in selection order;
    /// `None` for an optional slot whose channel the header lacks.
    pub channels: Vec<Option<ChannelDescription>>,
    /// The caller's storage.
    pub storage: PixelStorage,
}

impl<PixelStorage, SetPixel> SpecificChannelsReader<PixelStorage, SetPixel> {
    /// The set-pixel callback this reader was created with.
    pub closed spec fn spec_set_pixel(&self) -> SetPixel {
        self.set_pixel
    }

    /// The caller's storage as it stands now.
    pub closed spec fn spec_storage(&self) -> PixelStorage {
        self.pixel_storage->0
    }

    /// The compiled decoder this reader was created with.
    pub closed spec fn spec_decoder(&self) -> CompiledDecoder {
        self.pixel_reader
    }

    /// The reader holds storage; true from creation until `into_channels`.
    pub closed spec fn wf(&self) -> bool {
        self.pixel_storage is Some
    }

    /// Accepts exactly the blocks of the base (full) resolution level; any
    /// other level is skipped, a deliberate, permanent limitation.
    pub fn filter_block(&self, block_tile: (usize, &TileCoordinates)) -> (r: bool)
        ensures
            r == (block_tile.1.level_index.x == 0 && block_tile.1.level_index.y == 0),
    {
        block_tile.1.is_largest_resolution_level()
    }

    /// Reads one accepted block: splits its bytes into rows, decodes each
    /// row through the compiled decoder, and hands every pixel, row-major
    /// with absolute coordinates, to the set-pixel callback together with
    /// its samples in selection order. The storage evolves through exactly
    /// one callback call per block pixel. A buffer whose length disagrees
    /// with the header's per-pixel byte count is a contract violation by the
    /// decompression stage, not a runtime condition, and is excluded here.
    pub fn read_block(&mut self, header: &Header, block: &UncompressedBlock) -> (r: Result<
        (),
        Error,
    >) where SetPixel: Fn(PixelStorage, Vec2, Vec<Sample>) -> PixelStorage
        requires
            old(self).wf(),
            spec_channel_list_fits(header.channels@),
            spec_decoder_within_pixel(
                old(self).spec_decoder()@,
                spec_bytes_per_pixel(header.channels@),
            ),
            block.data@.len() == spec_bytes_per_pixel(header.channels@)
                * block.index.pixel_size.x * block.index.pixel_size.y,
            spec_bytes_per_pixel(header.channels@) * block.index.pixel_size.x <= usize::MAX,
            block.index.pixel_position.x + block.index.pixel_size.x <= usize::MAX,
            block.index.pixel_position.y + block.index.pixel_size.y <= usize::MAX,
            forall|s: PixelStorage, p: Vec2, px: Vec<Sample>|
                call_requires(old(self).spec_set_pixel(), (s, p, px)),
        ensures
            r is Ok,
            final(self).wf(),
            final(self).spec_set_pixel() == old(self).spec_set_pixel(),
            final(self).spec_decoder() == old(self).spec_decoder(),
            ({
                let width = block.index.pixel_size.x as nat;
                let height = block.index.pixel_size.y as nat;
                let row_len = spec_bytes_per_pixel(header.channels@) * width;
                let slots = old(self).spec_decoder()@;
                exists|sts: Seq<PixelStorage>|
                    {
                        &&& sts.len() == width * height + 1
                        &&& sts[0] == old(self).spec_storage()
                        &&& sts[sts.len() - 1] == final(self).spec_storage()
                        &&& forall|k: int|
                            0 <= k < width * height ==> #[trigger] spec_chain_step(
                                old(self).spec_set_pixel(),
                                sts[k],
                                sts[k + 1],
                                block.index,
                                slots,
                                block.data@,
                                row_len,
                                k,
                            )
                    }
            }),
    {
        let width = block.index.pixel_size.x;
        let height = block.index.pixel_size.y;
        let bytes_per_pixel = header.channels.bytes_per_pixel();
        let row_len = bytes_per_pixel * width;
        let slot_count = self.pixel_reader.slots.len();
        let data_len: usize = block.data.len();

        let mut pixels: Vec<Vec<Sample>> = Vec::new();
        let mut x0: usize = 0;
        while x0 < width
            invariant
                x0 <= width,
                pixels@.len() == x0,
                forall|x2: int| 0 <= x2 < x0 ==> (#[trigger] pixels@[x2])@.len() == slot_count,
            decreases width - x0,
        {
            let mut accumulator: Vec<Sample> = Vec::new();
            let mut j: usize = 0;
            while j < slot_count
                invariant
                    j <= slot_count,
                    accumulator@.len() == j,
                decreases slot_count - j,
            {
                accumulator.push(Sample::Uint(0));
                j = j + 1;
            }
            pixels.push(accumulator);
            x0 = x0 + 1;
        }

        let mut storage = self.pixel_storage.take().unwrap();
        let ghost mut sts: Seq<PixelStorage> = seq![storage];

        let mut y: usize = 0;
        while y < height
            invariant
                y <= height,
                self.set_pixel == old(self).spec_set_pixel(),
                self.pixel_reader == old(self).spec_decoder(),
                self.pixel_storage is None,
                slot_count == self.pixel_reader@.len(),
                width == block.index.pixel_size.x,
                height == block.index.pixel_size.y,
                bytes_per_pixel == spec_bytes_per_pixel(header.channels@),
                row_len == bytes_per_pixel * width,
                data_len == block.data@.len(),
                data_len == row_len * height,
                spec_decoder_within_pixel(self.pixel_reader@, bytes_per_pixel as nat),
                forall|s: PixelStorage, p: Vec2, px: Vec<Sample>|
                    call_requires(self.set_pixel, (s, p, px)),
                pixels@.len() == width,
                forall|x2: int| 0 <= x2 < width ==> (#[trigger] pixels@[x2])@.len() == slot_count,
                block.index.pixel_position.x + width <= usize::MAX,
                block.index.pixel_position.y + height <= usize::MAX,
                sts.len() == y * width + 1,
                sts[0] == old(self).spec_storage(),
                sts[sts.len() - 1] == storage,
                forall|k: int|
                    0 <= k < y * width ==> #[trigger] spec_chain_step(
                        old(self).spec_set_pixel(),
                        sts[k],
                        sts[k + 1],
                        block.index,
                        old(self).spec_decoder()@,
                        block.data@,
                        row_len as nat,
                        k,
                    ),
            decreases height - y,
        {
            proof {
                assert((y + 1) * row_len <= height * row_len && (y + 1) * row_len == y * row_len
                    + row_len) by (nonlinear_arith)
                    requires
                        y + 1 <= height,
                        row_len >= 0,
                ;
                assert(height * row_len == row_len * height) by (nonlinear_arith);
            }
            let row = vstd::slice::slice_subrange(
                block.data.as_slice(),
                y * row_len,
                y * row_len + row_len,
            );
            proof {
                lemma_decoder_fits_row(self.pixel_reader@, bytes_per_pixel as nat, width as nat);
            }
            self.pixel_reader.read_pixels(row, &mut pixels);
            let mut x: usize = 0;
            while x < width
                invariant
                    x <= width,
                    y < height,
                    self.set_pixel == old(self).spec_set_pixel(),
                    self.pixel_reader == old(self).spec_decoder(),
                    self.pixel_storage is None,
                    slot_count == self.pixel_reader@.len(),
                    width == block.index.pixel_size.x,
                    height == block.index.pixel_size.y,
                    bytes_per_pixel == spec_bytes_per_pixel(header.channels@),
                    row_len == bytes_per_pixel * width,
                    data_len == block.data@.len(),
                    data_len == row_len * height,
                    spec_decoder_within_pixel(self.pixel_reader@, bytes_per_pixel as nat),
                    forall|s: PixelStorage, p: Vec2, px: Vec<Sample>|
                        call_requires(self.set_pixel, (s, p, px)),
                    pixels@.len() == width,
                    forall|x2: int|
                        0 <= x2 < width ==> (#[trigger] pixels@[x2])@.len() == slot_count,
                    block.index.pixel_position.x + width <= usize::MAX,
                    block.index.pixel_position.y + height <= usize::MAX,
                    row@ == block.data@.subrange(
                        y * row_len as int,
                        y * row_len + row_len as int,
                    ),
                    forall|x2: int, i: int|
                        0 <= x2 < width && 0 <= i < slot_count
                            ==> (#[trigger] pixels@[x2]@[i]) == spec_slot_sample(
                            self.pixel_reader@[i],
                            row@,
                            width as nat,
                            x2,
                        ),
                    sts.len() == y * width + x + 1,
                    sts[0] == old(self).spec_storage(),
                    sts[sts.len() - 1] == storage,
                    forall|k: int|
                        0 <= k < y * width + x ==> #[trigger] spec_chain_step(
                            old(self).spec_set_pixel(),
                            sts[k],
                            sts[k + 1],
                            block.index,
                            old(self).spec_decoder()@,
                            block.data@,
                            row_len as nat,
                            k,
                        ),
                decreases width - x,
            {
                let pixel = pixels[x].clone();
                let ghost pixel_value = pixel;
                let position = Vec2 {
                    x: block.index.pixel_position.x + x,
                    y: block.index.pixel_position.y + y,
                };
                let ghost previous_storage = storage;
                let ghost previous_sts = sts;
                storage = (self.set_pixel)(storage, position, pixel);
                proof {
                    sts = sts.push(storage);
                    let k: int = y * width + x;
                    let slots = old(self).spec_decoder()@;
                    vstd::arithmetic::div_mod::lemma_fundamental_div_mod_converse_div(
                        k,
                        width as int,
                        y as int,
                        x as int,
                    );
                    vstd::arithmetic::div_mod::lemma_fundamental_div_mod_converse_mod(
                        k,
                        width as int,
                        y as int,
                        x as int,
                    );
                    assert((y + 1) * row_len == y * row_len + row_len) by (nonlinear_arith);
                    assert(spec_row_bytes(block.data@, row_len as nat, k / width as int)
                        == row@);
                    assert(pixel_value@ =~= pixels@[x as int]@);
                    assert(pixel_value@ =~= spec_block_pixel(
                        slots,
                        block.data@,
                        row_len as nat,
                        width as nat,
                        k,
                    ));
                    assert(position == spec_block_position(block.index, k));
                    assert(spec_chain_step(
                        old(self).spec_set_pixel(),
                        previous_storage,
                        storage,
                        block.index,
                        slots,
                        block.data@,
                        row_len as nat,
                        k,
                    ));
                    assert forall|k2: int| 0 <= k2 < y * width + x + 1 implies
                        #[trigger] spec_chain_step(
                        old(self).spec_set_pixel(),
                        sts[k2],
                        sts[k2 + 1],
                        block.index,
                        slots,
                        block.data@,
                        row_len as nat,
                        k2,
                    ) by {
                        if k2 < y * width + x {
                            assert(sts[k2] == previous_sts[k2]);
                            assert(sts[k2 + 1] == previous_sts[k2 + 1]);
                        } else {
                            assert(sts[k2] == previous_storage);
                            assert(sts[k2 + 1] == storage);
                        }
                    }
                }
                x = x + 1;
            }
            proof {
                assert((y + 1) * width == y * width + width) by (nonlinear_arith);
            }
            y = y + 1;
        }
        self.pixel_storage = Some(storage);
        proof {
            assert(height * width == width * height) by (nonlinear_arith);
        }
        Ok(())
    }

    /// Finishes the layer read, yielding the caller's storage and the
    /// resolved channel descriptions in selection order.
    pub fn into_channels(self) -> (r: SpecificChannels<PixelStorage>)
        requires
            self.wf(),
        ensures
            r.storage == self.spec_storage(),
            r.channels@.len() == self.spec_decoder()@.len(),
            forall|i: int|
                0 <= i < self.spec_decoder()@.len() ==> spec_slot_description(
                    self.spec_decoder()@[i],
                    #[trigger] r.channels@[i],
                ),
    {
        let channels = self.pixel_reader.get_descriptions();
        SpecificChannels { channels, storage: self.pixel_storage.unwrap() }
    }
}

} // verus!
