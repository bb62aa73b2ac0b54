//! Reading an arbitrary, caller-chosen subset of named image channels out of
//! decompressed planar image blocks.
//!
//! A caller builds an immutable [`selection::ChannelSelection`] chain naming the
//! channels it wants, in order. Once a layer header is known, the chain is
//! compiled into a [`decoder::CompiledDecoder`]: every required channel must be
//! present in the header's channel list, an optional channel may be absent and
//! then yields its default sample. The decoder reads one planar row of raw
//! block bytes at a time into per-pixel accumulators, and the block reader in
//! [`reader`] feeds whole blocks through it, handing every decoded pixel to a
//! caller-supplied callback.
//!
//! Samples are carried verbatim: floating-point samples are kept as their bit
//! patterns, so nothing is lost and no numeric conversion happens here.

use vstd::prelude::*;

pub mod channels;
pub mod decoder;
pub mod laws;
pub mod reader;
pub mod sample;
pub mod selection;

verus! {

/// A two-dimensional extent or position in pixels: `x` is the column or
/// width, `y` the row or height.
#[derive(Clone, Copy, Debug, PartialEq, Eq, Structural)]
pub struct Vec2 {
    pub x: usize,
    pub y: usize,
}

/// Why a layer cannot be read by this subsystem. Both conditions are detected
/// once, when the layer is opened, before any pixel is decoded.
#[derive(Clone, Debug, PartialEq, Eq)]
pub enum Error {
    /// A required selected channel does not occur in the header's channel
    /// list; carries that channel's name.
    MissingChannel(Vec<u8>),
    /// The layer stores a variable number of samples per pixel, which this
    /// subsystem does not decode.
    UnsupportedDeepData,
}

} // verus!
