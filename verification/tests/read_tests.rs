use specific_channels::channels::{ChannelDescription, ChannelList, Header};
use specific_channels::decoder::RecursivePixelReader;
use specific_channels::reader::{
    BlockIndex, CollectPixels, TileCoordinates, UncompressedBlock,
};
use specific_channels::sample::{read_sample, read_u16_le, read_u32_le, Sample, SampleType};
use specific_channels::selection::{ChannelSelection, ReadSpecificChannel};
use specific_channels::{Error, Vec2};

fn channel(name: &[u8], sample_type: SampleType) -> ChannelDescription {
    ChannelDescription { name: name.to_vec(), sample_type }
}

fn push_u16_le(bytes: &mut Vec<u8>, v: u16) {
    bytes.push((v & 0xff) as u8);
    bytes.push((v >> 8) as u8);
}

fn push_u32_le(bytes: &mut Vec<u8>, v: u32) {
    bytes.push((v & 0xff) as u8);
    bytes.push(((v >> 8) & 0xff) as u8);
    bytes.push(((v >> 16) & 0xff) as u8);
    bytes.push(((v >> 24) & 0xff) as u8);
}

type Collected = Vec<(usize, usize, Vec<Sample>)>;

fn collect_into_vec(
    selection: ChannelSelection,
) -> CollectPixels<
    ChannelSelection,
    impl Fn(Vec2, Vec<Option<ChannelDescription>>) -> Collected,
    impl Fn(Collected, Vec2, Vec<Sample>) -> Collected,
> {
    selection.collect_pixels(
        |_size: Vec2, _channels: Vec<Option<ChannelDescription>>| Collected::new(),
        |mut storage: Collected, position: Vec2, pixel: Vec<Sample>| {
            storage.push((position.x, position.y, pixel));
            storage
        },
    )
}

#[test]
fn bytes_per_sample_sizes() {
    assert_eq!(SampleType::Half.bytes_per_sample(), 2);
    assert_eq!(SampleType::Float.bytes_per_sample(), 4);
    assert_eq!(SampleType::Uint.bytes_per_sample(), 4);
}

#[test]
fn little_endian_decoding() {
    let bytes = vec![0x01u8, 0x02, 0x03, 0x04, 0x05, 0x06];
    assert_eq!(read_u16_le(&bytes, 0), 0x0201);
    assert_eq!(read_u16_le(&bytes, 4), 0x0605);
    assert_eq!(read_u32_le(&bytes, 1), 0x05040302);
    assert_eq!(
        read_sample(&bytes, 0, SampleType::Half),
        Sample::Half(0x0201)
    );
    assert_eq!(
        read_sample(&bytes, 2, SampleType::Uint),
        Sample::Uint(0x06050403)
    );
    assert_eq!(
        read_sample(&bytes, 2, SampleType::Float),
        Sample::Float(0x06050403)
    );
}

#[test]
fn byte_offsets_follow_header_order() {
    let list = ChannelList {
        list: vec![
            channel(b"G", SampleType::Half),
            channel(b"R", SampleType::Float),
            channel(b"U", SampleType::Uint),
        ],
    };
    assert_eq!(list.bytes_per_pixel(), 10);
    let (offset, found) = list.find_channel_with_byte_offset(&b"G".to_vec()).unwrap();
    assert_eq!(offset, 0);
    assert_eq!(found.sample_type, SampleType::Half);
    let (offset, _) = list.find_channel_with_byte_offset(&b"R".to_vec()).unwrap();
    assert_eq!(offset, 2);
    let (offset, _) = list.find_channel_with_byte_offset(&b"U".to_vec()).unwrap();
    assert_eq!(offset, 6);
    assert!(list.find_channel_with_byte_offset(&b"Z".to_vec()).is_none());
}

#[test]
fn compilation_keeps_selection_length_and_order() {
    let list = ChannelList {
        list: vec![
            channel(b"A", SampleType::Uint),
            channel(b"B", SampleType::Float),
            channel(b"C", SampleType::Half),
        ],
    };
    let selection = ChannelSelection::Empty
        .required(b"C".to_vec())
        .optional(b"D".to_vec(), Sample::Uint(5))
        .required(b"A".to_vec());
    let decoder = selection.create_recursive_reader(&list).unwrap();
    let descriptions = decoder.get_descriptions();
    assert_eq!(descriptions.len(), 3);
    assert_eq!(descriptions[0].as_ref().unwrap().name, b"C".to_vec());
    assert!(descriptions[1].is_none());
    assert_eq!(descriptions[2].as_ref().unwrap().name, b"A".to_vec());
}

#[test]
fn missing_required_channel_names_it() {
    let list = ChannelList {
        list: vec![channel(b"A", SampleType::Uint)],
    };
    let selection = ChannelSelection::Empty
        .required(b"A".to_vec())
        .required(b"Z".to_vec());
    match selection.create_recursive_reader(&list) {
        Err(Error::MissingChannel(name)) => assert_eq!(name, b"Z".to_vec()),
        other => panic!("expected a missing-channel failure, got {:?}", other),
    }
}

#[test]
fn first_missing_required_channel_wins() {
    let list = ChannelList { list: vec![] };
    let selection = ChannelSelection::Empty
        .required(b"Q".to_vec())
        .required(b"Z".to_vec());
    match selection.create_recursive_reader(&list) {
        Err(Error::MissingChannel(name)) => assert_eq!(name, b"Q".to_vec()),
        other => panic!("expected a missing-channel failure, got {:?}", other),
    }
}

#[test]
fn missing_optional_channel_is_not_an_error() {
    let list = ChannelList {
        list: vec![channel(b"A", SampleType::Uint)],
    };
    let selection = ChannelSelection::Empty
        .required(b"A".to_vec())
        .optional(b"Z".to_vec(), Sample::Half(0x3c00));
    assert!(selection.create_recursive_reader(&list).is_ok());
}

#[test]
fn round_trip_single_block_layer() {
    // One block of 2x2 pixels; header channels R: float, G: half, B: uint.
    let header = Header {
        channels: ChannelList {
            list: vec![
                channel(b"R", SampleType::Float),
                channel(b"G", SampleType::Half),
                channel(b"B", SampleType::Uint),
            ],
        },
        layer_size: Vec2 { x: 2, y: 2 },
        deep: false,
    };
    let r_bits = [1.5f32.to_bits(), 2.5f32.to_bits(), (-1.0f32).to_bits(), 0.25f32.to_bits()];
    let g_bits: [u16; 4] = [0x3c00, 0x4000, 0xbc00, 0x0001];
    let b_vals: [u32; 4] = [7, 9, 0, u32::MAX];
    let mut data = Vec::new();
    for row in 0..2 {
        for x in 0..2 {
            push_u32_le(&mut data, r_bits[row * 2 + x]);
        }
        for x in 0..2 {
            push_u16_le(&mut data, g_bits[row * 2 + x]);
        }
        for x in 0..2 {
            push_u32_le(&mut data, b_vals[row * 2 + x]);
        }
    }
    let selection = ChannelSelection::Empty
        .required(b"R".to_vec())
        .required(b"G".to_vec())
        .required(b"B".to_vec());
    let mut reader = collect_into_vec(selection)
        .create_channels_reader(&header)
        .unwrap();
    let block = UncompressedBlock {
        index: BlockIndex {
            pixel_position: Vec2 { x: 0, y: 0 },
            pixel_size: Vec2 { x: 2, y: 2 },
            level: Vec2 { x: 0, y: 0 },
        },
        data,
    };
    reader.read_block(&header, &block).unwrap();
    let result = reader.into_channels();
    assert_eq!(result.storage.len(), 4);
    for (k, entry) in result.storage.iter().enumerate() {
        let (x, y, pixel) = entry;
        assert_eq!((*x, *y), (k % 2, k / 2));
        assert_eq!(pixel[0], Sample::Float(r_bits[k]));
        assert_eq!(pixel[1], Sample::Half(g_bits[k]));
        assert_eq!(pixel[2], Sample::Uint(b_vals[k]));
    }
    assert_eq!(result.channels.len(), 3);
    assert_eq!(result.channels[0].as_ref().unwrap().name, b"R".to_vec());
    assert_eq!(result.channels[1].as_ref().unwrap().name, b"G".to_vec());
    assert_eq!(result.channels[2].as_ref().unwrap().name, b"B".to_vec());
}

#[test]
fn absent_optional_channel_gets_default_everywhere() {
    // The header holds only "A"; its bytes are the whole block, so the
    // optional channel's samples cannot have been read from anywhere.
    let header = Header {
        channels: ChannelList {
            list: vec![channel(b"A", SampleType::Uint)],
        },
        layer_size: Vec2 { x: 3, y: 1 },
        deep: false,
    };
    let mut data = Vec::new();
    for v in [10u32, 20, 30] {
        push_u32_le(&mut data, v);
    }
    let selection = ChannelSelection::Empty
        .required(b"A".to_vec())
        .optional(b"Z".to_vec(), Sample::Float(4.5f32.to_bits()));
    let mut reader = collect_into_vec(selection)
        .create_channels_reader(&header)
        .unwrap();
    let block = UncompressedBlock {
        index: BlockIndex {
            pixel_position: Vec2 { x: 0, y: 0 },
            pixel_size: Vec2 { x: 3, y: 1 },
            level: Vec2 { x: 0, y: 0 },
        },
        data,
    };
    reader.read_block(&header, &block).unwrap();
    let result = reader.into_channels();
    assert_eq!(result.storage.len(), 3);
    for (k, entry) in result.storage.iter().enumerate() {
        let (_, _, pixel) = entry;
        assert_eq!(pixel[0], Sample::Uint((10 * (k + 1)) as u32));
        assert_eq!(pixel[1], Sample::Float(4.5f32.to_bits()));
    }
    assert!(result.channels[1].is_none());
}

#[test]
fn deep_layer_fails_to_open() {
    let header = Header {
        channels: ChannelList {
            list: vec![channel(b"A", SampleType::Uint)],
        },
        layer_size: Vec2 { x: 1, y: 1 },
        deep: true,
    };
    let selection = ChannelSelection::Empty.required(b"A".to_vec());
    match collect_into_vec(selection).create_channels_reader(&header) {
        Err(Error::UnsupportedDeepData) => {},
        Err(other) => panic!("expected the deep-data failure, got {:?}", other),
        Ok(_) => panic!("expected the deep-data failure, got a reader"),
    }
}

#[test]
fn non_base_resolution_blocks_are_filtered() {
    let header = Header {
        channels: ChannelList {
            list: vec![channel(b"A", SampleType::Uint)],
        },
        layer_size: Vec2 { x: 1, y: 1 },
        deep: false,
    };
    let selection = ChannelSelection::Empty.required(b"A".to_vec());
    let reader = collect_into_vec(selection)
        .create_channels_reader(&header)
        .unwrap();
    let base = TileCoordinates {
        tile_index: Vec2 { x: 0, y: 0 },
        level_index: Vec2 { x: 0, y: 0 },
    };
    let lower = TileCoordinates {
        tile_index: Vec2 { x: 0, y: 0 },
        level_index: Vec2 { x: 1, y: 0 },
    };
    assert!(reader.filter_block((0, &base)));
    assert!(!reader.filter_block((1, &lower)));
    // The driver skips filtered blocks, so storage keeps its initial state.
    let result = reader.into_channels();
    assert!(result.storage.is_empty());
}

#[test]
fn output_field_order_follows_selection_order() {
    // Header order is A then B; selection order is B then A.
    let header = Header {
        channels: ChannelList {
            list: vec![
                channel(b"A", SampleType::Uint),
                channel(b"B", SampleType::Float),
            ],
        },
        layer_size: Vec2 { x: 2, y: 1 },
        deep: false,
    };
    let mut data = Vec::new();
    push_u32_le(&mut data, 7);
    push_u32_le(&mut data, 9);
    push_u32_le(&mut data, 1.5f32.to_bits());
    push_u32_le(&mut data, 2.5f32.to_bits());
    let selection = ChannelSelection::Empty
        .required(b"B".to_vec())
        .required(b"A".to_vec());
    let mut reader = collect_into_vec(selection)
        .create_channels_reader(&header)
        .unwrap();
    let block = UncompressedBlock {
        index: BlockIndex {
            pixel_position: Vec2 { x: 0, y: 0 },
            pixel_size: Vec2 { x: 2, y: 1 },
            level: Vec2 { x: 0, y: 0 },
        },
        data,
    };
    reader.read_block(&header, &block).unwrap();
    let result = reader.into_channels();
    assert_eq!(result.storage.len(), 2);
    let (x, y, pixel) = &result.storage[0];
    assert_eq!((*x, *y), (0, 0));
    assert_eq!(pixel[0], Sample::Float(1.5f32.to_bits()));
    assert_eq!(pixel[1], Sample::Uint(7));
    let (x, y, pixel) = &result.storage[1];
    assert_eq!((*x, *y), (1, 0));
    assert_eq!(pixel[0], Sample::Float(2.5f32.to_bits()));
    assert_eq!(pixel[1], Sample::Uint(9));
}

#[test]
fn block_offset_shifts_pixel_positions() {
    let header = Header {
        channels: ChannelList {
            list: vec![channel(b"A", SampleType::Uint)],
        },
        layer_size: Vec2 { x: 8, y: 8 },
        deep: false,
    };
    let mut data = Vec::new();
    for v in [1u32, 2, 3, 4] {
        push_u32_le(&mut data, v);
    }
    let selection = ChannelSelection::Empty.required(b"A".to_vec());
    let mut reader = collect_into_vec(selection)
        .create_channels_reader(&header)
        .unwrap();
    let block = UncompressedBlock {
        index: BlockIndex {
            pixel_position: Vec2 { x: 4, y: 6 },
            pixel_size: Vec2 { x: 2, y: 2 },
            level: Vec2 { x: 0, y: 0 },
        },
        data,
    };
    reader.read_block(&header, &block).unwrap();
    let result = reader.into_channels();
    let positions: Vec<(usize, usize)> =
        result.storage.iter().map(|(x, y, _)| (*x, *y)).collect();
    assert_eq!(positions, vec![(4, 6), (5, 6), (4, 7), (5, 7)]);
}

#[test]
fn present_optional_channel_reads_its_data() {
    let header = Header {
        channels: ChannelList {
            list: vec![
                channel(b"A", SampleType::Uint),
                channel(b"Z", SampleType::Uint),
            ],
        },
        layer_size: Vec2 { x: 2, y: 1 },
        deep: false,
    };
    let mut data = Vec::new();
    push_u32_le(&mut data, 1);
    push_u32_le(&mut data, 2);
    push_u32_le(&mut data, 100);
    push_u32_le(&mut data, 200);
    let selection = ChannelSelection::Empty
        .required(b"A".to_vec())
        .optional(b"Z".to_vec(), Sample::Uint(0));
    let mut reader = collect_into_vec(selection)
        .create_channels_reader(&header)
        .unwrap();
    let block = UncompressedBlock {
        index: BlockIndex {
            pixel_position: Vec2 { x: 0, y: 0 },
            pixel_size: Vec2 { x: 2, y: 1 },
            level: Vec2 { x: 0, y: 0 },
        },
        data,
    };
    reader.read_block(&header, &block).unwrap();
    let result = reader.into_channels();
    assert_eq!(result.channels[1].as_ref().unwrap().name, b"Z".to_vec());
    assert_eq!(result.storage[0].2, vec![Sample::Uint(1), Sample::Uint(100)]);
    assert_eq!(result.storage[1].2, vec![Sample::Uint(2), Sample::Uint(200)]);
}

#[test]
fn default_sample_is_float_zero() {
    assert_eq!(Sample::default(), Sample::Float(0));
}

#[test]
fn blocks_share_one_compiled_decoder() {
    // Two blocks of the same layer decode through the same compiled chain;
    // blocks contribute data, never configuration.
    let header = Header {
        channels: ChannelList {
            list: vec![channel(b"A", SampleType::Uint)],
        },
        layer_size: Vec2 { x: 2, y: 2 },
        deep: false,
    };
    let selection = ChannelSelection::Empty.required(b"A".to_vec());
    let mut reader = collect_into_vec(selection)
        .create_channels_reader(&header)
        .unwrap();
    for (row, values) in [(0usize, [1u32, 2]), (1usize, [3u32, 4])] {
        let mut data = Vec::new();
        for v in values {
            push_u32_le(&mut data, v);
        }
        let block = UncompressedBlock {
            index: BlockIndex {
                pixel_position: Vec2 { x: 0, y: row },
                pixel_size: Vec2 { x: 2, y: 1 },
                level: Vec2 { x: 0, y: 0 },
            },
            data,
        };
        reader.read_block(&header, &block).unwrap();
    }
    let result = reader.into_channels();
    let seen: Vec<(usize, usize, u32)> = result
        .storage
        .iter()
        .map(|(x, y, pixel)| match pixel[0] {
            Sample::Uint(v) => (*x, *y, v),
            _ => panic!("expected an integer sample"),
        })
        .collect();
    assert_eq!(seen, vec![(0, 0, 1), (1, 0, 2), (0, 1, 3), (1, 1, 4)]);
}

#[test]
fn empty_selection_still_visits_every_pixel() {
    // With nothing selected, no channel bytes are read, but the set-pixel
    // callback still sees every pixel once, with an empty sample list.
    let header = Header {
        channels: ChannelList {
            list: vec![channel(b"A", SampleType::Uint)],
        },
        layer_size: Vec2 { x: 2, y: 2 },
        deep: false,
    };
    let mut data = Vec::new();
    for v in [1u32, 2, 3, 4] {
        push_u32_le(&mut data, v);
    }
    let mut reader = collect_into_vec(ChannelSelection::Empty)
        .create_channels_reader(&header)
        .unwrap();
    let block = UncompressedBlock {
        index: BlockIndex {
            pixel_position: Vec2 { x: 0, y: 0 },
            pixel_size: Vec2 { x: 2, y: 2 },
            level: Vec2 { x: 0, y: 0 },
        },
        data,
    };
    reader.read_block(&header, &block).unwrap();
    let result = reader.into_channels();
    assert!(result.channels.is_empty());
    assert_eq!(result.storage.len(), 4);
    for (_, _, pixel) in &result.storage {
        assert!(pixel.is_empty());
    }
}
