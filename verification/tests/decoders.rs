use flate2::{Compress, Compression, FlushCompress};
use webvnc::decoder::tight::{
    TightBlock, TightData, TightDecoder, TightError, TightPhase, TightStep,
};
use webvnc::decoder::zrle::{self, ZrleDecoder, ZrleError};
use webvnc::decoder::{copy_rect, raw};
use webvnc::types::{ImageData, ImageType, PixelFormat, VncRect};
use webvnc::zlib::{InflateError, ZlibStream};

fn rect(x: u16, y: u16, width: u16, height: u16) -> VncRect {
    VncRect { x, y, width, height, encoding_type: 0 }
}

fn format(bits: u8, big_endian: u8, shifts: (u8, u8, u8)) -> PixelFormat {
    PixelFormat {
        bits_per_pixel: bits,
        depth: 24,
        big_endian_flag: big_endian,
        true_color_flag: 1,
        red_max: 255,
        green_max: 255,
        blue_max: 255,
        red_shift: shifts.0,
        green_shift: shifts.1,
        blue_shift: shifts.2,
        padding_1: 0,
        padding_2: 0,
        padding_3: 0,
    }
}

fn high_format() -> PixelFormat {
    format(32, 0, (24, 16, 8))
}

fn deflate(stream: &mut Compress, data: &[u8]) -> Vec<u8> {
    let mut out = Vec::with_capacity(data.len() + 64);
    stream.compress_vec(data, &mut out, FlushCompress::Sync).unwrap();
    out
}

fn tight_next(step: Result<TightStep, TightError>) -> TightPhase {
    match step {
        Ok(TightStep::Next(p)) => p,
        other => panic!("expected a next phase, got {:?}", other),
    }
}

fn tight_done(step: Result<TightStep, TightError>) -> ImageData {
    match step {
        Ok(TightStep::Done(i)) => i,
        other => panic!("expected a fragment, got {:?}", other),
    }
}

fn tight_error(step: Result<TightStep, TightError>) -> TightError {
    match step {
        Err(e) => e,
        other => panic!("expected an error, got {:?}", other),
    }
}

#[test]
fn raw_swaps_blue_and_red_and_sets_alpha() {
    let r = rect(3, 4, 2, 2);
    let data = vec![1, 2, 3, 4, 5, 6, 7, 8, 9, 10, 11, 12, 13, 14, 15, 16];
    let image = raw::decode(&r, data);
    assert_eq!(
        image,
        ImageData {
            type_: ImageType::Raw,
            x: 3,
            y: 4,
            width: 2,
            height: 2,
            data: vec![3, 2, 1, 255, 7, 6, 5, 255, 11, 10, 9, 255, 15, 14, 13, 255],
        }
    );
}

#[test]
fn raw_leaves_a_last_partial_group_alone() {
    let image = raw::decode(&rect(0, 0, 1, 1), vec![1, 2, 3, 4, 5, 6]);
    assert_eq!(image.data, vec![3, 2, 1, 255, 5, 6]);
    assert_eq!(raw::decode(&rect(0, 0, 0, 0), Vec::new()).data, Vec::<u8>::new());
}

#[test]
fn raw_needs_width_times_height_times_bytes_per_pixel() {
    assert_eq!(raw::required(&high_format(), &rect(0, 0, 2, 2)), 16);
    assert_eq!(raw::required(&format(16, 0, (11, 5, 0)), &rect(0, 0, 3, 5)), 30);
    assert_eq!(raw::required(&format(8, 0, (0, 0, 0)), &rect(0, 0, 0, 9)), 0);
    assert_eq!(
        raw::required(&high_format(), &rect(0, 0, 65535, 65535)),
        65535u64 * 65535 * 4
    );
}

#[test]
fn copy_rect_hands_the_source_on() {
    let image = copy_rect::decode(&rect(1, 2, 30, 40), vec![0, 5, 0, 6]);
    assert_eq!(
        image,
        ImageData {
            type_: ImageType::Copy,
            x: 1,
            y: 2,
            width: 30,
            height: 40,
            data: vec![0, 5, 0, 6],
        }
    );
    assert_eq!(copy_rect::REQUIRED, 4);
}

#[test]
fn tight_fill_gives_one_fragment_with_the_colour() {
    let mut d = TightDecoder::new();
    let r = rect(5, 6, 70, 80);
    let phase = tight_next(d.step(TightPhase::Control, &r, vec![0x80]));
    assert_eq!(phase, TightPhase::Fill);
    assert_eq!(phase.require(), 3);
    let image = tight_done(d.step(phase, &r, vec![10, 20, 30]));
    assert_eq!(
        image,
        ImageData {
            type_: ImageType::Fill,
            x: 5,
            y: 6,
            width: 70,
            height: 80,
            data: vec![10, 20, 30],
        }
    );
}

#[test]
fn tight_short_block_is_sent_plain() {
    let mut d = TightDecoder::new();
    let r = rect(0, 0, 1, 2);
    let phase = tight_next(d.step(TightPhase::Control, &r, vec![0x00]));
    assert_eq!(
        phase,
        TightPhase::Plain { kind: TightData::Rgb { stream: 0 }, len: 6 }
    );
    let image = tight_done(d.step(phase, &r, vec![1, 2, 3, 4, 5, 6]));
    assert_eq!(image.type_, ImageType::Raw);
    assert_eq!(image.data, vec![1, 2, 3, 255, 4, 5, 6, 255]);
}

#[test]
fn tight_long_block_passes_through_its_stream() {
    let mut d = TightDecoder::new();
    let r = rect(0, 0, 2, 2);
    let packed = vec![
        120, 156, 98, 100, 98, 102, 97, 101, 99, 231, 224, 228, 226, 230, 1, 0, 0, 0, 255, 255,
    ];
    let phase = tight_next(d.step(TightPhase::Control, &r, vec![0x20]));
    assert_eq!(phase, TightPhase::Length1 { block: TightBlock::Pixels(TightData::Rgb { stream: 2 }) });
    let phase = tight_next(d.step(phase, &r, vec![20]));
    assert_eq!(
        phase,
        TightPhase::Packed { block: TightBlock::Pixels(TightData::Rgb { stream: 2 }), len: 20 }
    );
    assert_eq!(phase.require(), 20);
    let image = tight_done(d.step(phase, &r, packed));
    assert_eq!(
        image.data,
        vec![1, 2, 3, 255, 4, 5, 6, 255, 7, 8, 9, 255, 10, 11, 12, 255]
    );
}

#[test]
fn tight_streams_keep_their_state_until_reset() {
    let r = rect(0, 0, 2, 2);
    let pixels: Vec<u8> = (1u8..13).collect();
    let mut sender = Compress::new(Compression::default(), true);
    let first = deflate(&mut sender, &pixels);
    let second = deflate(&mut sender, &pixels);
    let mut d = TightDecoder::new();
    for block in [first.clone(), second] {
        let phase = tight_next(d.step(TightPhase::Control, &r, vec![0x10]));
        let phase = tight_next(d.step(phase, &r, vec![block.len() as u8]));
        let image = tight_done(d.step(phase, &r, block));
        assert_eq!(image.data.len(), 16);
        assert_eq!(&image.data[0..4], &[1, 2, 3, 255]);
    }
    // A block from the start of a stream is no continuation of another stream ...
    let phase = tight_next(d.step(TightPhase::Control, &r, vec![0x10]));
    let phase = tight_next(d.step(phase, &r, vec![first.len() as u8]));
    assert!(matches!(
        tight_error(d.step(phase, &r, first.clone())),
        TightError::Inflate(_) | TightError::Size
    ));
    // ... but it is the start of a stream that has been reset.
    let mut d = TightDecoder::new();
    for _ in 0..2 {
        let phase = tight_next(d.step(TightPhase::Control, &r, vec![0x12]));
        let phase = tight_next(d.step(phase, &r, vec![first.len() as u8]));
        let image = tight_done(d.step(phase, &r, first.clone()));
        assert_eq!(&image.data[12..16], &[10, 11, 12, 255]);
    }
}

#[test]
fn tight_block_of_wrong_size_is_refused() {
    let mut sender = Compress::new(Compression::default(), true);
    let short = deflate(&mut sender, &[1, 2, 3, 4, 5, 6, 7, 8, 9, 10, 11]);
    let mut d = TightDecoder::new();
    let r = rect(0, 0, 2, 2);
    let phase = TightPhase::Packed {
        block: TightBlock::Pixels(TightData::Rgb { stream: 0 }),
        len: short.len() as u32,
    };
    assert_eq!(tight_error(d.step(phase, &r, short)), TightError::Size);
    let mut sender = Compress::new(Compression::default(), true);
    let long = deflate(&mut sender, &[0u8; 13]);
    let mut d = TightDecoder::new();
    let phase = TightPhase::Packed {
        block: TightBlock::Pixels(TightData::Rgb { stream: 0 }),
        len: long.len() as u32,
    };
    assert_eq!(
        tight_error(d.step(phase, &r, long)),
        TightError::Inflate(InflateError::TooLong)
    );
    let mut d = TightDecoder::new();
    let phase = TightPhase::Packed { block: TightBlock::Pixels(TightData::Rgb { stream: 0 }), len: 4 };
    assert_eq!(
        tight_error(d.step(phase, &r, vec![1, 2, 3, 4])),
        TightError::Inflate(InflateError::Corrupt)
    );
}

#[test]
fn tight_length_takes_one_to_three_bytes() {
    let mut d = TightDecoder::new();
    let r = rect(0, 0, 1, 1);
    let jpeg = TightBlock::Jpeg;
    let phase = tight_next(d.step(TightPhase::Control, &r, vec![0x90]));
    assert_eq!(phase, TightPhase::Length1 { block: jpeg });
    assert_eq!(
        tight_next(d.step(phase, &r, vec![0x7f])),
        TightPhase::Packed { block: jpeg, len: 127 }
    );
    let phase = tight_next(d.step(phase, &r, vec![0xc8]));
    assert_eq!(phase, TightPhase::Length2 { block: jpeg, low: 72 });
    assert_eq!(
        tight_next(d.step(phase, &r, vec![0x01])),
        TightPhase::Packed { block: jpeg, len: 200 }
    );
    let phase = tight_next(d.step(phase, &r, vec![0x81]));
    assert_eq!(phase, TightPhase::Length3 { block: jpeg, lows: 72 + 128 });
    assert_eq!(
        tight_next(d.step(phase, &r, vec![0x02])),
        TightPhase::Packed { block: jpeg, len: 200 + 2 * 16384 }
    );
    assert_eq!(
        tight_next(d.step(phase, &r, vec![0xff])),
        TightPhase::Packed { block: jpeg, len: 200 + 255 * 16384 }
    );
}

#[test]
fn tight_jpeg_is_handed_on_untouched() {
    let mut d = TightDecoder::new();
    let r = rect(9, 8, 7, 6);
    let phase = TightPhase::Packed { block: TightBlock::Jpeg, len: 5 };
    let image = tight_done(d.step(phase, &r, vec![0xff, 0xd8, 1, 2, 3]));
    assert_eq!(
        image,
        ImageData {
            type_: ImageType::Jpeg,
            x: 9,
            y: 8,
            width: 7,
            height: 6,
            data: vec![0xff, 0xd8, 1, 2, 3],
        }
    );
}

#[test]
fn tight_palette_of_two_colours_is_one_bit_per_pixel() {
    let mut d = TightDecoder::new();
    let r = rect(0, 0, 3, 2);
    let phase = tight_next(d.step(TightPhase::Control, &r, vec![0x40]));
    assert_eq!(phase, TightPhase::Filter { stream: 0 });
    let phase = tight_next(d.step(phase, &r, vec![1]));
    assert_eq!(phase, TightPhase::PaletteSize { stream: 0 });
    let phase = tight_next(d.step(phase, &r, vec![1]));
    assert_eq!(phase, TightPhase::Palette { stream: 0, colors: 2 });
    assert_eq!(phase.require(), 6);
    let phase = tight_next(d.step(phase, &r, vec![255, 0, 0, 0, 0, 255]));
    assert_eq!(
        phase,
        TightPhase::Plain { kind: TightData::Indexed { stream: 0, colors: 2 }, len: 2 }
    );
    let image = tight_done(d.step(phase, &r, vec![0b1010_0000, 0b0100_0000]));
    let red = [255, 0, 0, 255];
    let blue = [0, 0, 255, 255];
    let expected: Vec<u8> = [blue, red, blue, red, blue, red].concat();
    assert_eq!(image.data, expected);
    assert_eq!(image.type_, ImageType::Raw);
}

#[test]
fn tight_palette_of_more_colours_is_one_byte_per_pixel() {
    let mut d = TightDecoder::new();
    let r = rect(0, 0, 2, 1);
    let phase = tight_next(d.step(TightPhase::Control, &r, vec![0x50]));
    assert_eq!(phase, TightPhase::Filter { stream: 1 });
    let phase = tight_next(d.step(phase, &r, vec![1]));
    let phase = tight_next(d.step(phase, &r, vec![2]));
    assert_eq!(phase, TightPhase::Palette { stream: 1, colors: 3 });
    let phase = tight_next(d.step(phase, &r, vec![1, 2, 3, 4, 5, 6, 7, 8, 9]));
    assert_eq!(
        phase,
        TightPhase::Plain { kind: TightData::Indexed { stream: 1, colors: 3 }, len: 2 }
    );
    let image = tight_done(d.step(phase, &r, vec![2, 0]));
    assert_eq!(image.data, vec![7, 8, 9, 255, 1, 2, 3, 255]);
}

#[test]
fn tight_index_beyond_the_palette_is_refused() {
    let mut d = TightDecoder::new();
    let r = rect(0, 0, 2, 1);
    let phase = tight_next(d.step(TightPhase::Palette { stream: 0, colors: 3 }, &r, vec![0; 9]));
    assert_eq!(tight_error(d.step(phase, &r, vec![0, 3])), TightError::PaletteIndex);
    let mut d = TightDecoder::new();
    let phase = tight_next(d.step(TightPhase::Palette { stream: 0, colors: 1 }, &r, vec![0; 3]));
    assert_eq!(
        tight_error(d.step(phase, &r, vec![0b0100_0000])),
        TightError::PaletteIndex
    );
}

#[test]
fn tight_refuses_what_it_does_not_know() {
    let mut d = TightDecoder::new();
    let r = rect(0, 0, 4, 4);
    assert_eq!(tight_error(d.step(TightPhase::Control, &r, vec![0xa0])), TightError::Png);
    assert_eq!(
        tight_error(d.step(TightPhase::Control, &r, vec![0xb0])),
        TightError::Compression
    );
    assert_eq!(
        tight_error(d.step(TightPhase::Control, &r, vec![0xf0])),
        TightError::Compression
    );
    let filter = TightPhase::Filter { stream: 0 };
    assert_eq!(tight_error(d.step(filter, &r, vec![2])), TightError::Gradient);
    assert_eq!(tight_error(d.step(filter, &r, vec![3])), TightError::Filter);
    assert_eq!(
        tight_next(d.step(filter, &r, vec![0])),
        TightPhase::Length1 { block: TightBlock::Pixels(TightData::Rgb { stream: 0 }) }
    );
}

#[test]
fn zlib_stream_inflates_block_after_block() {
    let mut sender = Compress::new(Compression::default(), true);
    let first = deflate(&mut sender, b"hello hello hello");
    let second = deflate(&mut sender, b" and hello again");
    let mut s = ZlibStream::new();
    assert_eq!(s.inflate(&first, 100), Ok(b"hello hello hello".to_vec()));
    assert_eq!(s.inflate(&second, 100), Ok(b" and hello again".to_vec()));
    assert_eq!(s.inflate(&[], 100), Ok(Vec::new()));
    s.reset();
    assert_eq!(s.inflate(&first, 17), Ok(b"hello hello hello".to_vec()));
}

#[test]
fn zlib_stream_inflates_more_than_one_call_holds() {
    let data: Vec<u8> = (0..300_000u32).map(|i| (i % 251) as u8).collect();
    let mut sender = Compress::new(Compression::default(), true);
    let mut packed = Vec::with_capacity(400_000);
    sender.compress_vec(&data, &mut packed, FlushCompress::Sync).unwrap();
    let mut s = ZlibStream::new();
    assert_eq!(s.inflate(&packed, 300_000), Ok(data.clone()));
    s.reset();
    assert_eq!(s.inflate(&packed, 299_999), Err(InflateError::TooLong));
}

#[test]
fn zlib_stream_reports_what_goes_wrong() {
    let mut s = ZlibStream::new();
    assert_eq!(s.inflate(&[1, 2, 3, 4], 10), Err(InflateError::Corrupt));
    let mut sender = Compress::new(Compression::default(), true);
    let mut whole = Vec::with_capacity(100);
    sender.compress_vec(b"abc", &mut whole, FlushCompress::Finish).unwrap();
    let mut s = ZlibStream::new();
    assert_eq!(s.inflate(&whole, 10), Err(InflateError::Ended));
    let mut sender = Compress::new(Compression::default(), true);
    let packed = deflate(&mut sender, b"abcdefghij");
    let mut s = ZlibStream::new();
    assert_eq!(s.inflate(&packed, 9), Err(InflateError::TooLong));
}

#[test]
fn zrle_layout_follows_the_pixel_format() {
    let l = zrle::layout(&high_format()).unwrap();
    assert_eq!((l.bpp, l.cbpp, l.pad), (4, 3, 0));
    let l = zrle::layout(&format(32, 1, (24, 16, 8))).unwrap();
    assert_eq!((l.bpp, l.cbpp, l.pad), (4, 3, 1));
    let l = zrle::layout(&format(32, 0, (16, 8, 0))).unwrap();
    assert_eq!((l.bpp, l.cbpp, l.pad), (4, 3, 1));
    let l = zrle::layout(&format(32, 1, (16, 8, 0))).unwrap();
    assert_eq!((l.bpp, l.cbpp, l.pad), (4, 3, 0));
    let mut deep = format(32, 0, (16, 8, 0));
    deep.depth = 32;
    let l = zrle::layout(&deep).unwrap();
    assert_eq!((l.bpp, l.cbpp, l.pad), (4, 4, 0));
    let l = zrle::layout(&format(16, 0, (11, 5, 0))).unwrap();
    assert_eq!((l.bpp, l.cbpp, l.pad), (2, 2, 0));
    assert_eq!(zrle::layout(&format(7, 0, (0, 0, 0))), None);
    assert_eq!(zrle::layout(&format(40, 0, (0, 0, 0))), None);
    let mut wide = format(32, 0, (40, 8, 0));
    wide.red_max = 0xffff;
    let l = zrle::layout(&wide).unwrap();
    assert_eq!((l.bpp, l.cbpp, l.pad), (4, 3, 1));
}

#[test]
fn zrle_fill_tile_is_clipped_to_the_rectangle() {
    let r = rect(10, 20, 3, 2);
    let images = zrle::decode(&high_format(), &r, &[0x01, 10, 20, 30]).unwrap();
    let pixel = [30u8, 20, 10, 255];
    assert_eq!(
        images,
        vec![ImageData {
            type_: ImageType::Raw,
            x: 10,
            y: 20,
            width: 3,
            height: 2,
            data: [pixel; 6].concat(),
        }]
    );
}

#[test]
fn zrle_pads_the_byte_that_is_not_sent() {
    let r = rect(0, 0, 1, 1);
    let images = zrle::decode(&format(32, 0, (16, 8, 0)), &r, &[0x01, 10, 20, 30]).unwrap();
    assert_eq!(images[0].data, vec![20, 10, 255, 30]);
    let images = zrle::decode(&format(16, 0, (11, 5, 0)), &r, &[0x00, 10, 20]).unwrap();
    assert_eq!(images[0].data, vec![255, 20]);
}

#[test]
fn zrle_plain_tile_lists_its_pixels() {
    let r = rect(0, 0, 2, 1);
    let images = zrle::decode(&high_format(), &r, &[0x00, 1, 2, 3, 4, 5, 6]).unwrap();
    assert_eq!(images.len(), 1);
    assert_eq!(images[0].data, vec![3, 2, 1, 255, 6, 5, 4, 255]);
}

#[test]
fn zrle_packed_tile_rows_end_with_their_byte() {
    let r = rect(0, 0, 3, 2);
    let data = [0x02, 1, 2, 3, 4, 5, 6, 0b1010_0000, 0b0100_0000];
    let images = zrle::decode(&high_format(), &r, &data).unwrap();
    let a = [3u8, 2, 1, 255];
    let b = [6u8, 5, 4, 255];
    assert_eq!(images[0].data, [b, a, b, a, b, a].concat());
    // Four entries: two bits for each index.
    let r = rect(0, 0, 5, 1);
    let data = [
        0x04, 1, 1, 1, 2, 2, 2, 3, 3, 3, 4, 4, 4, 0b00_01_10_11, 0b10_000000,
    ];
    let images = zrle::decode(&high_format(), &r, &data).unwrap();
    let entry = |v: u8| [v, v, v, 255];
    assert_eq!(
        images[0].data,
        [entry(1), entry(2), entry(3), entry(4), entry(3)].concat()
    );
    // Five entries: four bits for each index.
    let r = rect(0, 0, 3, 1);
    let data = [
        0x05, 1, 1, 1, 2, 2, 2, 3, 3, 3, 4, 4, 4, 5, 5, 5, 0x40, 0x20,
    ];
    let images = zrle::decode(&high_format(), &r, &data).unwrap();
    assert_eq!(images[0].data, [entry(5), entry(1), entry(3)].concat());
}

#[test]
fn zrle_plain_runs_repeat_a_pixel() {
    let r = rect(0, 0, 3, 2);
    let data = [0x80, 1, 2, 3, 1, 4, 5, 6, 3];
    let images = zrle::decode(&high_format(), &r, &data).unwrap();
    let a = [3u8, 2, 1, 255];
    let b = [6u8, 5, 4, 255];
    assert_eq!(images[0].data, [a, a, b, b, b, b].concat());
}

#[test]
fn zrle_run_length_goes_on_after_255() {
    let r = rect(0, 0, 64, 5);
    let data = [0x80, 1, 2, 3, 255, 64];
    let images = zrle::decode(&high_format(), &r, &data).unwrap();
    assert_eq!(images[0].data.len(), 320 * 4);
    assert_eq!(&images[0].data[1276..1280], &[3, 2, 1, 255]);
    let data = [0x80, 1, 2, 3, 255, 0, 9, 9, 9, 63];
    let images = zrle::decode(&high_format(), &r, &data).unwrap();
    assert_eq!(&images[0].data[255 * 4..256 * 4], &[3, 2, 1, 255]);
    assert_eq!(&images[0].data[256 * 4..257 * 4], &[9, 9, 9, 255]);
}

#[test]
fn zrle_palette_runs_repeat_an_entry() {
    let r = rect(0, 0, 3, 2);
    let data = [0x82, 1, 2, 3, 4, 5, 6, 0x00, 0x81, 3, 0x00];
    let images = zrle::decode(&high_format(), &r, &data).unwrap();
    let a = [3u8, 2, 1, 255];
    let b = [6u8, 5, 4, 255];
    assert_eq!(images[0].data, [a, b, b, b, b, a].concat());
}

#[test]
fn zrle_tiles_come_row_by_row() {
    let r = rect(100, 200, 65, 66);
    let data = [
        0x01, 1, 1, 1, 0x01, 2, 2, 2, 0x01, 3, 3, 3, 0x01, 4, 4, 4,
    ];
    let images = zrle::decode(&high_format(), &r, &data).unwrap();
    let places: Vec<(u16, u16, u16, u16, u8)> = images
        .iter()
        .map(|i| (i.x, i.y, i.width, i.height, i.data[0]))
        .collect();
    assert_eq!(
        places,
        vec![
            (100, 200, 64, 64, 1),
            (164, 200, 1, 64, 2),
            (100, 264, 64, 2, 3),
            (164, 264, 1, 2, 4),
        ]
    );
    assert_eq!(images[0].data.len(), 64 * 64 * 4);
    assert_eq!(images[3].data.len(), 2 * 4);
}

#[test]
fn zrle_rectangle_without_pixels_has_no_tiles() {
    assert_eq!(zrle::decode(&high_format(), &rect(0, 0, 0, 5), &[]), Ok(Vec::new()));
    assert_eq!(zrle::decode(&high_format(), &rect(0, 0, 5, 0), &[]), Ok(Vec::new()));
    assert_eq!(
        zrle::decode(&high_format(), &rect(0, 0, 0, 0), &[0]),
        Err(ZrleError::Leftover)
    );
}

#[test]
fn zrle_refuses_malformed_tiles() {
    let f = high_format();
    let one = rect(0, 0, 1, 1);
    assert_eq!(zrle::decode(&f, &one, &[]), Err(ZrleError::Truncated));
    assert_eq!(zrle::decode(&f, &one, &[0x00, 1, 2]), Err(ZrleError::Truncated));
    assert_eq!(zrle::decode(&f, &one, &[0x01, 1, 2]), Err(ZrleError::Truncated));
    assert_eq!(zrle::decode(&f, &one, &[0x80, 1, 2, 3]), Err(ZrleError::Truncated));
    assert_eq!(zrle::decode(&f, &one, &[0x80, 1, 2, 3, 255]), Err(ZrleError::Truncated));
    assert_eq!(
        zrle::decode(&f, &one, &[0x02, 1, 2, 3, 4, 5, 6]),
        Err(ZrleError::Truncated)
    );
    assert_eq!(
        zrle::decode(&f, &one, &[0x81, 1, 2, 3]),
        Err(ZrleError::Subencoding)
    );
    let mut seventeen = vec![17u8];
    seventeen.extend(vec![0u8; 17 * 3]);
    assert_eq!(zrle::decode(&f, &one, &seventeen), Err(ZrleError::Subencoding));
    assert_eq!(
        zrle::decode(&f, &one, &[0x80, 1, 2, 3, 1]),
        Err(ZrleError::RunTooLong)
    );
    assert_eq!(
        zrle::decode(&f, &one, &[0x82, 1, 2, 3, 4, 5, 6, 0x81, 1]),
        Err(ZrleError::RunTooLong)
    );
    assert_eq!(
        zrle::decode(&f, &one, &[0x82, 1, 2, 3, 4, 5, 6, 0x02]),
        Err(ZrleError::PaletteIndex)
    );
    assert_eq!(
        zrle::decode(&f, &one, &[0x03, 1, 2, 3, 4, 5, 6, 7, 8, 9, 0b1100_0000]),
        Err(ZrleError::PaletteIndex)
    );
    assert_eq!(
        zrle::decode(&f, &one, &[0x01, 1, 2, 3, 0]),
        Err(ZrleError::Leftover)
    );
    assert_eq!(
        zrle::decode(&format(0, 0, (0, 0, 0)), &one, &[0x01]),
        Err(ZrleError::Format)
    );
    assert_eq!(
        zrle::decode(&f, &rect(65535, 0, 2, 1), &[0x01, 1, 2, 3]),
        Err(ZrleError::OutOfRange)
    );
    assert_eq!(
        zrle::decode(&f, &rect(0, 65530, 1, 7), &[0x01, 1, 2, 3]),
        Err(ZrleError::OutOfRange)
    );
}

#[test]
fn zrle_decoder_inflates_with_one_stream() {
    let mut sender = Compress::new(Compression::default(), true);
    let first = deflate(&mut sender, &[0x01, 10, 20, 30]);
    let second = deflate(&mut sender, &[0x00, 1, 2, 3, 4, 5, 6]);
    let mut d = ZrleDecoder::new();
    let f = high_format();
    let images = d.decode(&f, &rect(0, 0, 2, 2), &first).unwrap();
    assert_eq!(images[0].data, [[30u8, 20, 10, 255]; 4].concat());
    let images = d.decode(&f, &rect(4, 0, 2, 1), &second).unwrap();
    assert_eq!(images[0].data, vec![3, 2, 1, 255, 6, 5, 4, 255]);
    assert_eq!(images[0].x, 4);
    let mut d = ZrleDecoder::new();
    assert_eq!(
        d.decode(&f, &rect(0, 0, 1, 1), &vec![9, 9, 9]),
        Err(ZrleError::Inflate(InflateError::Corrupt))
    );
}

#[test]
fn zrle_limit_grows_with_the_tiles() {
    assert_eq!(zrle::limit(&rect(0, 0, 0, 0)), 0);
    assert_eq!(zrle::limit(&rect(0, 0, 1, 1)), 20989);
    assert_eq!(zrle::limit(&rect(0, 0, 64, 64)), 20989);
    assert_eq!(zrle::limit(&rect(0, 0, 65, 64)), 2 * 20989);
    assert_eq!(zrle::limit(&rect(0, 0, 129, 65)), 6 * 20989);
}
