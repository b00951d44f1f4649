//! Tight: a rectangle is sent as one colour, as a JPEG image, or as pixels or
//! palette indices that may pass through one of four zlib streams. The decoder
//! takes a rectangle in steps; each step needs a number of bytes that the step
//! before it has fixed.

use vstd::prelude::*;
use crate::decoder::indexed::{packed_rows, read_rows};
use crate::types::{ImageData, ImageType, ImageView, VncRect};
use crate::zlib::{InflateCall, InflateError, ZlibStream, inflate_run};

verus! {

/// Why a Tight rectangle cannot be decoded.
#[derive(Clone, Copy, PartialEq, Eq, Structural, Debug)]
pub enum TightError {
    /// The rectangle is sent as PNG, which plain Tight does not allow.
    Png,
    /// The control byte names no way of sending a rectangle.
    Compression,
    /// The gradient filter is not implemented.
    Gradient,
    /// The filter byte names no filter.
    Filter,
    /// An index refers to a colour that the palette does not have.
    PaletteIndex,
    /// The block does not have as many bytes as the rectangle needs.
    Size,
    /// The rectangle needs more bytes than this machine can address.
    TooLarge,
    /// The zlib stream refused the block.
    Inflate(InflateError),
}

/// How the pixels of a rectangle are sent, and through which of the four
/// streams they pass if they are compressed.
#[derive(Clone, Copy, PartialEq, Eq, Structural, Debug)]
pub enum TightData {
    /// Three bytes for each pixel: red, green, blue.
    Rgb { stream: u8 },
    /// One index into the palette for each pixel: one bit wide if the palette
    /// has at most two colours, else eight.
    Indexed { stream: u8, colors: u16 },
}

impl TightData {
    /// The stream that the pixels pass through.
    pub open spec fn spec_stream(self) -> u8 {
        match self {
            TightData::Rgb { stream } => stream,
            TightData::Indexed { stream, .. } => stream,
        }
    }

    /// The stream that the pixels pass through.
    pub fn stream(&self) -> (id: u8)
        ensures
            id == self.spec_stream(),
    {
        match self {
            TightData::Rgb { stream } => *stream,
            TightData::Indexed { stream, .. } => *stream,
        }
    }
}

/// What a block that comes behind its length holds.
#[derive(Clone, Copy, PartialEq, Eq, Structural, Debug)]
pub enum TightBlock {
    /// A JPEG image, handed on as it is.
    Jpeg,
    /// Compressed pixels.
    Pixels(TightData),
}

/// Where the decoder stands within a rectangle.
#[derive(Clone, Copy, PartialEq, Eq, Structural, Debug)]
pub enum TightPhase {
    /// The control byte is next.
    Control,
    /// The three bytes of a fill colour are next.
    Fill,
    /// The filter byte is next.
    Filter { stream: u8 },
    /// The number of palette colours, less one, is next.
    PaletteSize { stream: u8 },
    /// The palette is next.
    Palette { stream: u8, colors: u16 },
    /// The first byte of a block's length is next.
    Length1 { block: TightBlock },
    /// The second byte of a block's length is next.
    Length2 { block: TightBlock, low: u8 },
    /// The third byte of a block's length is next.
    Length3 { block: TightBlock, lows: u16 },
    /// Pixels that are too few to be compressed are next.
    Plain { kind: TightData, len: u32 },
    /// A block of the length that was announced is next.
    Packed { block: TightBlock, len: u32 },
}

impl TightPhase {
    /// How many bytes the step at this phase takes.
    pub open spec fn spec_require(self) -> int {
        match self {
            TightPhase::Control => 1,
            TightPhase::Fill => 3,
            TightPhase::Filter { .. } => 1,
            TightPhase::PaletteSize { .. } => 1,
            TightPhase::Palette { colors, .. } => colors * 3,
            TightPhase::Length1 { .. } => 1,
            TightPhase::Length2 { .. } => 1,
            TightPhase::Length3 { .. } => 1,
            TightPhase::Plain { len, .. } => len as int,
            TightPhase::Packed { len, .. } => len as int,
        }
    }

    /// How many bytes the step at this phase takes.
    pub fn require(&self) -> (n: u64)
        ensures
            n == self.spec_require(),
    {
        match self {
            TightPhase::Control => 1,
            TightPhase::Fill => 3,
            TightPhase::Filter { .. } => 1,
            TightPhase::PaletteSize { .. } => 1,
            TightPhase::Palette { colors, .. } => (*colors as u64) * 3,
            TightPhase::Length1 { .. } => 1,
            TightPhase::Length2 { .. } => 1,
            TightPhase::Length3 { .. } => 1,
            TightPhase::Plain { len, .. } => *len as u64,
            TightPhase::Packed { len, .. } => *len as u64,
        }
    }
}

/// How many bits an index has when the palette has `colors` colours.
pub open spec fn index_bits(colors: int) -> int {
    if colors <= 2 {
        1
    } else {
        8
    }
}

/// How many bytes a rectangle's block has once it is inflated.
pub open spec fn expected_len(kind: TightData, rect: VncRect) -> int {
    match kind {
        TightData::Rgb { .. } => rect.width * rect.height * 3,
        TightData::Indexed { colors, .. } => rect.height * ((rect.width * index_bits(colors as int)
            + 7) / 8),
    }
}

/// The phase that takes the block of a rectangle: a block of less than 12
/// bytes is sent as it is, a longer one compressed and behind its length.
pub open spec fn data_phase(kind: TightData, rect: VncRect) -> TightPhase {
    if expected_len(kind, rect) < 12 {
        TightPhase::Plain { kind, len: expected_len(kind, rect) as u32 }
    } else {
        TightPhase::Length1 { block: TightBlock::Pixels(kind) }
    }
}

/// The first `n` pixels of `data`, three bytes each, with an alpha of 255
/// behind each.
pub open spec fn rgba(data: Seq<u8>, n: nat) -> Seq<u8>
    decreases n,
{
    if n == 0 {
        Seq::empty()
    } else {
        rgba(data, (n - 1) as nat) + seq![
            data[3 * (n - 1)],
            data[3 * (n - 1) + 1],
            data[3 * (n - 1) + 2],
            255u8,
        ]
    }
}

pub proof fn lemma_rgba_len(data: Seq<u8>, n: nat)
    ensures
        rgba(data, n).len() == 4 * n,
    decreases n,
{
    if n > 0 {
        lemma_rgba_len(data, (n - 1) as nat);
    }
}

/// The pixels that a rectangle's block stands for, four bytes each.
pub open spec fn block_pixels(kind: TightData, rect: VncRect, palette: Seq<u8>, data: Seq<u8>)
    -> Result<Seq<u8>, TightError> {
    if data.len() != expected_len(kind, rect) {
        Err(TightError::Size)
    } else {
        match kind {
            TightData::Rgb { .. } => Ok(rgba(data, (rect.width * rect.height) as nat)),
            TightData::Indexed { colors, .. } => if colors < 1 || colors > 256 || palette.len()
                != colors * 3 {
                Err(TightError::PaletteIndex)
            } else if rect.width == 0 || rect.height == 0 {
                Ok(Seq::empty())
            } else {
                match packed_rows(
                    data,
                    0,
                    rect.width as nat,
                    rect.height as nat,
                    index_bits(colors as int),
                    rgba(palette, colors as nat),
                    colors as int,
                    4,
                ) {
                    None => Err(TightError::PaletteIndex),
                    Some(pixels) => Ok(pixels),
                }
            },
        }
    }
}

/// The fragment of kind `type_` for the whole of a rectangle.
pub open spec fn whole(rect: VncRect, type_: ImageType, data: Seq<u8>) -> ImageView {
    ImageView { type_, x: rect.x, y: rect.y, width: rect.width, height: rect.height, data }
}

/// The decoder as a mathematical value: what each of its four streams has
/// served, and the palette of the rectangle under way.
pub struct TightView {
    pub s0: Seq<InflateCall>,
    pub s1: Seq<InflateCall>,
    pub s2: Seq<InflateCall>,
    pub s3: Seq<InflateCall>,
    pub palette: Seq<u8>,
}

impl TightView {
    /// A decoder with four fresh streams.
    pub open spec fn fresh() -> TightView {
        TightView {
            s0: Seq::empty(),
            s1: Seq::empty(),
            s2: Seq::empty(),
            s3: Seq::empty(),
            palette: Seq::empty(),
        }
    }

    /// What stream `id` has served.
    pub open spec fn stream(self, id: u8) -> Seq<InflateCall> {
        if id % 4 == 0 {
            self.s0
        } else if id % 4 == 1 {
            self.s1
        } else if id % 4 == 2 {
            self.s2
        } else {
            self.s3
        }
    }

    /// The decoder once stream `id` has served `calls`.
    pub open spec fn with_stream(self, id: u8, calls: Seq<InflateCall>) -> TightView {
        if id % 4 == 0 {
            TightView { s0: calls, ..self }
        } else if id % 4 == 1 {
            TightView { s1: calls, ..self }
        } else if id % 4 == 2 {
            TightView { s2: calls, ..self }
        } else {
            TightView { s3: calls, ..self }
        }
    }

    /// The decoder once the streams that the low four bits of `control` name
    /// are reset.
    pub open spec fn reset_by(self, control: u8) -> TightView {
        TightView {
            s0: if control % 2 == 1 { Seq::empty() } else { self.s0 },
            s1: if control / 2 % 2 == 1 { Seq::empty() } else { self.s1 },
            s2: if control / 4 % 2 == 1 { Seq::empty() } else { self.s2 },
            s3: if control / 8 % 2 == 1 { Seq::empty() } else { self.s3 },
            palette: self.palette,
        }
    }
}

/// What a step hands on: the phase of the next step, or the rectangle's
/// fragment.
#[derive(Debug)]
pub enum TightStep {
    Next(TightPhase),
    Done(ImageData),
}

/// What a step hands on, as a mathematical value.
pub enum TightStepView {
    Next(TightPhase),
    Done(ImageView),
}

impl View for TightStep {
    type V = TightStepView;

    open spec fn view(&self) -> TightStepView {
        match self {
            TightStep::Next(p) => TightStepView::Next(*p),
            TightStep::Done(i) => TightStepView::Done(i@),
        }
    }
}

/// A decoder after a step, and what the step handed on.
pub struct TightOutcome {
    pub decoder: TightView,
    pub result: Result<TightStepView, TightError>,
}

/// The way that the upper four bits of the control byte name.
pub open spec fn control_step(sub: u8, rect: VncRect) -> Result<TightStepView, TightError> {
    if sub == 8 {
        Ok(TightStepView::Next(TightPhase::Fill))
    } else if sub == 9 {
        Ok(TightStepView::Next(TightPhase::Length1 { block: TightBlock::Jpeg }))
    } else if sub == 10 {
        Err(TightError::Png)
    } else if sub < 8 {
        if sub / 4 % 2 == 1 {
            Ok(TightStepView::Next(TightPhase::Filter { stream: sub % 4 }))
        } else {
            Ok(TightStepView::Next(data_phase(TightData::Rgb { stream: sub % 4 }, rect)))
        }
    } else {
        Err(TightError::Compression)
    }
}

/// The filter that a filter byte names.
pub open spec fn filter_step(filter: u8, stream: u8, rect: VncRect) -> Result<
    TightStepView,
    TightError,
> {
    if filter == 0 {
        Ok(TightStepView::Next(data_phase(TightData::Rgb { stream }, rect)))
    } else if filter == 1 {
        Ok(TightStepView::Next(TightPhase::PaletteSize { stream }))
    } else if filter == 2 {
        Err(TightError::Gradient)
    } else {
        Err(TightError::Filter)
    }
}

/// The fragment that a rectangle's block gives.
pub open spec fn block_step(kind: TightData, rect: VncRect, palette: Seq<u8>, data: Seq<u8>)
    -> Result<TightStepView, TightError> {
    match block_pixels(kind, rect, palette, data) {
        Err(e) => Err(e),
        Ok(pixels) => Ok(TightStepView::Done(whole(rect, ImageType::Raw, pixels))),
    }
}

/// The step that a compressed block takes: it passes through its stream,
/// which keeps what it learnt, and must give as many bytes as the rectangle
/// needs.
pub open spec fn packed_step(d: TightView, kind: TightData, rect: VncRect, bytes: Seq<u8>)
    -> TightOutcome {
    if expected_len(kind, rect) >= usize::MAX {
        TightOutcome {
            decoder: TightView { palette: Seq::empty(), ..d },
            result: Err(TightError::TooLarge),
        }
    } else {
        let run = inflate_run(
            d.stream(kind.spec_stream()),
            bytes,
            Seq::empty(),
            expected_len(kind, rect) as nat,
        );
        TightOutcome {
            decoder: TightView {
                palette: Seq::empty(),
                ..d.with_stream(kind.spec_stream(), run.calls)
            },
            result: match run.result {
                Err(e) => Err(TightError::Inflate(e)),
                Ok(data) => block_step(kind, rect, d.palette, data),
            },
        }
    }
}

/// One step of the decoder: `bytes` are the bytes that `phase` takes.
pub open spec fn tight_step(d: TightView, phase: TightPhase, rect: VncRect, bytes: Seq<u8>)
    -> TightOutcome {
    match phase {
        TightPhase::Control => TightOutcome {
            decoder: d.reset_by(bytes[0]),
            result: control_step(bytes[0] / 16, rect),
        },
        TightPhase::Fill => TightOutcome {
            decoder: d,
            result: Ok(TightStepView::Done(whole(rect, ImageType::Fill, bytes))),
        },
        TightPhase::Filter { stream } => TightOutcome {
            decoder: d,
            result: filter_step(bytes[0], stream, rect),
        },
        TightPhase::PaletteSize { stream } => TightOutcome {
            decoder: d,
            result: Ok(
                TightStepView::Next(TightPhase::Palette { stream, colors: (bytes[0] + 1) as u16 }),
            ),
        },
        TightPhase::Palette { stream, colors } => TightOutcome {
            decoder: TightView { palette: bytes, ..d },
            result: Ok(TightStepView::Next(data_phase(TightData::Indexed { stream, colors }, rect))),
        },
        TightPhase::Length1 { block } => TightOutcome {
            decoder: d,
            result: Ok(
                TightStepView::Next(
                    if bytes[0] >= 128 {
                        TightPhase::Length2 { block, low: bytes[0] % 128 }
                    } else {
                        TightPhase::Packed { block, len: bytes[0] as u32 }
                    },
                ),
            ),
        },
        TightPhase::Length2 { block, low } => TightOutcome {
            decoder: d,
            result: Ok(
                TightStepView::Next(
                    if bytes[0] >= 128 {
                        TightPhase::Length3 { block, lows: (low + bytes[0] % 128 * 128) as u16 }
                    } else {
                        TightPhase::Packed { block, len: (low + bytes[0] * 128) as u32 }
                    },
                ),
            ),
        },
        TightPhase::Length3 { block, lows } => TightOutcome {
            decoder: d,
            result: Ok(
                TightStepView::Next(
                    TightPhase::Packed { block, len: (lows + bytes[0] * 16384) as u32 },
                ),
            ),
        },
        TightPhase::Plain { kind, .. } => TightOutcome {
            decoder: TightView { palette: Seq::empty(), ..d },
            result: block_step(kind, rect, d.palette, bytes),
        },
        TightPhase::Packed { block, .. } => match block {
            TightBlock::Jpeg => TightOutcome {
                decoder: d,
                result: Ok(TightStepView::Done(whole(rect, ImageType::Jpeg, bytes))),
            },
            TightBlock::Pixels(kind) => packed_step(d, kind, rect, bytes),
        },
    }
}

/// How many bytes a rectangle's block has once it is inflated.
pub fn expected(kind: TightData, rect: &VncRect) -> (n: u64)
    ensures
        n == expected_len(kind, *rect),
{
    match kind {
        TightData::Rgb { .. } => {
            assert(rect.width * rect.height <= 0xffff * 0xffff) by (nonlinear_arith)
                requires
                    rect.width <= 0xffff,
                    rect.height <= 0xffff,
            ;
            (rect.width as u64) * (rect.height as u64) * 3
        },
        TightData::Indexed { colors, .. } => {
            let k: u64 = if colors <= 2 {
                1
            } else {
                8
            };
            assert(rect.width * k <= 0xffff * 8) by (nonlinear_arith)
                requires
                    rect.width <= 0xffff,
                    k <= 8,
            ;
            let stride: u64 = ((rect.width as u64) * k + 7) / 8;
            assert(rect.height * stride <= 0xffff * 0x1_0000) by (nonlinear_arith)
                requires
                    rect.height <= 0xffff,
                    stride <= 0x1_0000,
            ;
            (rect.height as u64) * stride
        },
    }
}

/// The phase that takes the block of a rectangle.
pub fn first_data_phase(kind: TightData, rect: &VncRect) -> (p: TightPhase)
    ensures
        p == data_phase(kind, *rect),
{
    let n = expected(kind, rect);
    if n < 12 {
        TightPhase::Plain { kind, len: n as u32 }
    } else {
        TightPhase::Length1 { block: TightBlock::Pixels(kind) }
    }
}

/// The first `n` pixels of `data`, with an alpha of 255 behind each.
pub fn expand_rgb(data: &[u8], n: usize) -> (out: Vec<u8>)
    requires
        3 * n <= data@.len(),
    ensures
        out@ == rgba(data@, n as nat),
{
    let mut out: Vec<u8> = Vec::new();
    let mut i: usize = 0;
    assert(data@.len() == data.len());
    while i < n
        invariant
            i <= n,
            data@.len() <= usize::MAX,
            3 * n <= data@.len(),
            out@ == rgba(data@, i as nat),
        decreases n - i,
    {
        let at = 3 * i;
        let ghost before = out@;
        out.push(data[at]);
        out.push(data[at + 1]);
        out.push(data[at + 2]);
        out.push(255);
        assert(out@ =~= before + seq![data@[at as int], data@[at + 1], data@[at + 2], 255u8]);
        i += 1;
    }
    out
}

/// The fragment of kind `type_` for the whole of a rectangle.
fn whole_image(rect: &VncRect, type_: ImageType, data: Vec<u8>) -> (image: ImageData)
    ensures
        image@ == whole(*rect, type_, data@),
{
    ImageData { type_, x: rect.x, y: rect.y, width: rect.width, height: rect.height, data }
}

/// Turns a rectangle's block into its pixels, four bytes each.
pub fn decode_block(kind: TightData, rect: &VncRect, palette: &Vec<u8>, data: &Vec<u8>) -> (r:
    Result<Vec<u8>, TightError>)
    ensures
        match r {
            Ok(v) => block_pixels(kind, *rect, palette@, data@) == Ok::<Seq<u8>, TightError>(v@),
            Err(e) => block_pixels(kind, *rect, palette@, data@) == Err::<Seq<u8>, TightError>(e),
        },
{
    if data.len() as u64 != expected(kind, rect) {
        return Err(TightError::Size);
    }
    match kind {
        TightData::Rgb { .. } => {
            let n = data.len() / 3;
            assert(n == rect.width * rect.height);
            Ok(expand_rgb(data.as_slice(), n))
        },
        TightData::Indexed { colors, .. } => {
            if colors < 1 || colors > 256 || palette.len() != (colors as usize) * 3 {
                return Err(TightError::PaletteIndex);
            }
            if rect.width == 0 || rect.height == 0 {
                return Ok(Vec::new());
            }
            let table = expand_rgb(palette.as_slice(), colors as usize);
            proof {
                lemma_rgba_len(palette@, colors as nat);
            }
            let k: usize = if colors <= 2 {
                1
            } else {
                8
            };
            match read_rows(
                data.as_slice(),
                rect.width as usize,
                rect.height as usize,
                k,
                &table,
                colors as usize,
                4,
            ) {
                None => Err(TightError::PaletteIndex),
                Some(pixels) => Ok(pixels),
            }
        },
    }
}

/// The Tight decoder of a connection: its four zlib streams, which live as
/// long as the connection, and the palette of the rectangle under way.
pub struct TightDecoder {
    z0: ZlibStream,
    z1: ZlibStream,
    z2: ZlibStream,
    z3: ZlibStream,
    palette: Vec<u8>,
}

impl View for TightDecoder {
    type V = TightView;

    closed spec fn view(&self) -> TightView {
        TightView {
            s0: self.z0@,
            s1: self.z1@,
            s2: self.z2@,
            s3: self.z3@,
            palette: self.palette@,
        }
    }
}

impl TightDecoder {
    /// A decoder with four fresh streams.
    pub fn new() -> (d: Self)
        ensures
            d@ == TightView::fresh(),
    {
        TightDecoder {
            z0: ZlibStream::new(),
            z1: ZlibStream::new(),
            z2: ZlibStream::new(),
            z3: ZlibStream::new(),
            palette: Vec::new(),
        }
    }

    /// Passes a compressed block through stream `id`.
    fn inflate_on(&mut self, id: u8, input: &[u8], limit: usize) -> (r: Result<
        Vec<u8>,
        InflateError,
    >)
        requires
            limit < usize::MAX,
        ensures
            final(self)@ == old(self)@.with_stream(
                id,
                inflate_run(old(self)@.stream(id), input@, Seq::empty(), limit as nat).calls,
            ),
            match r {
                Ok(v) => inflate_run(old(self)@.stream(id), input@, Seq::empty(), limit as nat).result
                    == Ok::<Seq<u8>, InflateError>(v@),
                Err(e) => inflate_run(
                    old(self)@.stream(id),
                    input@,
                    Seq::empty(),
                    limit as nat,
                ).result == Err::<Seq<u8>, InflateError>(e),
            },
    {
        if id % 4 == 0 {
            self.z0.inflate(input, limit)
        } else if id % 4 == 1 {
            self.z1.inflate(input, limit)
        } else if id % 4 == 2 {
            self.z2.inflate(input, limit)
        } else {
            self.z3.inflate(input, limit)
        }
    }

    /// Takes the control byte: resets the streams that it names.
    fn reset_streams(&mut self, control: u8)
        ensures
            final(self)@ == old(self)@.reset_by(control),
    {
        if control % 2 == 1 {
            self.z0.reset();
        }
        if control / 2 % 2 == 1 {
            self.z1.reset();
        }
        if control / 4 % 2 == 1 {
            self.z2.reset();
        }
        if control / 8 % 2 == 1 {
            self.z3.reset();
        }
    }

    /// Takes a compressed block of a rectangle.
    fn take_packed(&mut self, kind: TightData, rect: &VncRect, bytes: &Vec<u8>) -> (r: Result<
        TightStep,
        TightError,
    >)
        ensures
            packed_step(old(self)@, kind, *rect, bytes@) == (TightOutcome {
                decoder: final(self)@,
                result: step_view(r),
            }),
    {
        let want = expected(kind, rect);
        if want >= usize::MAX as u64 {
            self.palette.clear();
            return Err(TightError::TooLarge);
        }
        let inflated = self.inflate_on(kind.stream(), bytes.as_slice(), want as usize);
        let r = match inflated {
            Err(e) => Err(TightError::Inflate(e)),
            Ok(data) => match decode_block(kind, rect, &self.palette, &data) {
                Err(e) => Err(e),
                Ok(pixels) => Ok(TightStep::Done(whole_image(rect, ImageType::Raw, pixels))),
            },
        };
        self.palette.clear();
        r
    }

    /// One step of the decoder. `bytes` are the bytes that `phase` takes.
    /// The step hands on the next phase, or the rectangle's one fragment.
    pub fn step(&mut self, phase: TightPhase, rect: &VncRect, bytes: Vec<u8>) -> (r: Result<
        TightStep,
        TightError,
    >)
        requires
            bytes@.len() == phase.spec_require(),
        ensures
            tight_step(old(self)@, phase, *rect, bytes@) == (TightOutcome {
                decoder: final(self)@,
                result: step_view(r),
            }),
    {
        match phase {
            TightPhase::Control => {
                let control = bytes[0];
                self.reset_streams(control);
                let sub = control / 16;
                if sub == 8 {
                    Ok(TightStep::Next(TightPhase::Fill))
                } else if sub == 9 {
                    Ok(TightStep::Next(TightPhase::Length1 { block: TightBlock::Jpeg }))
                } else if sub == 10 {
                    Err(TightError::Png)
                } else if sub < 8 {
                    if sub / 4 % 2 == 1 {
                        Ok(TightStep::Next(TightPhase::Filter { stream: sub % 4 }))
                    } else {
                        Ok(
                            TightStep::Next(
                                first_data_phase(TightData::Rgb { stream: sub % 4 }, rect),
                            ),
                        )
                    }
                } else {
                    Err(TightError::Compression)
                }
            },
            TightPhase::Fill => Ok(TightStep::Done(whole_image(rect, ImageType::Fill, bytes))),
            TightPhase::Filter { stream } => {
                let filter = bytes[0];
                if filter == 0 {
                    Ok(TightStep::Next(first_data_phase(TightData::Rgb { stream }, rect)))
                } else if filter == 1 {
                    Ok(TightStep::Next(TightPhase::PaletteSize { stream }))
                } else if filter == 2 {
                    Err(TightError::Gradient)
                } else {
                    Err(TightError::Filter)
                }
            },
            TightPhase::PaletteSize { stream } => Ok(
                TightStep::Next(TightPhase::Palette { stream, colors: bytes[0] as u16 + 1 }),
            ),
            TightPhase::Palette { stream, colors } => {
                self.palette = bytes;
                Ok(TightStep::Next(first_data_phase(TightData::Indexed { stream, colors }, rect)))
            },
            TightPhase::Length1 { block } => {
                let b = bytes[0];
                if b >= 128 {
                    Ok(TightStep::Next(TightPhase::Length2 { block, low: b % 128 }))
                } else {
                    Ok(TightStep::Next(TightPhase::Packed { block, len: b as u32 }))
                }
            },
            TightPhase::Length2 { block, low } => {
                let b = bytes[0];
                if b >= 128 {
                    Ok(
                        TightStep::Next(
                            TightPhase::Length3 { block, lows: low as u16 + (b % 128) as u16 * 128 },
                        ),
                    )
                } else {
                    Ok(
                        TightStep::Next(
                            TightPhase::Packed { block, len: low as u32 + b as u32 * 128 },
                        ),
                    )
                }
            },
            TightPhase::Length3 { block, lows } => Ok(
                TightStep::Next(
                    TightPhase::Packed { block, len: lows as u32 + bytes[0] as u32 * 16384 },
                ),
            ),
            TightPhase::Plain { kind, .. } => {
                let r = match decode_block(kind, rect, &self.palette, &bytes) {
                    Err(e) => Err(e),
                    Ok(pixels) => Ok(TightStep::Done(whole_image(rect, ImageType::Raw, pixels))),
                };
                self.palette.clear();
                r
            },
            TightPhase::Packed { block, .. } => match block {
                TightBlock::Jpeg => Ok(
                    TightStep::Done(whole_image(rect, ImageType::Jpeg, bytes)),
                ),
                TightBlock::Pixels(kind) => self.take_packed(kind, rect, &bytes),
            },
        }
    }
}

/// What a step handed on, as a mathematical value.
pub open spec fn step_view(r: Result<TightStep, TightError>) -> Result<TightStepView, TightError> {
    match r {
        Ok(s) => Ok(s@),
        Err(e) => Err(e),
    }
}

} // verus!
