//! ZRLE: a rectangle is cut into tiles of at most 64 by 64 pixels, and each tile
//! is sent as plain pixels, one colour, packed palette indices or runs. This
//! module reads the tiles out of a rectangle's inflated bytes.

use vstd::prelude::*;
use crate::decoder::indexed::{entry, packed_rows, read_packed_row, row_bytes, lemma_packed_rows_stays_none};
use crate::types::{ImageData, ImageType, ImageView, PixelFormat, VncRect, images_view};
use crate::zlib::{InflateCall, InflateError, ZlibStream, inflate_run};

verus! {

/// Why the inflated bytes of a rectangle are not a valid run of tiles.
#[derive(Clone, Copy, PartialEq, Eq, Structural, Debug)]
pub enum ZrleError {
    /// The pixel format has less than one or more than four bytes per pixel.
    Format,
    /// The rectangle reaches beyond what 16-bit coordinates can address.
    OutOfRange,
    /// The bytes end in the middle of a tile.
    Truncated,
    /// A tile announces a sub-encoding that does not exist.
    Subencoding,
    /// A tile refers to a palette entry that it did not send.
    PaletteIndex,
    /// A run is longer than what is left of its tile.
    RunTooLong,
    /// Bytes are left over behind the last tile.
    Leftover,
    /// The zlib stream refused the rectangle's block.
    Inflate(InflateError),
}

/// How pixels are laid out in the inflated bytes and in the fragments.
#[derive(Clone, Copy, PartialEq, Eq, Structural, Debug)]
pub struct Layout {
    /// Bytes per pixel in a fragment.
    pub bpp: usize,
    /// Bytes per pixel in the inflated bytes.
    pub cbpp: usize,
    /// How many bytes are left out in front of a pixel's bytes.
    pub pad: usize,
}

impl Layout {
    /// A layout that a pixel format can give.
    pub open spec fn ok(self) -> bool {
        &&& 1 <= self.bpp <= 4
        &&& 1 <= self.cbpp <= self.bpp
        &&& self.pad + self.cbpp <= 4
    }
}

/// The bits of a pixel value that one colour channel occupies.
pub open spec fn channel_bits(max: u16, shift: u8) -> u32 {
    if shift < 32 {
        (max as u32) << (shift as u32)
    } else {
        0
    }
}

/// The bits of a pixel value that carry colour.
pub open spec fn pixel_mask(pf: PixelFormat) -> u32 {
    channel_bits(pf.red_max, pf.red_shift) | channel_bits(pf.green_max, pf.green_shift)
        | channel_bits(pf.blue_max, pf.blue_shift)
}

/// The layout for a pixel format: a 32-bit true-colour pixel of depth 24 or
/// less is sent as three bytes, without the byte that carries no colour.
pub open spec fn spec_layout(pf: PixelFormat) -> Option<Layout> {
    let bpp = (pf.bits_per_pixel / 8) as usize;
    if bpp == 0 || bpp > 4 {
        None
    } else if pf.bits_per_pixel == 32 && pf.true_color_flag > 0 && pf.depth <= 24 {
        if pixel_mask(pf) & 0x0000_00ff == 0 {
            Some(Layout { bpp: 4, cbpp: 3, pad: if pf.big_endian_flag > 0 { 1 } else { 0 } })
        } else if pixel_mask(pf) & 0xff00_0000 == 0 {
            Some(Layout { bpp: 4, cbpp: 3, pad: if pf.big_endian_flag == 0 { 1 } else { 0 } })
        } else {
            Some(Layout { bpp: 4, cbpp: 4, pad: 0 })
        }
    } else {
        Some(Layout { bpp, cbpp: bpp, pad: 0 })
    }
}

fn channel(max: u16, shift: u8) -> (r: u32)
    ensures
        r == channel_bits(max, shift),
{
    if shift < 32 {
        (max as u32) << (shift as u32)
    } else {
        0
    }
}

/// The layout for a pixel format, if it has one.
pub fn layout(pf: &PixelFormat) -> (r: Option<Layout>)
    ensures
        r == spec_layout(*pf),
        r matches Some(l) ==> l.ok(),
{
    let bpp = (pf.bits_per_pixel / 8) as usize;
    if bpp == 0 || bpp > 4 {
        None
    } else if pf.bits_per_pixel == 32 && pf.true_color_flag > 0 && pf.depth <= 24 {
        let mask = channel(pf.red_max, pf.red_shift) | channel(pf.green_max, pf.green_shift)
            | channel(pf.blue_max, pf.blue_shift);
        if mask & 0x0000_00ff == 0 {
            Some(Layout { bpp: 4, cbpp: 3, pad: if pf.big_endian_flag > 0 { 1 } else { 0 } })
        } else if mask & 0xff00_0000 == 0 {
            Some(Layout { bpp: 4, cbpp: 3, pad: if pf.big_endian_flag == 0 { 1 } else { 0 } })
        } else {
            Some(Layout { bpp: 4, cbpp: 4, pad: 0 })
        }
    } else {
        Some(Layout { bpp, cbpp: bpp, pad: 0 })
    }
}

/// What a parser hands on: the bytes it made and where it stopped reading.
pub type Parsed = Result<(Seq<u8>, int), ZrleError>;

/// `r` with `prefix` in front of its bytes.
pub open spec fn after(prefix: Seq<u8>, r: Parsed) -> Parsed {
    match r {
        Ok((s, p)) => Ok((prefix + s, p)),
        Err(e) => Err(e),
    }
}

/// Byte `j` of the four-byte pixel whose sent bytes start at `pos`: a byte
/// that is not sent is 255.
pub open spec fn buf_at(data: Seq<u8>, pos: int, lay: Layout, j: int) -> u8 {
    if lay.pad <= j < lay.pad + lay.cbpp {
        data[pos + j - lay.pad]
    } else {
        255u8
    }
}

/// Red and blue change places.
pub open spec fn swapped(i: int) -> int {
    if i == 0 {
        2
    } else if i == 2 {
        0
    } else {
        i
    }
}

/// The pixel whose sent bytes start at `pos`, as it stands in a fragment.
pub open spec fn cpixel(data: Seq<u8>, pos: int, lay: Layout) -> Seq<u8> {
    Seq::new(lay.bpp as nat, |i: int| buf_at(data, pos, lay, swapped(i)))
}

/// The first `n` pixels sent from `pos` on, as they stand in a fragment.
pub open spec fn pixels_at(data: Seq<u8>, pos: int, n: nat, lay: Layout) -> Seq<u8>
    decreases n,
{
    if n == 0 {
        Seq::empty()
    } else {
        pixels_at(data, pos, (n - 1) as nat, lay) + cpixel(data, pos + (n - 1) * lay.cbpp, lay)
    }
}

/// `n` pixels sent one after the other from `pos` on.
pub open spec fn true_color(data: Seq<u8>, pos: int, n: nat, lay: Layout) -> Parsed {
    if pos + n * lay.cbpp > data.len() {
        Err(ZrleError::Truncated)
    } else {
        Ok((pixels_at(data, pos, n, lay), pos + n * lay.cbpp))
    }
}

/// `pixel`, `n` times.
pub open spec fn repeat(pixel: Seq<u8>, n: nat) -> Seq<u8>
    decreases n,
{
    if n == 0 {
        Seq::empty()
    } else {
        repeat(pixel, (n - 1) as nat) + pixel
    }
}

pub proof fn lemma_pixels_len(data: Seq<u8>, pos: int, n: nat, lay: Layout)
    ensures
        pixels_at(data, pos, n, lay).len() == n * lay.bpp,
    decreases n,
{
    if n > 0 {
        lemma_pixels_len(data, pos, (n - 1) as nat, lay);
        assert(n * lay.bpp == (n - 1) * lay.bpp + lay.bpp) by (nonlinear_arith);
    } else {
        assert(n * lay.bpp == 0) by (nonlinear_arith)
            requires
                n == 0,
        ;
    }
}

/// Puts the pixel whose sent bytes start at `pos` at the end of `out`.
fn push_pixel(data: &[u8], pos: usize, lay: Layout, out: &mut Vec<u8>)
    requires
        lay.ok(),
        pos + lay.cbpp <= data@.len(),
    ensures
        final(out)@ == old(out)@ + cpixel(data@, pos as int, lay),
{
    let mut i: usize = 0;
    assert(data@.len() == data.len());
    while i < lay.bpp
        invariant
            lay.ok(),
            data@.len() <= usize::MAX,
            pos + lay.cbpp <= data@.len(),
            i <= lay.bpp,
            out@ == old(out)@ + cpixel(data@, pos as int, lay).take(i as int),
        decreases lay.bpp - i,
    {
        let j: usize = if i == 0 {
            2
        } else if i == 2 {
            0
        } else {
            i
        };
        let b: u8 = if lay.pad <= j && j < lay.pad + lay.cbpp {
            data[pos + (j - lay.pad)]
        } else {
            255u8
        };
        out.push(b);
        assert(cpixel(data@, pos as int, lay).take(i + 1) =~= cpixel(data@, pos as int, lay).take(
            i as int,
        ).push(b));
        i += 1;
    }
    assert(cpixel(data@, pos as int, lay).take(lay.bpp as int) =~= cpixel(data@, pos as int, lay));
}

/// Reads `n` pixels that are sent one after the other.
fn read_true_color(data: &[u8], pos: usize, n: usize, lay: Layout) -> (r: Result<
    (Vec<u8>, usize),
    ZrleError,
>)
    requires
        lay.ok(),
        pos <= data@.len(),
        n <= 4096,
    ensures
        match r {
            Ok((v, next)) => true_color(data@, pos as int, n as nat, lay) == Ok::<
                (Seq<u8>, int),
                ZrleError,
            >((v@, next as int)) && next <= data@.len(),
            Err(e) => true_color(data@, pos as int, n as nat, lay) == Err::<
                (Seq<u8>, int),
                ZrleError,
            >(e),
        },
{
    assert(n * lay.cbpp <= 4096 * 4) by (nonlinear_arith)
        requires
            n <= 4096,
            lay.cbpp <= 4,
    ;
    if n * lay.cbpp > data.len() - pos {
        return Err(ZrleError::Truncated);
    }
    let mut out: Vec<u8> = Vec::new();
    let mut i: usize = 0;
    let mut p: usize = pos;
    assert(pos + 0 * lay.cbpp == pos) by (nonlinear_arith);
    while i < n
        invariant
            lay.ok(),
            data@.len() <= usize::MAX,
            i <= n <= 4096,
            p == pos + i * lay.cbpp,
            pos + n * lay.cbpp <= data@.len(),
            out@ == pixels_at(data@, pos as int, i as nat, lay),
        decreases n - i,
    {
        assert((i + 1) * lay.cbpp == i * lay.cbpp + lay.cbpp) by (nonlinear_arith);
        assert((i + 1) * lay.cbpp <= n * lay.cbpp) by (nonlinear_arith)
            requires
                i + 1 <= n,
        ;
        push_pixel(data, p, lay, &mut out);
        p = p + lay.cbpp;
        i += 1;
    }
    Ok((out, p))
}

/// Makes `n` copies of `pixel`.
fn fill(pixel: &[u8], n: usize) -> (v: Vec<u8>)
    ensures
        v@ == repeat(pixel@, n as nat),
{
    let mut out: Vec<u8> = Vec::new();
    let mut i: usize = 0;
    while i < n
        invariant
            i <= n,
            out@ == repeat(pixel@, i as nat),
        decreases n - i,
    {
        out.extend_from_slice(pixel);
        assert(out@ =~= repeat(pixel@, i as nat) + pixel@);
        i += 1;
    }
    out
}

/// What follows the first byte of a run length, from `pos` on: the bytes are
/// added up to and with the first that is not 255.
pub open spec fn run_tail(data: Seq<u8>, pos: int) -> Result<(nat, int), ZrleError>
    decreases data.len() - pos,
{
    if pos < 0 || pos >= data.len() {
        Err(ZrleError::Truncated)
    } else if data[pos] == 255 {
        match run_tail(data, pos + 1) {
            Ok((n, p)) => Ok((n + 255, p)),
            Err(e) => Err(e),
        }
    } else {
        Ok((data[pos] as nat, pos + 1))
    }
}

/// `r` with `n` added to its sum.
pub open spec fn plus(n: nat, r: Result<(nat, int), ZrleError>) -> Result<(nat, int), ZrleError> {
    match r {
        Ok((m, p)) => Ok((n + m, p)),
        Err(e) => Err(e),
    }
}

/// Reads a run length. A sum above `cap` is not kept: `None` stands for it.
fn read_run(data: &[u8], pos: usize, cap: usize) -> (r: Result<(Option<usize>, usize), ZrleError>)
    requires
        pos <= data@.len(),
        cap <= 4096,
    ensures
        match r {
            Ok((Some(n), next)) => run_tail(data@, pos as int) == Ok::<(nat, int), ZrleError>(
                (n as nat, next as int),
            ) && n <= cap && pos < next <= data@.len(),
            Ok((None, next)) => run_tail(data@, pos as int) matches Ok((n, p)) && n > cap && p
                == next && pos < next <= data@.len(),
            Err(e) => run_tail(data@, pos as int) == Err::<(nat, int), ZrleError>(e),
        },
{
    let mut p: usize = pos;
    let mut sum: usize = 0;
    let mut over: bool = false;
    let ghost mut exact: nat = 0;
    loop
        invariant
            pos <= p <= data@.len(),
            cap <= 4096,
            run_tail(data@, pos as int) == plus(exact, run_tail(data@, p as int)),
            !over ==> sum == exact && sum <= cap,
            over ==> exact > cap,
        decreases data@.len() - p,
    {
        if p >= data.len() {
            return Err(ZrleError::Truncated);
        }
        let b = data[p];
        if b != 255 {
            if over || (b as usize) > cap - sum {
                return Ok((None, p + 1));
            }
            return Ok((Some(sum + b as usize), p + 1));
        }
        if !over {
            if 255 > cap - sum {
                over = true;
            } else {
                sum = sum + 255;
            }
        }
        proof {
            exact = exact + 255;
        }
        p = p + 1;
    }
}

/// Pixels sent as runs: a pixel, then how many times it stands.
pub open spec fn rle_plain(data: Seq<u8>, pos: int, remaining: nat, lay: Layout) -> Parsed
    decreases remaining,
{
    if remaining == 0 {
        Ok((Seq::empty(), pos))
    } else if pos + lay.cbpp > data.len() {
        Err(ZrleError::Truncated)
    } else {
        match run_tail(data, pos + lay.cbpp) {
            Err(e) => Err(e),
            Ok((extra, next)) => if 1 + extra > remaining {
                Err(ZrleError::RunTooLong)
            } else {
                after(
                    repeat(cpixel(data, pos, lay), 1 + extra),
                    rle_plain(data, next, (remaining - 1 - extra) as nat, lay),
                )
            },
        }
    }
}

/// Reads `count` pixels that are sent as runs.
fn read_rle_plain(data: &[u8], pos: usize, count: usize, lay: Layout) -> (r: Result<
    (Vec<u8>, usize),
    ZrleError,
>)
    requires
        lay.ok(),
        pos <= data@.len(),
        count <= 4096,
    ensures
        match r {
            Ok((v, next)) => rle_plain(data@, pos as int, count as nat, lay) == Ok::<
                (Seq<u8>, int),
                ZrleError,
            >((v@, next as int)) && next <= data@.len(),
            Err(e) => rle_plain(data@, pos as int, count as nat, lay) == Err::<
                (Seq<u8>, int),
                ZrleError,
            >(e),
        },
{
    let mut out: Vec<u8> = Vec::new();
    let mut p: usize = pos;
    let mut left: usize = count;
    while left > 0
        invariant
            lay.ok(),
            p <= data@.len(),
            left <= count <= 4096,
            rle_plain(data@, pos as int, count as nat, lay) == after(
                out@,
                rle_plain(data@, p as int, left as nat, lay),
            ),
        decreases left,
    {
        if lay.cbpp > data.len() - p {
            return Err(ZrleError::Truncated);
        }
        let mut pixel: Vec<u8> = Vec::new();
        push_pixel(data, p, lay, &mut pixel);
        assert(pixel@ =~= cpixel(data@, p as int, lay));
        let (run, next) = match read_run(data, p + lay.cbpp, left - 1) {
            Err(e) => {
                return Err(e);
            },
            Ok(found) => found,
        };
        let extra = match run {
            None => {
                return Err(ZrleError::RunTooLong);
            },
            Some(n) => n,
        };
        let ghost before = out@;
        let run_pixels = fill(pixel.as_slice(), 1 + extra);
        out.extend_from_slice(run_pixels.as_slice());
        proof {
            assert(out@ =~= before + repeat(pixel@, (1 + extra) as nat));
            let rest = rle_plain(data@, next as int, (left - 1 - extra) as nat, lay);
            match rest {
                Ok((s, _)) => {
                    assert(before + (repeat(pixel@, (1 + extra) as nat) + s) =~= out@ + s);
                },
                Err(_) => {},
            }
        }
        left = left - 1 - extra;
        p = next;
    }
    assert(out@ + Seq::<u8>::empty() =~= out@);
    Ok((out, p))
}

/// Pixels sent as runs of palette entries: an index, whose top bit says that a
/// run length follows.
pub open spec fn rle_palette(
    data: Seq<u8>,
    pos: int,
    remaining: nat,
    palette: Seq<u8>,
    size: int,
    bpp: int,
) -> Parsed
    decreases remaining,
{
    if remaining == 0 {
        Ok((Seq::empty(), pos))
    } else if pos < 0 || pos >= data.len() {
        Err(ZrleError::Truncated)
    } else {
        let run = if data[pos] & 0x80 != 0 {
            run_tail(data, pos + 1)
        } else {
            Ok((0nat, pos + 1))
        };
        match run {
            Err(e) => Err(e),
            Ok((extra, next)) => if (data[pos] & 0x7f) >= size {
                Err(ZrleError::PaletteIndex)
            } else if 1 + extra > remaining {
                Err(ZrleError::RunTooLong)
            } else {
                after(
                    repeat(entry(palette, (data[pos] & 0x7f) as int, bpp), 1 + extra),
                    rle_palette(data, next, (remaining - 1 - extra) as nat, palette, size, bpp),
                )
            },
        }
    }
}

/// Reads `count` pixels that are sent as runs of palette entries.
fn read_rle_palette(
    data: &[u8],
    pos: usize,
    count: usize,
    palette: &Vec<u8>,
    size: usize,
    bpp: usize,
) -> (r: Result<(Vec<u8>, usize), ZrleError>)
    requires
        pos <= data@.len(),
        count <= 4096,
        1 <= bpp <= 4,
        size <= 127,
        palette@.len() == size * bpp,
    ensures
        match r {
            Ok((v, next)) => rle_palette(
                data@,
                pos as int,
                count as nat,
                palette@,
                size as int,
                bpp as int,
            ) == Ok::<(Seq<u8>, int), ZrleError>((v@, next as int)) && next <= data@.len(),
            Err(e) => rle_palette(
                data@,
                pos as int,
                count as nat,
                palette@,
                size as int,
                bpp as int,
            ) == Err::<(Seq<u8>, int), ZrleError>(e),
        },
{
    let mut out: Vec<u8> = Vec::new();
    let mut p: usize = pos;
    let mut left: usize = count;
    while left > 0
        invariant
            p <= data@.len(),
            left <= count <= 4096,
            1 <= bpp <= 4,
            size <= 127,
            palette@.len() == size * bpp,
            rle_palette(data@, pos as int, count as nat, palette@, size as int, bpp as int)
                == after(
                out@,
                rle_palette(data@, p as int, left as nat, palette@, size as int, bpp as int),
            ),
        decreases left,
    {
        if p >= data.len() {
            return Err(ZrleError::Truncated);
        }
        let head = data[p];
        let idx = (head & 0x7f) as usize;
        let (extra, next) = if head & 0x80 != 0 {
            match read_run(data, p + 1, left - 1) {
                Err(e) => {
                    return Err(e);
                },
                Ok((None, _)) => {
                    if idx >= size {
                        return Err(ZrleError::PaletteIndex);
                    }
                    return Err(ZrleError::RunTooLong);
                },
                Ok((Some(n), next)) => (n, next),
            }
        } else {
            (0, p + 1)
        };
        if idx >= size {
            return Err(ZrleError::PaletteIndex);
        }
        assert(idx * bpp + bpp <= size * bpp && idx * bpp <= 127 * 4) by (nonlinear_arith)
            requires
                idx < size <= 127,
                1 <= bpp <= 4,
        ;
        let start = idx * bpp;
        let one = vstd::slice::slice_subrange(palette.as_slice(), start, start + bpp);
        assert(one@ == entry(palette@, idx as int, bpp as int));
        let ghost before = out@;
        let run_pixels = fill(one, 1 + extra);
        out.extend_from_slice(run_pixels.as_slice());
        proof {
            assert(out@ =~= before + repeat(one@, (1 + extra) as nat));
            let rest = rle_palette(
                data@,
                next as int,
                (left - 1 - extra) as nat,
                palette@,
                size as int,
                bpp as int,
            );
            match rest {
                Ok((s, _)) => {
                    assert(before + (repeat(one@, (1 + extra) as nat) + s) =~= out@ + s);
                },
                Err(_) => {},
            }
        }
        left = left - 1 - extra;
        p = next;
    }
    assert(out@ + Seq::<u8>::empty() =~= out@);
    Ok((out, p))
}

/// How many bits stand for one palette index when the palette has `size`
/// entries.
pub open spec fn bits_per_index(size: int) -> int {
    if size <= 2 {
        1
    } else if size <= 4 {
        2
    } else {
        4
    }
}

/// A tile of `w` by `h` packed indices.
pub open spec fn packed(
    data: Seq<u8>,
    pos: int,
    w: nat,
    h: nat,
    k: int,
    palette: Seq<u8>,
    size: int,
    bpp: int,
) -> Parsed {
    if pos + h * row_bytes(w as int, k) > data.len() {
        Err(ZrleError::Truncated)
    } else {
        match packed_rows(data, pos, w, h, k, palette, size, bpp) {
            None => Err(ZrleError::PaletteIndex),
            Some(s) => Ok((s, pos + h * row_bytes(w as int, k))),
        }
    }
}

/// Reads a tile of packed palette indices.
fn read_packed(
    data: &[u8],
    pos: usize,
    w: usize,
    h: usize,
    k: usize,
    palette: &Vec<u8>,
    size: usize,
    bpp: usize,
) -> (r: Result<(Vec<u8>, usize), ZrleError>)
    requires
        pos <= data@.len(),
        1 <= w <= 64,
        1 <= h <= 64,
        k == 1 || k == 2 || k == 4,
        1 <= bpp <= 4,
        size <= 127,
        palette@.len() == size * bpp,
    ensures
        match r {
            Ok((v, next)) => packed(
                data@,
                pos as int,
                w as nat,
                h as nat,
                k as int,
                palette@,
                size as int,
                bpp as int,
            ) == Ok::<(Seq<u8>, int), ZrleError>((v@, next as int)) && next <= data@.len(),
            Err(e) => packed(
                data@,
                pos as int,
                w as nat,
                h as nat,
                k as int,
                palette@,
                size as int,
                bpp as int,
            ) == Err::<(Seq<u8>, int), ZrleError>(e),
        },
{
    assert(w * k <= 256) by (nonlinear_arith)
        requires
            w <= 64,
            k <= 4,
    ;
    let stride: usize = (w * k + 7) / 8;
    assert(h * stride <= 64 * 32) by (nonlinear_arith)
        requires
            h <= 64,
            stride <= 32,
    ;
    if h * stride > data.len() - pos {
        return Err(ZrleError::Truncated);
    }
    let mut out: Vec<u8> = Vec::new();
    let mut y: usize = 0;
    let mut row: usize = pos;
    assert(pos + 0 * stride == pos) by (nonlinear_arith);
    while y < h
        invariant
            1 <= w <= 64,
            y <= h <= 64,
            k == 1 || k == 2 || k == 4,
            1 <= bpp <= 4,
            size <= 127,
            palette@.len() == size * bpp,
            stride == row_bytes(w as int, k as int),
            stride <= 32,
            row == pos + y * stride,
            pos + h * stride <= data@.len() <= usize::MAX,
            packed_rows(data@, pos as int, w as nat, y as nat, k as int, palette@, size as int, bpp as int)
                == Some(out@),
        decreases h - y,
    {
        assert((y + 1) * stride == y * stride + stride && (y + 1) * stride <= h * stride)
            by (nonlinear_arith)
            requires
                y + 1 <= h,
        ;
        let ok = read_packed_row(data, row, w, k, palette, size, bpp, &mut out);
        if !ok {
            proof {
                assert(packed_rows(
                    data@,
                    pos as int,
                    w as nat,
                    (y + 1) as nat,
                    k as int,
                    palette@,
                    size as int,
                    bpp as int,
                ) is None);
                lemma_packed_rows_stays_none(
                    data@,
                    pos as int,
                    w as nat,
                    (y + 1) as nat,
                    h as nat,
                    k as int,
                    palette@,
                    size as int,
                    bpp as int,
                );
            }
            return Err(ZrleError::PaletteIndex);
        }
        row = row + stride;
        y += 1;
    }
    Ok((out, row))
}

/// One tile of `w` by `h` pixels, sent from `pos` on: a byte that names the
/// sub-encoding and the size of the palette, the palette, and the pixels.
pub open spec fn tile(data: Seq<u8>, pos: int, w: nat, h: nat, lay: Layout) -> Parsed {
    if pos < 0 || pos >= data.len() {
        Err(ZrleError::Truncated)
    } else {
        let runs = data[pos] & 0x80 != 0;
        let size = data[pos] & 0x7f;
        match true_color(data, pos + 1, size as nat, lay) {
            Err(e) => Err(e),
            Ok((palette, body)) => if !runs && size == 0 {
                true_color(data, body, w * h, lay)
            } else if !runs && size == 1 {
                Ok((repeat(palette, w * h), body))
            } else if !runs && 2 <= size <= 16 {
                packed(
                    data,
                    body,
                    w,
                    h,
                    bits_per_index(size as int),
                    palette,
                    size as int,
                    lay.bpp as int,
                )
            } else if runs && size == 0 {
                rle_plain(data, body, w * h, lay)
            } else if runs && 2 <= size <= 127 {
                rle_palette(data, body, w * h, palette, size as int, lay.bpp as int)
            } else {
                Err(ZrleError::Subencoding)
            },
        }
    }
}

/// Reads one tile of `w` by `h` pixels.
pub fn read_tile(data: &[u8], pos: usize, w: usize, h: usize, lay: Layout) -> (r: Result<
    (Vec<u8>, usize),
    ZrleError,
>)
    requires
        lay.ok(),
        pos <= data@.len(),
        1 <= w <= 64,
        1 <= h <= 64,
    ensures
        match r {
            Ok((v, next)) => tile(data@, pos as int, w as nat, h as nat, lay) == Ok::<
                (Seq<u8>, int),
                ZrleError,
            >((v@, next as int)) && next <= data@.len(),
            Err(e) => tile(data@, pos as int, w as nat, h as nat, lay) == Err::<
                (Seq<u8>, int),
                ZrleError,
            >(e),
        },
{
    if pos >= data.len() {
        return Err(ZrleError::Truncated);
    }
    let head = data[pos];
    let runs = head & 0x80 != 0;
    let size = head & 0x7f;
    assert(size <= 127) by (bit_vector)
        requires
            size == head & 0x7f,
    ;
    assert(w * h <= 4096) by (nonlinear_arith)
        requires
            w <= 64,
            h <= 64,
    ;
    let count = w * h;
    let (palette, body) = match read_true_color(data, pos + 1, size as usize, lay) {
        Err(e) => {
            return Err(e);
        },
        Ok(found) => found,
    };
    proof {
        lemma_pixels_len(data@, pos + 1, size as nat, lay);
    }
    if !runs && size == 0 {
        read_true_color(data, body, count, lay)
    } else if !runs && size == 1 {
        Ok((fill(palette.as_slice(), count), body))
    } else if !runs && 2 <= size && size <= 16 {
        let k: usize = if size <= 2 {
            1
        } else if size <= 4 {
            2
        } else {
            4
        };
        read_packed(data, body, w, h, k, &palette, size as usize, lay.bpp)
    } else if runs && size == 0 {
        read_rle_plain(data, body, count, lay)
    } else if runs && 2 <= size && size <= 127 {
        read_rle_palette(data, body, count, &palette, size as usize, lay.bpp)
    } else {
        Err(ZrleError::Subencoding)
    }
}

/// What reading tiles hands on: the fragments made and where reading stopped.
pub type Tiles = Result<(Seq<ImageView>, int), ZrleError>;

/// `r` with `prefix` in front of its fragments.
pub open spec fn after_tiles(prefix: Seq<ImageView>, r: Tiles) -> Tiles {
    match r {
        Ok((s, p)) => Ok((prefix + s, p)),
        Err(e) => Err(e),
    }
}

/// The width of the tile that starts `x` pixels into a stretch of `total`
/// pixels; the same goes for heights.
pub open spec fn tile_span(total: int, x: int) -> int {
    if x + 64 > total {
        total - x
    } else {
        64
    }
}

/// The fragment for the tile that starts `x` to the right of and `y` below the
/// rectangle's corner.
pub open spec fn tile_image(rect: VncRect, x: int, y: int, pixels: Seq<u8>) -> ImageView {
    ImageView {
        type_: ImageType::Raw,
        x: (rect.x + x) as u16,
        y: (rect.y + y) as u16,
        width: tile_span(rect.width as int, x) as u16,
        height: tile_span(rect.height as int, y) as u16,
        data: pixels,
    }
}

/// The tiles of the row of tiles `y` below the rectangle's top, from the one
/// `x` to the right of its left edge on.
pub open spec fn tile_row(data: Seq<u8>, pos: int, rect: VncRect, lay: Layout, y: int, x: int)
    -> Tiles
    decreases rect.width - x,
{
    if x < 0 || x >= rect.width {
        Ok((Seq::empty(), pos))
    } else {
        match tile(
            data,
            pos,
            tile_span(rect.width as int, x) as nat,
            tile_span(rect.height as int, y) as nat,
            lay,
        ) {
            Err(e) => Err(e),
            Ok((pixels, next)) => after_tiles(
                seq![tile_image(rect, x, y, pixels)],
                tile_row(data, next, rect, lay, y, x + tile_span(rect.width as int, x)),
            ),
        }
    }
}

/// The tiles of the rectangle from the row of tiles `y` below its top on, row
/// by row.
pub open spec fn tile_rows(data: Seq<u8>, pos: int, rect: VncRect, lay: Layout, y: int) -> Tiles
    decreases rect.height - y,
{
    if y < 0 || y >= rect.height {
        Ok((Seq::empty(), pos))
    } else {
        match tile_row(data, pos, rect, lay, y, 0) {
            Err(e) => Err(e),
            Ok((row, next)) => after_tiles(
                row,
                tile_rows(data, next, rect, lay, y + tile_span(rect.height as int, y)),
            ),
        }
    }
}

/// The fragments that the inflated bytes `data` of a rectangle give, one for
/// each tile, row by row.
pub open spec fn zrle_rect(pf: PixelFormat, rect: VncRect, data: Seq<u8>) -> Result<
    Seq<ImageView>,
    ZrleError,
> {
    match spec_layout(pf) {
        None => Err(ZrleError::Format),
        Some(lay) => if rect.x + rect.width > 0x1_0000 || rect.y + rect.height > 0x1_0000 {
            Err(ZrleError::OutOfRange)
        } else {
            match tile_rows(data, 0, rect, lay, 0) {
                Err(e) => Err(e),
                Ok((images, end)) => if end != data.len() {
                    Err(ZrleError::Leftover)
                } else {
                    Ok(images)
                },
            }
        },
    }
}

/// How many tiles lie side by side in a stretch of `total` pixels.
pub open spec fn tiles_in(total: int) -> int {
    (total + 63) / 64
}

proof fn lemma_tile_row_count(data: Seq<u8>, pos: int, rect: VncRect, lay: Layout, y: int, x: int)
    requires
        0 <= x <= rect.width,
    ensures
        tile_row(data, pos, rect, lay, y, x) matches Ok((images, _)) ==> images.len() == tiles_in(
            rect.width - x,
        ),
    decreases rect.width - x,
{
    if x < rect.width {
        let w = tile_span(rect.width as int, x);
        let h = tile_span(rect.height as int, y);
        if let Ok((pixels, next)) = tile(data, pos, w as nat, h as nat, lay) {
            lemma_tile_row_count(data, next, rect, lay, y, x + w);
        }
    }
}

proof fn lemma_tile_rows_count(data: Seq<u8>, pos: int, rect: VncRect, lay: Layout, y: int)
    requires
        0 <= y <= rect.height,
    ensures
        tile_rows(data, pos, rect, lay, y) matches Ok((images, _)) ==> images.len() == tiles_in(
            rect.height - y,
        ) * tiles_in(rect.width as int),
    decreases rect.height - y,
{
    let across = tiles_in(rect.width as int);
    if y < rect.height {
        let h = tile_span(rect.height as int, y);
        lemma_tile_row_count(data, pos, rect, lay, y, 0);
        if let Ok((row, next)) = tile_row(data, pos, rect, lay, y, 0) {
            lemma_tile_rows_count(data, next, rect, lay, y + h);
            let rest = tiles_in(rect.height - y - h);
            assert(tiles_in(rect.height - y) == rest + 1);
            assert((rest + 1) * across == rest * across + across) by (nonlinear_arith);
        }
    } else {
        assert(tiles_in(0) * across == 0) by (nonlinear_arith)
            requires
                tiles_in(0) == 0,
        ;
    }
}

/// A rectangle gives one fragment for each of its tiles.
pub proof fn law_one_fragment_per_tile(pf: PixelFormat, rect: VncRect, data: Seq<u8>)
    ensures
        zrle_rect(pf, rect, data) matches Ok(images) ==> images.len() == tiles_in(
            rect.height as int,
        ) * tiles_in(rect.width as int),
{
    if let Some(lay) = spec_layout(pf) {
        lemma_tile_rows_count(data, 0, rect, lay, 0);
    }
}

/// Reads the row of tiles `y` below the rectangle's top.
fn read_tile_row(data: &[u8], pos: usize, rect: &VncRect, lay: Layout, y: u16) -> (r: Result<
    (Vec<ImageData>, usize),
    ZrleError,
>)
    requires
        lay.ok(),
        pos <= data@.len(),
        y < rect.height,
        rect.x + rect.width <= 0x1_0000,
        rect.y + rect.height <= 0x1_0000,
    ensures
        match r {
            Ok((v, next)) => tile_row(data@, pos as int, *rect, lay, y as int, 0) == Ok::<
                (Seq<ImageView>, int),
                ZrleError,
            >((images_view(v@), next as int)) && next <= data@.len(),
            Err(e) => tile_row(data@, pos as int, *rect, lay, y as int, 0) == Err::<
                (Seq<ImageView>, int),
                ZrleError,
            >(e),
        },
{
    let h: u16 = if rect.height - y < 64 {
        rect.height - y
    } else {
        64
    };
    let mut out: Vec<ImageData> = Vec::new();
    let mut p: usize = pos;
    let mut x: u16 = 0;
    assert(images_view(out@) =~= Seq::<ImageView>::empty());
    while x < rect.width
        invariant
            lay.ok(),
            p <= data@.len(),
            x <= rect.width,
            y < rect.height,
            h == tile_span(rect.height as int, y as int),
            rect.x + rect.width <= 0x1_0000,
            rect.y + rect.height <= 0x1_0000,
            tile_row(data@, pos as int, *rect, lay, y as int, 0) == after_tiles(
                images_view(out@),
                tile_row(data@, p as int, *rect, lay, y as int, x as int),
            ),
        decreases rect.width - x,
    {
        let w: u16 = if rect.width - x < 64 {
            rect.width - x
        } else {
            64
        };
        let (pixels, next) = match read_tile(data, p, w as usize, h as usize, lay) {
            Err(e) => {
                return Err(e);
            },
            Ok(found) => found,
        };
        let ghost before = images_view(out@);
        let ghost one = tile_image(*rect, x as int, y as int, pixels@);
        let image = ImageData {
            type_: ImageType::Raw,
            x: rect.x + x,
            y: rect.y + y,
            width: w,
            height: h,
            data: pixels,
        };
        assert(image@ == one);
        out.push(image);
        proof {
            assert(images_view(out@) =~= before.push(one));
            let rest = tile_row(data@, next as int, *rect, lay, y as int, x + w);
            match rest {
                Ok((s, _)) => {
                    assert(before + (seq![one] + s) =~= before.push(one) + s);
                },
                Err(_) => {},
            }
        }
        x = x + w;
        p = next;
    }
    assert(images_view(out@) + Seq::<ImageView>::empty() =~= images_view(out@));
    Ok((out, p))
}

/// Reads the tiles of a rectangle out of its inflated bytes: one fragment for
/// each tile, row by row. Every byte must belong to a tile.
pub fn decode(format: &PixelFormat, rect: &VncRect, data: &[u8]) -> (r: Result<
    Vec<ImageData>,
    ZrleError,
>)
    ensures
        match r {
            Ok(v) => zrle_rect(*format, *rect, data@) == Ok::<Seq<ImageView>, ZrleError>(
                images_view(v@),
            ),
            Err(e) => zrle_rect(*format, *rect, data@) == Err::<Seq<ImageView>, ZrleError>(e),
        },
{
    let lay = match layout(format) {
        None => {
            return Err(ZrleError::Format);
        },
        Some(l) => l,
    };
    if rect.x as u32 + rect.width as u32 > 0x1_0000 || rect.y as u32 + rect.height as u32
        > 0x1_0000 {
        return Err(ZrleError::OutOfRange);
    }
    let mut out: Vec<ImageData> = Vec::new();
    let mut p: usize = 0;
    let mut y: u16 = 0;
    assert(images_view(out@) =~= Seq::<ImageView>::empty());
    while y < rect.height
        invariant
            lay.ok(),
            p <= data@.len(),
            y <= rect.height,
            spec_layout(*format) == Some(lay),
            rect.x + rect.width <= 0x1_0000,
            rect.y + rect.height <= 0x1_0000,
            tile_rows(data@, 0, *rect, lay, 0) == after_tiles(
                images_view(out@),
                tile_rows(data@, p as int, *rect, lay, y as int),
            ),
        decreases rect.height - y,
    {
        let h: u16 = if rect.height - y < 64 {
            rect.height - y
        } else {
            64
        };
        let (mut row, next) = match read_tile_row(data, p, rect, lay, y) {
            Err(e) => {
                return Err(e);
            },
            Ok(found) => found,
        };
        let ghost before = images_view(out@);
        let ghost row_view = images_view(row@);
        out.append(&mut row);
        proof {
            assert(images_view(out@) =~= before + row_view);
            let rest = tile_rows(data@, next as int, *rect, lay, y + h);
            match rest {
                Ok((s, _)) => {
                    assert(before + (row_view + s) =~= (before + row_view) + s);
                },
                Err(_) => {},
            }
        }
        y = y + h;
        p = next;
    }
    assert(images_view(out@) + Seq::<ImageView>::empty() =~= images_view(out@));
    if p != data.len() {
        return Err(ZrleError::Leftover);
    }
    Ok(out)
}

/// No tile takes more bytes than this: the byte that names its sub-encoding,
/// the largest palette, and a run of length one for each pixel.
pub const TILE_MAX: u64 = 1 + 127 * 4 + 4096 * 5;

/// The most bytes that a rectangle's block may inflate to: what its tiles can
/// take at most, and less than this machine can address.
pub open spec fn inflate_limit(rect: VncRect) -> nat {
    let bound = ((rect.width + 63) / 64) * ((rect.height + 63) / 64) * TILE_MAX;
    if bound >= usize::MAX {
        (usize::MAX - 1) as nat
    } else {
        bound as nat
    }
}

/// The most bytes that a rectangle's block may inflate to.
pub fn limit(rect: &VncRect) -> (n: usize)
    ensures
        n == inflate_limit(*rect),
        n < usize::MAX,
{
    let across: u64 = (rect.width as u64 + 63) / 64;
    let down: u64 = (rect.height as u64 + 63) / 64;
    assert(across * down <= 1024 * 1024) by (nonlinear_arith)
        requires
            across <= 1024,
            down <= 1024,
    ;
    let tiles: u64 = across * down;
    assert(tiles * TILE_MAX <= 1024 * 1024 * 20989) by (nonlinear_arith)
        requires
            tiles <= 1024 * 1024,
            TILE_MAX == 20989,
    ;
    let bound: u64 = tiles * TILE_MAX;
    if bound >= usize::MAX as u64 {
        usize::MAX - 1
    } else {
        bound as usize
    }
}

/// A stream after a rectangle's block, and the fragments that the block gave.
pub struct ZrleOutcome {
    pub calls: Seq<InflateCall>,
    pub result: Result<Seq<ImageView>, ZrleError>,
}

/// What a rectangle's compressed block gives when it passes through a stream
/// that has served `calls`.
pub open spec fn zrle_block(calls: Seq<InflateCall>, pf: PixelFormat, rect: VncRect, bytes: Seq<u8>)
    -> ZrleOutcome {
    let run = inflate_run(calls, bytes, Seq::empty(), inflate_limit(rect));
    ZrleOutcome {
        calls: run.calls,
        result: match run.result {
            Err(e) => Err(ZrleError::Inflate(e)),
            Ok(data) => zrle_rect(pf, rect, data),
        },
    }
}

/// The views of the fragments of a result.
pub open spec fn tiles_view(r: Result<Vec<ImageData>, ZrleError>) -> Result<
    Seq<ImageView>,
    ZrleError,
> {
    match r {
        Ok(v) => Ok(images_view(v@)),
        Err(e) => Err(e),
    }
}

/// The ZRLE decoder of a connection: its one zlib stream, which lives as long
/// as the connection.
pub struct ZrleDecoder {
    stream: ZlibStream,
}

impl View for ZrleDecoder {
    type V = Seq<InflateCall>;

    closed spec fn view(&self) -> Seq<InflateCall> {
        self.stream@
    }
}

impl ZrleDecoder {
    /// A decoder with a fresh stream.
    pub fn new() -> (d: Self)
        ensures
            d@ == Seq::<InflateCall>::empty(),
    {
        ZrleDecoder { stream: ZlibStream::new() }
    }

    /// Takes the compressed block of a rectangle and hands on its fragments,
    /// one for each tile.
    pub fn decode(&mut self, format: &PixelFormat, rect: &VncRect, bytes: &Vec<u8>) -> (r: Result<
        Vec<ImageData>,
        ZrleError,
    >)
        ensures
            zrle_block(old(self)@, *format, *rect, bytes@) == (ZrleOutcome {
                calls: final(self)@,
                result: tiles_view(r),
            }),
    {
        match self.stream.inflate(bytes.as_slice(), limit(rect)) {
            Err(e) => Err(ZrleError::Inflate(e)),
            Ok(data) => decode(format, rect, data.as_slice()),
        }
    }
}

} // verus!
