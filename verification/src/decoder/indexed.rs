//! Pixels sent as indices into a palette, packed into bytes row by row.

use vstd::prelude::*;

verus! {

/// Entry `idx` of a palette whose entries have `bpp` bytes.
pub open spec fn entry(palette: Seq<u8>, idx: int, bpp: int) -> Seq<u8> {
    palette.subrange(idx * bpp, idx * bpp + bpp)
}

/// The low `k` bits.
pub open spec fn index_mask(k: int) -> u8 {
    if k == 1 {
        1
    } else if k == 2 {
        3
    } else if k == 4 {
        15
    } else {
        255
    }
}

/// How many bytes a row of `w` indices of `k` bits takes: a row ends with its
/// byte.
pub open spec fn row_bytes(w: int, k: int) -> int {
    (w * k + 7) / 8
}

/// Index `x` of the row that starts at `row`: indices stand from the top bit
/// down.
pub open spec fn packed_index(data: Seq<u8>, row: int, x: int, k: int) -> u8 {
    (data[row + (x * k) / 8] >> ((8 - k - (x * k) % 8) as u8)) & index_mask(k)
}

/// The first `n` pixels of a row of packed indices; `None` if one of them
/// refers to an entry that the palette does not have.
pub open spec fn packed_row(
    data: Seq<u8>,
    row: int,
    n: nat,
    k: int,
    palette: Seq<u8>,
    size: int,
    bpp: int,
) -> Option<Seq<u8>>
    decreases n,
{
    if n == 0 {
        Some(Seq::empty())
    } else {
        match packed_row(data, row, (n - 1) as nat, k, palette, size, bpp) {
            None => None,
            Some(s) => if packed_index(data, row, n - 1, k) < size {
                Some(s + entry(palette, packed_index(data, row, n - 1, k) as int, bpp))
            } else {
                None
            },
        }
    }
}

/// The first `rows` rows of a tile of packed indices.
pub open spec fn packed_rows(
    data: Seq<u8>,
    pos: int,
    w: nat,
    rows: nat,
    k: int,
    palette: Seq<u8>,
    size: int,
    bpp: int,
) -> Option<Seq<u8>>
    decreases rows,
{
    if rows == 0 {
        Some(Seq::empty())
    } else {
        match packed_rows(data, pos, w, (rows - 1) as nat, k, palette, size, bpp) {
            None => None,
            Some(s) => match packed_row(
                data,
                pos + (rows - 1) * row_bytes(w as int, k),
                w,
                k,
                palette,
                size,
                bpp,
            ) {
                None => None,
                Some(r) => Some(s + r),
            },
        }
    }
}

pub proof fn lemma_packed_row_stays_none(
    data: Seq<u8>,
    row: int,
    n: nat,
    m: nat,
    k: int,
    palette: Seq<u8>,
    size: int,
    bpp: int,
)
    requires
        n <= m,
        packed_row(data, row, n, k, palette, size, bpp) is None,
    ensures
        packed_row(data, row, m, k, palette, size, bpp) is None,
    decreases m,
{
    if n < m {
        lemma_packed_row_stays_none(data, row, n, (m - 1) as nat, k, palette, size, bpp);
    }
}

pub proof fn lemma_packed_rows_stays_none(
    data: Seq<u8>,
    pos: int,
    w: nat,
    n: nat,
    m: nat,
    k: int,
    palette: Seq<u8>,
    size: int,
    bpp: int,
)
    requires
        n <= m,
        packed_rows(data, pos, w, n, k, palette, size, bpp) is None,
    ensures
        packed_rows(data, pos, w, m, k, palette, size, bpp) is None,
    decreases m,
{
    if n < m {
        lemma_packed_rows_stays_none(data, pos, w, n, (m - 1) as nat, k, palette, size, bpp);
    }
}

/// Where index `x` of a row stands: `bit` bits into the byte that is `x * k / 8`
/// bytes into the row.
spec fn cursor(x: int, k: int, skipped: int, bit: int) -> bool {
    &&& skipped == (x * k) / 8
    &&& bit == (x * k) % 8
    &&& bit + k <= 8
}

proof fn lemma_cursor_start(k: int)
    requires
        k == 1 || k == 2 || k == 4 || k == 8,
    ensures
        cursor(0, k, 0, 0),
{
    assert(0 * k == 0) by (nonlinear_arith);
}

proof fn lemma_cursor_step(x: int, w: int, k: int, skipped: int, bit: int)
    requires
        0 <= x < w,
        k == 1 || k == 2 || k == 4 || k == 8,
        cursor(x, k, skipped, bit),
    ensures
        skipped < row_bytes(w, k),
        bit + k == 8 ==> cursor(x + 1, k, skipped + 1, 0),
        bit + k != 8 ==> cursor(x + 1, k, skipped, bit + k),
{
    assert((x + 1) * k == x * k + k && (x + 1) * k <= w * k && x * k >= 0) by (nonlinear_arith)
        requires
            0 <= x,
            x + 1 <= w,
            k >= 1,
    ;
    let xk = x * k;
    if k == 1 {
        assert((xk + 1) % 8 == if bit + 1 == 8 { 0int } else { bit + 1 });
    } else if k == 2 {
        assert(xk % 2 == 0) by (nonlinear_arith)
            requires
                xk == x * 2,
        ;
        assert((xk + 2) % 8 == if bit + 2 == 8 { 0int } else { bit + 2 });
    } else if k == 4 {
        assert(xk % 4 == 0) by (nonlinear_arith)
            requires
                xk == x * 4,
        ;
        assert((xk + 4) % 8 == if bit + 4 == 8 { 0int } else { bit + 4 });
    } else {
        assert(xk % 8 == 0) by (nonlinear_arith)
            requires
                xk == x * 8,
        ;
    }
}

/// Reads one row of `w` packed palette indices and puts its pixels at the end
/// of `out`. Returns whether every index had its palette entry.
pub fn read_packed_row(
    data: &[u8],
    row: usize,
    w: usize,
    k: usize,
    palette: &Vec<u8>,
    size: usize,
    bpp: usize,
    out: &mut Vec<u8>,
) -> (ok: bool)
    requires
        1 <= w <= 0xffff,
        k == 1 || k == 2 || k == 4 || k == 8,
        1 <= bpp <= 4,
        size <= 256,
        palette@.len() == size * bpp,
        row + row_bytes(w as int, k as int) <= data@.len(),
    ensures
        ok ==> packed_row(data@, row as int, w as nat, k as int, palette@, size as int, bpp as int)
            is Some && final(out)@ == old(out)@ + packed_row(
            data@,
            row as int,
            w as nat,
            k as int,
            palette@,
            size as int,
            bpp as int,
        )->0,
        !ok ==> packed_row(data@, row as int, w as nat, k as int, palette@, size as int, bpp as int)
            is None,
{
    let mask: u8 = if k == 1 {
        1
    } else if k == 2 {
        3
    } else if k == 4 {
        15
    } else {
        255
    };
    assert(data@.len() == data.len());
    let mut x: usize = 0;
    let mut at: usize = row;
    let mut bit: usize = 0;
    proof {
        lemma_cursor_start(k as int);
        assert(old(out)@ + Seq::<u8>::empty() =~= old(out)@);
    }
    while x < w
        invariant
            1 <= w <= 0xffff,
            x <= w,
            k == 1 || k == 2 || k == 4 || k == 8,
            1 <= bpp <= 4,
            size <= 256,
            palette@.len() == size * bpp,
            mask == index_mask(k as int),
            data@.len() <= usize::MAX,
            row + row_bytes(w as int, k as int) <= data@.len(),
            x < w ==> cursor(x as int, k as int, at - row, bit as int),
            row <= at,
            packed_row(data@, row as int, x as nat, k as int, palette@, size as int, bpp as int)
                is Some,
            out@ == old(out)@ + packed_row(
                data@,
                row as int,
                x as nat,
                k as int,
                palette@,
                size as int,
                bpp as int,
            )->0,
        decreases w - x,
    {
        proof {
            lemma_cursor_step(x as int, w as int, k as int, at - row, bit as int);
        }
        let shift: u8 = (8 - k - bit) as u8;
        let idx = ((data[at] >> shift) & mask) as usize;
        assert(idx == packed_index(data@, row as int, x as int, k as int));
        if idx >= size {
            proof {
                assert(packed_row(
                    data@,
                    row as int,
                    (x + 1) as nat,
                    k as int,
                    palette@,
                    size as int,
                    bpp as int,
                ) is None);
                lemma_packed_row_stays_none(
                    data@,
                    row as int,
                    (x + 1) as nat,
                    w as nat,
                    k as int,
                    palette@,
                    size as int,
                    bpp as int,
                );
            }
            return false;
        }
        assert(idx * bpp + bpp <= size * bpp && idx * bpp <= 256 * 4) by (nonlinear_arith)
            requires
                idx < size <= 256,
                1 <= bpp <= 4,
        ;
        let start = idx * bpp;
        let one = vstd::slice::slice_subrange(palette.as_slice(), start, start + bpp);
        let ghost so_far = out@;
        let ghost row_so_far = packed_row(
            data@,
            row as int,
            x as nat,
            k as int,
            palette@,
            size as int,
            bpp as int,
        )->0;
        out.extend_from_slice(one);
        assert(out@ =~= so_far + entry(palette@, idx as int, bpp as int));
        assert(out@ =~= old(out)@ + (row_so_far + entry(palette@, idx as int, bpp as int)));
        bit = bit + k;
        if bit == 8 {
            bit = 0;
            at = at + 1;
        }
        x += 1;
    }
    true
}

/// Reads `h` rows of `w` packed indices. The rows fill `data`.
pub fn read_rows(
    data: &[u8],
    w: usize,
    h: usize,
    k: usize,
    palette: &Vec<u8>,
    size: usize,
    bpp: usize,
) -> (r: Option<Vec<u8>>)
    requires
        1 <= w <= 0xffff,
        h <= 0xffff,
        k == 1 || k == 2 || k == 4 || k == 8,
        1 <= bpp <= 4,
        size <= 256,
        palette@.len() == size * bpp,
        data@.len() == h * row_bytes(w as int, k as int),
    ensures
        match r {
            Some(v) => packed_rows(
                data@,
                0,
                w as nat,
                h as nat,
                k as int,
                palette@,
                size as int,
                bpp as int,
            ) == Some(v@),
            None => packed_rows(
                data@,
                0,
                w as nat,
                h as nat,
                k as int,
                palette@,
                size as int,
                bpp as int,
            ) is None,
        },
{
    assert(w * k <= 0xffff * 8) by (nonlinear_arith)
        requires
            w <= 0xffff,
            k <= 8,
    ;
    let stride: usize = (w * k + 7) / 8;
    assert(data@.len() == data.len());
    let mut out: Vec<u8> = Vec::new();
    let mut y: usize = 0;
    let mut row: usize = 0;
    assert(0 * stride == 0) by (nonlinear_arith);
    while y < h
        invariant
            1 <= w <= 0xffff,
            y <= h <= 0xffff,
            k == 1 || k == 2 || k == 4 || k == 8,
            1 <= bpp <= 4,
            size <= 256,
            palette@.len() == size * bpp,
            stride == row_bytes(w as int, k as int),
            row == y * stride,
            data@.len() <= usize::MAX,
            data@.len() == h * stride,
            packed_rows(data@, 0, w as nat, y as nat, k as int, palette@, size as int, bpp as int)
                == Some(out@),
        decreases h - y,
    {
        assert((y + 1) * stride == y * stride + stride && (y + 1) * stride <= h * stride)
            by (nonlinear_arith)
            requires
                y + 1 <= h,
        ;
        let ok = read_packed_row(data, row, w, k, palette, size, bpp, &mut out);
        if !ok {
            proof {
                assert(packed_rows(
                    data@,
                    0,
                    w as nat,
                    (y + 1) as nat,
                    k as int,
                    palette@,
                    size as int,
                    bpp as int,
                ) is None);
                lemma_packed_rows_stays_none(
                    data@,
                    0,
                    w as nat,
                    (y + 1) as nat,
                    h as nat,
                    k as int,
                    palette@,
                    size as int,
                    bpp as int,
                );
            }
            return None;
        }
        row = row + stride;
        y += 1;
    }
    Some(out)
}

} // verus!
