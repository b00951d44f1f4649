//! Raw: the pixels of a rectangle as the server holds them, row by row.

use vstd::prelude::*;
use crate::types::{ImageData, ImageType, ImageView, PixelFormat, VncRect};

verus! {

/// How many bytes the pixels of a rectangle take.
pub open spec fn spec_required(pf: PixelFormat, rect: VncRect) -> int {
    rect.width * rect.height * (pf.bits_per_pixel / 8)
}

/// How many bytes the pixels of a rectangle take.
pub fn required(pf: &PixelFormat, rect: &VncRect) -> (n: u64)
    ensures
        n == spec_required(*pf, *rect),
{
    assert(rect.width * rect.height <= 0xffff * 0xffff) by (nonlinear_arith)
        requires
            rect.width <= 0xffff,
            rect.height <= 0xffff,
    ;
    let area: u64 = (rect.width as u64) * (rect.height as u64);
    let bytes: u64 = (pf.bits_per_pixel / 8) as u64;
    assert(area * bytes <= 0xffff * 0xffff * 31) by (nonlinear_arith)
        requires
            area <= 0xffff * 0xffff,
            bytes <= 31,
    ;
    area * bytes
}

/// Byte `i` of a block of pixels once blue and red have changed places and
/// alpha is 255, in every whole group of four bytes.
pub open spec fn fixed_byte(data: Seq<u8>, i: int) -> u8 {
    if i / 4 * 4 + 4 > data.len() {
        data[i]
    } else if i % 4 == 0 {
        data[i + 2]
    } else if i % 4 == 2 {
        data[i - 2]
    } else if i % 4 == 3 {
        255u8
    } else {
        data[i]
    }
}

/// A block of pixels in the order blue, green, red, alpha, turned into the
/// order red, green, blue, alpha with alpha 255.
pub open spec fn fixed(data: Seq<u8>) -> Seq<u8> {
    Seq::new(data.len(), |i: int| fixed_byte(data, i))
}

/// The fragment for a rectangle whose pixels are `data`.
pub open spec fn raw_image(rect: VncRect, data: Seq<u8>) -> ImageView {
    ImageView {
        type_: ImageType::Raw,
        x: rect.x,
        y: rect.y,
        width: rect.width,
        height: rect.height,
        data: fixed(data),
    }
}

/// Turns the pixels of a rectangle into its one fragment: blue and red change
/// places and alpha becomes 255, in place.
pub fn decode(rect: &VncRect, data: Vec<u8>) -> (image: ImageData)
    ensures
        image@ == raw_image(*rect, data@),
{
    let mut data = data;
    let ghost sent = data@;
    let groups = data.len() / 4;
    let mut g: usize = 0;
    while g < groups
        invariant
            g <= groups,
            groups == sent.len() / 4,
            sent.len() <= usize::MAX,
            data@.len() == sent.len(),
            forall|i: int| 0 <= i < 4 * g ==> data@[i] == fixed_byte(sent, i),
            forall|i: int| 4 * g <= i < sent.len() ==> data@[i] == sent[i],
        decreases groups - g,
    {
        let at = 4 * g;
        let blue = data[at];
        let red = data[at + 2];
        data[at] = red;
        data[at + 2] = blue;
        data[at + 3] = 255;
        g += 1;
    }
    assert(data@ =~= fixed(sent));
    ImageData {
        type_: ImageType::Raw,
        x: rect.x,
        y: rect.y,
        width: rect.width,
        height: rect.height,
        data,
    }
}

} // verus!
