//! CopyRect: the rectangle is already on screen, at another place.

use vstd::prelude::*;
use crate::types::{ImageData, ImageType, ImageView, VncRect};

verus! {

/// How many bytes name the source: x and y, 16 bits each.
pub const REQUIRED: u64 = 4;

/// The fragment for a rectangle that is copied from the place that `source`
/// names.
pub open spec fn copy_image(rect: VncRect, source: Seq<u8>) -> ImageView {
    ImageView {
        type_: ImageType::Copy,
        x: rect.x,
        y: rect.y,
        width: rect.width,
        height: rect.height,
        data: source,
    }
}

/// Makes the one fragment of a copied rectangle. The bytes that name the
/// source are handed on as they came: moving the pixels is the presentation
/// layer's work.
pub fn decode(rect: &VncRect, source: Vec<u8>) -> (image: ImageData)
    ensures
        image@ == copy_image(*rect, source@),
{
    ImageData {
        type_: ImageType::Copy,
        x: rect.x,
        y: rect.y,
        width: rect.width,
        height: rect.height,
        data: source,
    }
}

} // verus!
