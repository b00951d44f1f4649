//! The values that pass between the engine, its decoders and the host.

use vstd::prelude::*;
use crate::wire::{be16, get_be16};

verus! {

/// What a pointer did.
#[derive(Clone, Copy, PartialEq, Eq, Structural, Debug)]
pub enum MouseEventType {
    Down,
    Up,
    Move,
}

/// How the presentation layer is to use an image fragment's bytes.
#[derive(Clone, Copy, PartialEq, Eq, Structural, Debug)]
pub enum ImageType {
    /// Four bytes per pixel, red, green, blue, alpha, row by row.
    Raw,
    /// The source position of an on-screen copy: x then y, 16 bits each.
    Copy,
    /// One colour, red, green, blue, for the whole rectangle.
    Fill,
    /// A JPEG image, as the server sent it.
    Jpeg,
}

/// One decoded piece of the frame buffer.
#[derive(Clone, Debug, PartialEq, Eq)]
pub struct ImageData {
    pub type_: ImageType,
    pub x: u16,
    pub y: u16,
    pub width: u16,
    pub height: u16,
    pub data: Vec<u8>,
}

/// An image fragment as a mathematical value.
pub struct ImageView {
    pub type_: ImageType,
    pub x: u16,
    pub y: u16,
    pub width: u16,
    pub height: u16,
    pub data: Seq<u8>,
}

impl View for ImageData {
    type V = ImageView;

    open spec fn view(&self) -> ImageView {
        ImageView {
            type_: self.type_,
            x: self.x,
            y: self.y,
            width: self.width,
            height: self.height,
            data: self.data@,
        }
    }
}

/// The views of a list of fragments.
pub open spec fn images_view(images: Seq<ImageData>) -> Seq<ImageView> {
    images.map_values(|i: ImageData| i@)
}

/// An effect that the engine asks its host to carry out.
#[derive(Clone, Debug, PartialEq, Eq)]
pub enum VncOutput {
    /// Bytes to send to the server.
    WsBuf(Vec<u8>),
    /// The connection failed, for this reason.
    Error(String),
    /// The server asks for a password.
    RequirePassword,
    /// The frame buffer has this width and height.
    SetResolution(u16, u16),
    /// Draw this fragment.
    RenderImage(ImageData),
    /// The server's clipboard holds this text.
    SetClipboard(String),
}

/// An effect as a mathematical value.
pub enum OutputView {
    WsBuf(Seq<u8>),
    Error(Seq<char>),
    RequirePassword,
    SetResolution(u16, u16),
    RenderImage(ImageView),
    SetClipboard(Seq<char>),
}

impl View for VncOutput {
    type V = OutputView;

    open spec fn view(&self) -> OutputView {
        match self {
            VncOutput::WsBuf(b) => OutputView::WsBuf(b@),
            VncOutput::Error(e) => OutputView::Error(e@),
            VncOutput::RequirePassword => OutputView::RequirePassword,
            VncOutput::SetResolution(w, h) => OutputView::SetResolution(*w, *h),
            VncOutput::RenderImage(i) => OutputView::RenderImage(i@),
            VncOutput::SetClipboard(t) => OutputView::SetClipboard(t@),
        }
    }
}

/// The views of a list of effects.
pub open spec fn outputs_view(outs: Seq<VncOutput>) -> Seq<OutputView> {
    outs.map_values(|o: VncOutput| o@)
}

/// The effects that draw `images`, in order.
pub open spec fn render_all(images: Seq<ImageView>) -> Seq<OutputView> {
    images.map_values(|i: ImageView| OutputView::RenderImage(i))
}

/// The security type agreed with the server.
#[derive(Clone, Copy, PartialEq, Eq, Structural, Debug)]
pub enum SecurityType {
    /// Not agreed yet.
    Invalid,
    /// No authentication.
    NoAuth,
    /// Challenge and response with a password.
    VncAuth,
}

/// The rectangle encodings and pseudo-encodings that the protocol numbers.
#[derive(Clone, Copy, PartialEq, Eq, Structural, Debug)]
pub enum VncEncoding {
    Raw,
    CopyRect,
    RRE,
    Hextile,
    Tight,
    TRLE,
    ZRLE,
    CursorPseudo,
    DesktopSizePseudo,
}

impl VncEncoding {
    /// The number that stands for this encoding on the wire.
    pub open spec fn spec_code(self) -> i32 {
        match self {
            VncEncoding::Raw => 0,
            VncEncoding::CopyRect => 1,
            VncEncoding::RRE => 2,
            VncEncoding::Hextile => 5,
            VncEncoding::Tight => 7,
            VncEncoding::TRLE => 15,
            VncEncoding::ZRLE => 16,
            VncEncoding::CursorPseudo => (-239i32),
            VncEncoding::DesktopSizePseudo => (-223i32),
        }
    }

    /// The encoding that `code` stands for, if it stands for one.
    pub open spec fn spec_from_code(code: i32) -> Option<VncEncoding> {
        if code == 0 {
            Some(VncEncoding::Raw)
        } else if code == 1 {
            Some(VncEncoding::CopyRect)
        } else if code == 2 {
            Some(VncEncoding::RRE)
        } else if code == 5 {
            Some(VncEncoding::Hextile)
        } else if code == 7 {
            Some(VncEncoding::Tight)
        } else if code == 15 {
            Some(VncEncoding::TRLE)
        } else if code == 16 {
            Some(VncEncoding::ZRLE)
        } else if code == -239 {
            Some(VncEncoding::CursorPseudo)
        } else if code == -223 {
            Some(VncEncoding::DesktopSizePseudo)
        } else {
            None
        }
    }

    /// The number that stands for this encoding on the wire.
    pub fn code(self) -> (c: i32)
        ensures
            c == self.spec_code(),
            VncEncoding::spec_from_code(c) == Some(self),
    {
        match self {
            VncEncoding::Raw => 0,
            VncEncoding::CopyRect => 1,
            VncEncoding::RRE => 2,
            VncEncoding::Hextile => 5,
            VncEncoding::Tight => 7,
            VncEncoding::TRLE => 15,
            VncEncoding::ZRLE => 16,
            VncEncoding::CursorPseudo => -239,
            VncEncoding::DesktopSizePseudo => -223,
        }
    }

    /// The encoding that `code` stands for; `None` for every other number.
    pub fn from_code(code: i32) -> (e: Option<VncEncoding>)
        ensures
            e == VncEncoding::spec_from_code(code),
            e matches Some(v) ==> v.spec_code() == code,
    {
        if code == 0 {
            Some(VncEncoding::Raw)
        } else if code == 1 {
            Some(VncEncoding::CopyRect)
        } else if code == 2 {
            Some(VncEncoding::RRE)
        } else if code == 5 {
            Some(VncEncoding::Hextile)
        } else if code == 7 {
            Some(VncEncoding::Tight)
        } else if code == 15 {
            Some(VncEncoding::TRLE)
        } else if code == 16 {
            Some(VncEncoding::ZRLE)
        } else if code == -239 {
            Some(VncEncoding::CursorPseudo)
        } else if code == -223 {
            Some(VncEncoding::DesktopSizePseudo)
        } else {
            None
        }
    }
}

/// Where a connection stands.
#[derive(Clone, Copy, PartialEq, Eq, Structural, Debug)]
pub enum VncState {
    Init,
    Handshake,
    Authing,
    ServerInit,
    Connected,
    Disconnected,
}

/// The server message that is being received, if one is.
#[derive(Clone, Copy, PartialEq, Eq, Structural, Debug)]
pub enum ServerMessage {
    FramebufferUpdate,
    SetColourMap,
    ServerCutText,
    /// No message is under way: the next byte is a message type.
    Idle,
}

/// How the server lays a pixel out: 16 bytes on the wire.
#[derive(Clone, Copy, PartialEq, Eq, Structural, Debug)]
pub struct PixelFormat {
    pub bits_per_pixel: u8,
    pub depth: u8,
    pub big_endian_flag: u8,
    pub true_color_flag: u8,
    pub red_max: u16,
    pub green_max: u16,
    pub blue_max: u16,
    pub red_shift: u8,
    pub green_shift: u8,
    pub blue_shift: u8,
    pub padding_1: u8,
    pub padding_2: u8,
    pub padding_3: u8,
}

impl PixelFormat {
    /// The format that the first 16 bytes of `b` describe.
    pub open spec fn spec_parse(b: Seq<u8>) -> PixelFormat
        recommends
            b.len() >= 16,
    {
        PixelFormat {
            bits_per_pixel: b[0],
            depth: b[1],
            big_endian_flag: b[2],
            true_color_flag: b[3],
            red_max: be16(b.skip(4)) as u16,
            green_max: be16(b.skip(6)) as u16,
            blue_max: be16(b.skip(8)) as u16,
            red_shift: b[10],
            green_shift: b[11],
            blue_shift: b[12],
            padding_1: b[13],
            padding_2: b[14],
            padding_3: b[15],
        }
    }

    /// The 16 bytes that describe this format.
    pub open spec fn spec_bytes(self) -> Seq<u8> {
        seq![
            self.bits_per_pixel,
            self.depth,
            self.big_endian_flag,
            self.true_color_flag,
            (self.red_max / 0x100) as u8,
            (self.red_max % 0x100) as u8,
            (self.green_max / 0x100) as u8,
            (self.green_max % 0x100) as u8,
            (self.blue_max / 0x100) as u8,
            (self.blue_max % 0x100) as u8,
            self.red_shift,
            self.green_shift,
            self.blue_shift,
            self.padding_1,
            self.padding_2,
            self.padding_3,
        ]
    }

    /// The format in which every field is zero.
    pub open spec fn spec_zero() -> PixelFormat {
        PixelFormat {
            bits_per_pixel: 0,
            depth: 0,
            big_endian_flag: 0,
            true_color_flag: 0,
            red_max: 0,
            green_max: 0,
            blue_max: 0,
            red_shift: 0,
            green_shift: 0,
            blue_shift: 0,
            padding_1: 0,
            padding_2: 0,
            padding_3: 0,
        }
    }

    /// The format that the 16 bytes `at` bytes into `bytes` describe.
    pub fn parse(bytes: &[u8], at: usize) -> (r: PixelFormat)
        requires
            at + 16 <= bytes@.len(),
        ensures
            r == PixelFormat::spec_parse(bytes@.skip(at as int)),
    {
        proof {
            let s = bytes@.skip(at as int);
            assert(s.skip(4) =~= bytes@.skip(at + 4));
            assert(s.skip(6) =~= bytes@.skip(at + 6));
            assert(s.skip(8) =~= bytes@.skip(at + 8));
        }
        assert(bytes@.len() == bytes.len());
        PixelFormat {
            bits_per_pixel: bytes[at],
            depth: bytes[at + 1],
            big_endian_flag: bytes[at + 2],
            true_color_flag: bytes[at + 3],
            red_max: get_be16(bytes, at + 4),
            green_max: get_be16(bytes, at + 6),
            blue_max: get_be16(bytes, at + 8),
            red_shift: bytes[at + 10],
            green_shift: bytes[at + 11],
            blue_shift: bytes[at + 12],
            padding_1: bytes[at + 13],
            padding_2: bytes[at + 14],
            padding_3: bytes[at + 15],
        }
    }

    /// The 16 bytes that describe this format.
    pub fn to_bytes(&self) -> (v: Vec<u8>)
        ensures
            v@ == self.spec_bytes(),
    {
        let v = vec![
            self.bits_per_pixel,
            self.depth,
            self.big_endian_flag,
            self.true_color_flag,
            (self.red_max / 0x100) as u8,
            (self.red_max % 0x100) as u8,
            (self.green_max / 0x100) as u8,
            (self.green_max % 0x100) as u8,
            (self.blue_max / 0x100) as u8,
            (self.blue_max % 0x100) as u8,
            self.red_shift,
            self.green_shift,
            self.blue_shift,
            self.padding_1,
            self.padding_2,
            self.padding_3,
        ];
        assert(v@ =~= self.spec_bytes());
        v
    }
}

impl From<&[u8; 16]> for PixelFormat {
    fn from(pf: &[u8; 16]) -> (r: PixelFormat) {
        PixelFormat {
            bits_per_pixel: pf[0],
            depth: pf[1],
            big_endian_flag: pf[2],
            true_color_flag: pf[3],
            red_max: (pf[4] as u16) * 0x100 + (pf[5] as u16),
            green_max: (pf[6] as u16) * 0x100 + (pf[7] as u16),
            blue_max: (pf[8] as u16) * 0x100 + (pf[9] as u16),
            red_shift: pf[10],
            green_shift: pf[11],
            blue_shift: pf[12],
            padding_1: pf[13],
            padding_2: pf[14],
            padding_3: pf[15],
        }
    }
}

impl vstd::std_specs::convert::FromSpecImpl<&[u8; 16]> for PixelFormat {
    open spec fn obeys_from_spec() -> bool {
        true
    }

    open spec fn from_spec(pf: &[u8; 16]) -> PixelFormat {
        PixelFormat::spec_parse(pf@)
    }
}

impl Default for PixelFormat {
    fn default() -> (r: PixelFormat)
        ensures
            r == PixelFormat::spec_zero(),
    {
        PixelFormat {
            bits_per_pixel: 0,
            depth: 0,
            big_endian_flag: 0,
            true_color_flag: 0,
            red_max: 0,
            green_max: 0,
            blue_max: 0,
            red_shift: 0,
            green_shift: 0,
            blue_shift: 0,
            padding_1: 0,
            padding_2: 0,
            padding_3: 0,
        }
    }
}

/// Writing a format out and reading it back gives the same format.
pub proof fn lemma_pixel_format_round_trip(pf: PixelFormat)
    ensures
        PixelFormat::spec_parse(pf.spec_bytes()) == pf,
{
    let b = pf.spec_bytes();
    assert(b.skip(4)[0] == b[4] && b.skip(4)[1] == b[5]);
    assert(b.skip(6)[0] == b[6] && b.skip(6)[1] == b[7]);
    assert(b.skip(8)[0] == b[8] && b.skip(8)[1] == b[9]);
}

/// A rectangle of the frame buffer and the number of its encoding.
#[derive(Clone, Copy, PartialEq, Eq, Structural, Debug)]
pub struct VncRect {
    pub x: u16,
    pub y: u16,
    pub width: u16,
    pub height: u16,
    pub encoding_type: i32,
}

} // verus!
