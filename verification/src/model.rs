//! The engine as a mathematical value, and what one step and one delivery of
//! bytes do to it. The contracts of the engine speak of these.

use vstd::prelude::*;
use crate::decoder::copy_rect::copy_image;
use crate::decoder::raw::{raw_image, spec_required};
use crate::decoder::tight::{TightError, TightPhase, TightStepView, TightView, tight_step};
use crate::decoder::zrle::{ZrleError, zrle_block};
use crate::messages::{client_init, known_version, version_reply};
use crate::stream::utf8_lossy;
use crate::types::{
    OutputView,
    PixelFormat,
    SecurityType,
    ServerMessage,
    VncEncoding,
    VncRect,
    VncState,
    render_all,
};
use crate::wire::{be16, be32, i32_of_bits};
use crate::zlib::{InflateCall, InflateError};

verus! {

/// What the engine waits for. Each phase but two takes a number of bytes that
/// is known when the phase begins.
#[derive(Clone, Copy, PartialEq, Eq, Structural, Debug)]
pub enum Phase {
    /// The server's version, 12 bytes.
    Version,
    /// The security type.
    Security,
    /// The challenge, 16 bytes.
    Challenge,
    /// The password, which comes from the host and not from the server.
    Credential,
    /// Whether the server accepts the response.
    AuthResult,
    /// The length of the server's reason for refusing.
    AuthReasonLen,
    /// The server's reason for refusing.
    AuthReason { len: u32 },
    /// Width, height, pixel format and the length of the desktop's name.
    InitHeader,
    /// The desktop's name.
    InitName { len: u32 },
    /// The type of the next message.
    Message,
    /// Padding and the number of rectangles of an update.
    UpdateHeader,
    /// Padding, the first colour and the number of colours of a colour map.
    ColourMapHeader,
    /// The colours of a colour map.
    ColourMap { len: u32 },
    /// Padding and the length of the server's cut text.
    CutTextHeader,
    /// The server's cut text.
    CutText { len: u32 },
    /// The header of a rectangle; `left` rectangles are still to come, this
    /// one counted.
    RectHeader { left: u16 },
    /// The pixels of a raw rectangle.
    RawData { left: u16, rect: VncRect, size: u64 },
    /// The source of a copied rectangle.
    CopySource { left: u16, rect: VncRect },
    /// A step of the Tight decoder.
    Tight { left: u16, rect: VncRect, phase: TightPhase },
    /// The length of a ZRLE rectangle's block.
    ZrleLength { left: u16, rect: VncRect },
    /// The block of a ZRLE rectangle.
    ZrleData { left: u16, rect: VncRect, len: u32 },
    /// Nothing: the connection has failed.
    Closed,
}

impl Phase {
    /// How many bytes the step at this phase takes.
    pub open spec fn spec_require(self) -> int {
        match self {
            Phase::Version => 12,
            Phase::Security => 4,
            Phase::Challenge => 16,
            Phase::Credential => 0,
            Phase::AuthResult => 4,
            Phase::AuthReasonLen => 4,
            Phase::AuthReason { len } => len as int,
            Phase::InitHeader => 24,
            Phase::InitName { len } => len as int,
            Phase::Message => 1,
            Phase::UpdateHeader => 3,
            Phase::ColourMapHeader => 5,
            Phase::ColourMap { len } => len as int,
            Phase::CutTextHeader => 7,
            Phase::CutText { len } => len as int,
            Phase::RectHeader { .. } => 12,
            Phase::RawData { size, .. } => size as int,
            Phase::CopySource { .. } => 4,
            Phase::Tight { phase, .. } => phase.spec_require(),
            Phase::ZrleLength { .. } => 4,
            Phase::ZrleData { len, .. } => len as int,
            Phase::Closed => 0,
        }
    }

    /// Whether bytes from the server cannot move the engine on.
    pub open spec fn spec_blocked(self) -> bool {
        self == Phase::Credential || self == Phase::Closed
    }

    /// Where the connection stands.
    pub open spec fn spec_state(self) -> VncState {
        match self {
            Phase::Version => VncState::Init,
            Phase::Security => VncState::Handshake,
            Phase::Challenge => VncState::Authing,
            Phase::Credential => VncState::Authing,
            Phase::AuthResult => VncState::Authing,
            Phase::AuthReasonLen => VncState::Authing,
            Phase::AuthReason { .. } => VncState::Authing,
            Phase::InitHeader => VncState::ServerInit,
            Phase::InitName { .. } => VncState::ServerInit,
            Phase::Closed => VncState::Disconnected,
            _ => VncState::Connected,
        }
    }

    /// The server message that is being received.
    pub open spec fn spec_message(self) -> ServerMessage {
        match self {
            Phase::UpdateHeader => ServerMessage::FramebufferUpdate,
            Phase::RectHeader { .. } => ServerMessage::FramebufferUpdate,
            Phase::RawData { .. } => ServerMessage::FramebufferUpdate,
            Phase::CopySource { .. } => ServerMessage::FramebufferUpdate,
            Phase::Tight { .. } => ServerMessage::FramebufferUpdate,
            Phase::ZrleLength { .. } => ServerMessage::FramebufferUpdate,
            Phase::ZrleData { .. } => ServerMessage::FramebufferUpdate,
            Phase::ColourMapHeader => ServerMessage::SetColourMap,
            Phase::ColourMap { .. } => ServerMessage::SetColourMap,
            Phase::CutTextHeader => ServerMessage::ServerCutText,
            Phase::CutText { .. } => ServerMessage::ServerCutText,
            _ => ServerMessage::Idle,
        }
    }

    /// How many bytes the step at this phase takes.
    pub fn require(&self) -> (n: u64)
        ensures
            n == self.spec_require(),
    {
        match self {
            Phase::Version => 12,
            Phase::Security => 4,
            Phase::Challenge => 16,
            Phase::Credential => 0,
            Phase::AuthResult => 4,
            Phase::AuthReasonLen => 4,
            Phase::AuthReason { len } => *len as u64,
            Phase::InitHeader => 24,
            Phase::InitName { len } => *len as u64,
            Phase::Message => 1,
            Phase::UpdateHeader => 3,
            Phase::ColourMapHeader => 5,
            Phase::ColourMap { len } => *len as u64,
            Phase::CutTextHeader => 7,
            Phase::CutText { len } => *len as u64,
            Phase::RectHeader { .. } => 12,
            Phase::RawData { size, .. } => *size,
            Phase::CopySource { .. } => 4,
            Phase::Tight { phase, .. } => phase.require(),
            Phase::ZrleLength { .. } => 4,
            Phase::ZrleData { len, .. } => *len as u64,
            Phase::Closed => 0,
        }
    }

    /// Whether bytes from the server cannot move the engine on.
    pub fn blocked(&self) -> (b: bool)
        ensures
            b == self.spec_blocked(),
    {
        match self {
            Phase::Credential => true,
            Phase::Closed => true,
            _ => false,
        }
    }

    /// Where the connection stands.
    pub fn state(&self) -> (s: VncState)
        ensures
            s == self.spec_state(),
    {
        match self {
            Phase::Version => VncState::Init,
            Phase::Security => VncState::Handshake,
            Phase::Challenge => VncState::Authing,
            Phase::Credential => VncState::Authing,
            Phase::AuthResult => VncState::Authing,
            Phase::AuthReasonLen => VncState::Authing,
            Phase::AuthReason { .. } => VncState::Authing,
            Phase::InitHeader => VncState::ServerInit,
            Phase::InitName { .. } => VncState::ServerInit,
            Phase::Closed => VncState::Disconnected,
            _ => VncState::Connected,
        }
    }

    /// The server message that is being received.
    pub fn message(&self) -> (m: ServerMessage)
        ensures
            m == self.spec_message(),
    {
        match self {
            Phase::UpdateHeader => ServerMessage::FramebufferUpdate,
            Phase::RectHeader { .. } => ServerMessage::FramebufferUpdate,
            Phase::RawData { .. } => ServerMessage::FramebufferUpdate,
            Phase::CopySource { .. } => ServerMessage::FramebufferUpdate,
            Phase::Tight { .. } => ServerMessage::FramebufferUpdate,
            Phase::ZrleLength { .. } => ServerMessage::FramebufferUpdate,
            Phase::ZrleData { .. } => ServerMessage::FramebufferUpdate,
            Phase::ColourMapHeader => ServerMessage::SetColourMap,
            Phase::ColourMap { .. } => ServerMessage::SetColourMap,
            Phase::CutTextHeader => ServerMessage::ServerCutText,
            Phase::CutText { .. } => ServerMessage::ServerCutText,
            _ => ServerMessage::Idle,
        }
    }
}

/// Why a connection failed, where the server gave no reason of its own.
#[derive(Clone, Copy, PartialEq, Eq, Structural, Debug)]
pub enum Failure {
    /// The server offers a version that the engine does not know.
    Version,
    /// The server refused, or sent what the protocol does not allow.
    Refused,
    /// A rectangle has an encoding that the protocol knows and the engine
    /// does not decode.
    NotImplemented,
    /// A rectangle has an encoding that the protocol does not know.
    Unsupported,
    /// A Tight rectangle could not be decoded.
    Tight(TightError),
    /// A ZRLE rectangle could not be decoded.
    Zrle(ZrleError),
}

/// The words for a refusal of a zlib stream.
pub open spec fn inflate_text(e: InflateError) -> Seq<char> {
    match e {
        InflateError::Corrupt => "corrupt zlib data"@,
        InflateError::Ended => "zlib stream end"@,
        InflateError::Stalled => "zlib data ended early"@,
        InflateError::TooLong => "zlib data too long"@,
        InflateError::Exhausted => "zlib stream exhausted"@,
    }
}

/// The words for a failure.
pub open spec fn failure_text(f: Failure) -> Seq<char> {
    match f {
        Failure::Version => "unsupported version"@,
        Failure::Refused => "Connection failed with unknown reason"@,
        Failure::NotImplemented => "encoding not implemented"@,
        Failure::Unsupported => "unsupported encoding"@,
        Failure::Tight(TightError::Png) => "PNG received in standard Tight rect"@,
        Failure::Tight(TightError::Compression) => "Illegal tight compression received"@,
        Failure::Tight(TightError::Gradient) => "Gradient filter not implemented"@,
        Failure::Tight(TightError::Filter) => "Illegal tight filter received"@,
        Failure::Tight(TightError::PaletteIndex) => "Tight palette index out of range"@,
        Failure::Tight(TightError::Size) => "Tight data has the wrong length"@,
        Failure::Tight(TightError::TooLarge) => "Tight rectangle too large"@,
        Failure::Tight(TightError::Inflate(e)) => inflate_text(e),
        Failure::Zrle(ZrleError::Format) => "ZRLE pixel format not supported"@,
        Failure::Zrle(ZrleError::OutOfRange) => "ZRLE rectangle out of range"@,
        Failure::Zrle(ZrleError::Truncated) => "ZRLE data ended early"@,
        Failure::Zrle(ZrleError::Subencoding) => "ZRLE subencoding"@,
        Failure::Zrle(ZrleError::PaletteIndex) => "ZRLE palette index out of range"@,
        Failure::Zrle(ZrleError::RunTooLong) => "ZRLE run too long"@,
        Failure::Zrle(ZrleError::Leftover) => "leftover ZRLE data"@,
        Failure::Zrle(ZrleError::Inflate(e)) => inflate_text(e),
    }
}

fn inflate_message(e: InflateError) -> (s: String)
    ensures
        s@ == inflate_text(e),
{
    match e {
        InflateError::Corrupt => "corrupt zlib data".to_owned(),
        InflateError::Ended => "zlib stream end".to_owned(),
        InflateError::Stalled => "zlib data ended early".to_owned(),
        InflateError::TooLong => "zlib data too long".to_owned(),
        InflateError::Exhausted => "zlib stream exhausted".to_owned(),
    }
}

/// The words for a failure.
pub fn failure_message(f: Failure) -> (s: String)
    ensures
        s@ == failure_text(f),
{
    match f {
        Failure::Version => "unsupported version".to_owned(),
        Failure::Refused => "Connection failed with unknown reason".to_owned(),
        Failure::NotImplemented => "encoding not implemented".to_owned(),
        Failure::Unsupported => "unsupported encoding".to_owned(),
        Failure::Tight(TightError::Png) => "PNG received in standard Tight rect".to_owned(),
        Failure::Tight(TightError::Compression) => "Illegal tight compression received".to_owned(),
        Failure::Tight(TightError::Gradient) => "Gradient filter not implemented".to_owned(),
        Failure::Tight(TightError::Filter) => "Illegal tight filter received".to_owned(),
        Failure::Tight(TightError::PaletteIndex) => "Tight palette index out of range".to_owned(),
        Failure::Tight(TightError::Size) => "Tight data has the wrong length".to_owned(),
        Failure::Tight(TightError::TooLarge) => "Tight rectangle too large".to_owned(),
        Failure::Tight(TightError::Inflate(e)) => inflate_message(e),
        Failure::Zrle(ZrleError::Format) => "ZRLE pixel format not supported".to_owned(),
        Failure::Zrle(ZrleError::OutOfRange) => "ZRLE rectangle out of range".to_owned(),
        Failure::Zrle(ZrleError::Truncated) => "ZRLE data ended early".to_owned(),
        Failure::Zrle(ZrleError::Subencoding) => "ZRLE subencoding".to_owned(),
        Failure::Zrle(ZrleError::PaletteIndex) => "ZRLE palette index out of range".to_owned(),
        Failure::Zrle(ZrleError::RunTooLong) => "ZRLE run too long".to_owned(),
        Failure::Zrle(ZrleError::Leftover) => "leftover ZRLE data".to_owned(),
        Failure::Zrle(ZrleError::Inflate(e)) => inflate_message(e),
    }
}

/// What the engine knows of its connection, but for the bytes that wait and
/// the effects that it has queued.
pub struct Core {
    pub phase: Phase,
    pub security_type: SecurityType,
    pub challenge: Seq<u8>,
    pub width: u16,
    pub height: u16,
    pub pf: PixelFormat,
    pub name: Seq<char>,
    pub tight: TightView,
    pub zrle: Seq<InflateCall>,
}

/// What a step makes of a core: the core after it, and the effects that it
/// adds to the queue.
pub struct Advance {
    pub core: Core,
    pub emitted: Seq<OutputView>,
}

/// A step that queues nothing.
pub open spec fn quiet(core: Core) -> Advance {
    Advance { core, emitted: Seq::empty() }
}

/// A step that queues one effect.
pub open spec fn emit(core: Core, effect: OutputView) -> Advance {
    Advance { core, emitted: seq![effect] }
}

/// The step that ends the connection: it queues one error.
pub open spec fn fail(core: Core, text: Seq<char>) -> Advance {
    Advance { core: Core { phase: Phase::Closed, ..core }, emitted: seq![OutputView::Error(text)] }
}

/// The phase after a rectangle of which `left` were still to come, itself
/// counted.
pub open spec fn next_rect(left: u16) -> Phase {
    if left <= 1 {
        Phase::Message
    } else {
        Phase::RectHeader { left: (left - 1) as u16 }
    }
}

/// The rectangle that the 12 bytes of a rectangle header describe.
pub open spec fn header_rect(bytes: Seq<u8>) -> VncRect {
    VncRect {
        x: be16(bytes) as u16,
        y: be16(bytes.skip(2)) as u16,
        width: be16(bytes.skip(4)) as u16,
        height: be16(bytes.skip(6)) as u16,
        encoding_type: i32_of_bits(be32(bytes.skip(8)) as u32),
    }
}

/// The step that a rectangle header takes: the encoding decides which decoder
/// takes the rectangle.
pub open spec fn rect_header(core: Core, left: u16, bytes: Seq<u8>) -> Advance {
    let rect = header_rect(bytes);
    match VncEncoding::spec_from_code(rect.encoding_type) {
        Some(VncEncoding::Raw) => quiet(
            Core {
                phase: Phase::RawData { left, rect, size: spec_required(core.pf, rect) as u64 },
                ..core
            },
        ),
        Some(VncEncoding::CopyRect) => quiet(Core { phase: Phase::CopySource { left, rect }, ..core }),
        Some(VncEncoding::Tight) => quiet(
            Core { phase: Phase::Tight { left, rect, phase: TightPhase::Control }, ..core },
        ),
        Some(VncEncoding::ZRLE) => quiet(Core { phase: Phase::ZrleLength { left, rect }, ..core }),
        Some(_) => fail(core, failure_text(Failure::NotImplemented)),
        None => fail(core, failure_text(Failure::Unsupported)),
    }
}

/// A step of the Tight decoder, as a step of the engine.
pub open spec fn tight_advance(core: Core, left: u16, rect: VncRect, phase: TightPhase, bytes: Seq<u8>)
    -> Advance {
    let outcome = tight_step(core.tight, phase, rect, bytes);
    match outcome.result {
        Err(e) => fail(Core { tight: outcome.decoder, ..core }, failure_text(Failure::Tight(e))),
        Ok(TightStepView::Next(p)) => quiet(
            Core { tight: outcome.decoder, phase: Phase::Tight { left, rect, phase: p }, ..core },
        ),
        Ok(TightStepView::Done(image)) => emit(
            Core { tight: outcome.decoder, phase: next_rect(left), ..core },
            OutputView::RenderImage(image),
        ),
    }
}

/// The step that takes the block of a ZRLE rectangle.
pub open spec fn zrle_advance(core: Core, left: u16, rect: VncRect, bytes: Seq<u8>) -> Advance {
    let outcome = zrle_block(core.zrle, core.pf, rect, bytes);
    match outcome.result {
        Err(e) => fail(Core { zrle: outcome.calls, ..core }, failure_text(Failure::Zrle(e))),
        Ok(images) => Advance {
            core: Core { zrle: outcome.calls, phase: next_rect(left), ..core },
            emitted: render_all(images),
        },
    }
}

/// The step that takes the type of a server message.
pub open spec fn message_type(core: Core, kind: u8) -> Advance {
    if kind == 0 {
        quiet(Core { phase: Phase::UpdateHeader, ..core })
    } else if kind == 1 {
        quiet(Core { phase: Phase::ColourMapHeader, ..core })
    } else if kind == 2 {
        quiet(core)
    } else if kind == 3 {
        quiet(Core { phase: Phase::CutTextHeader, ..core })
    } else {
        fail(core, failure_text(Failure::Refused))
    }
}

/// One step of the engine: `bytes` are the bytes that the core's phase takes.
#[verifier::opaque]
pub open spec fn advance(core: Core, bytes: Seq<u8>) -> Advance {
    match core.phase {
        Phase::Version => if known_version(bytes) {
            emit(Core { phase: Phase::Security, ..core }, OutputView::WsBuf(version_reply()))
        } else {
            fail(core, failure_text(Failure::Version))
        },
        Phase::Security => if be32(bytes) == 1 {
            emit(
                Core { phase: Phase::InitHeader, security_type: SecurityType::NoAuth, ..core },
                OutputView::WsBuf(client_init()),
            )
        } else if be32(bytes) == 2 {
            quiet(Core { phase: Phase::Challenge, security_type: SecurityType::VncAuth, ..core })
        } else {
            fail(core, failure_text(Failure::Refused))
        },
        Phase::Challenge => emit(
            Core { phase: Phase::Credential, challenge: bytes, ..core },
            OutputView::RequirePassword,
        ),
        Phase::Credential => quiet(core),
        Phase::AuthResult => if be32(bytes) == 0 {
            emit(Core { phase: Phase::InitHeader, ..core }, OutputView::WsBuf(client_init()))
        } else if be32(bytes) == 1 {
            quiet(Core { phase: Phase::AuthReasonLen, ..core })
        } else {
            fail(core, failure_text(Failure::Refused))
        },
        Phase::AuthReasonLen => quiet(
            Core { phase: Phase::AuthReason { len: be32(bytes) as u32 }, ..core },
        ),
        Phase::AuthReason { .. } => fail(core, utf8_lossy(bytes)),
        Phase::InitHeader => quiet(
            Core {
                phase: Phase::InitName { len: be32(bytes.skip(20)) as u32 },
                width: be16(bytes) as u16,
                height: be16(bytes.skip(2)) as u16,
                pf: PixelFormat::spec_parse(bytes.skip(4)),
                ..core
            },
        ),
        Phase::InitName { .. } => emit(
            Core { phase: Phase::Message, name: utf8_lossy(bytes), ..core },
            OutputView::SetResolution(core.width, core.height),
        ),
        Phase::Message => message_type(core, bytes[0]),
        Phase::UpdateHeader => quiet(
            Core {
                phase: if be16(bytes.skip(1)) == 0 {
                    Phase::Message
                } else {
                    Phase::RectHeader { left: be16(bytes.skip(1)) as u16 }
                },
                ..core
            },
        ),
        Phase::ColourMapHeader => quiet(
            Core { phase: Phase::ColourMap { len: (be16(bytes.skip(3)) * 6) as u32 }, ..core },
        ),
        Phase::ColourMap { .. } => quiet(Core { phase: Phase::Message, ..core }),
        Phase::CutTextHeader => quiet(
            Core { phase: Phase::CutText { len: be32(bytes.skip(3)) as u32 }, ..core },
        ),
        Phase::CutText { .. } => emit(
            Core { phase: Phase::Message, ..core },
            OutputView::SetClipboard(utf8_lossy(bytes)),
        ),
        Phase::RectHeader { left } => rect_header(core, left, bytes),
        Phase::RawData { left, rect, .. } => emit(
            Core { phase: next_rect(left), ..core },
            OutputView::RenderImage(raw_image(rect, bytes)),
        ),
        Phase::CopySource { left, rect } => emit(
            Core { phase: next_rect(left), ..core },
            OutputView::RenderImage(copy_image(rect, bytes)),
        ),
        Phase::Tight { left, rect, phase } => tight_advance(core, left, rect, phase, bytes),
        Phase::ZrleLength { left, rect } => quiet(
            Core { phase: Phase::ZrleData { left, rect, len: be32(bytes) as u32 }, ..core },
        ),
        Phase::ZrleData { left, rect, .. } => zrle_advance(core, left, rect, bytes),
        Phase::Closed => quiet(core),
    }
}

/// The engine as a mathematical value.
pub struct VncView {
    /// What the engine knows of its connection.
    pub core: Core,
    /// The bytes that the server sent and the engine has not taken yet.
    pub buffer: Seq<u8>,
    /// The effects that wait for the host, oldest first.
    pub outs: Seq<OutputView>,
    /// The pointer's buttons that are down.
    pub mask: u8,
    /// Whether the server has been told which encodings the engine decodes.
    pub encodings_sent: bool,
}

impl VncView {
    /// Whether the engine can take a step: its phase waits for bytes, and as
    /// many as it takes are there.
    pub open spec fn ready(self) -> bool {
        !self.core.phase.spec_blocked() && self.buffer.len() >= self.core.phase.spec_require()
    }

    /// The engine with `bytes` added behind the bytes that wait. Once the
    /// connection has failed, bytes are no longer taken in.
    pub open spec fn feed(self, bytes: Seq<u8>) -> VncView {
        if self.core.phase == Phase::Closed {
            self
        } else {
            VncView { buffer: self.buffer + bytes, ..self }
        }
    }

    /// The engine after what a step made of its core; the bytes that wait are
    /// not touched.
    pub open spec fn apply(self, a: Advance) -> VncView {
        VncView { core: a.core, outs: self.outs + a.emitted, ..self }
    }

    /// The engine after one step: the step takes the bytes of its phase from
    /// the front of the bytes that wait. A step that ends the connection
    /// drops the bytes that still wait.
    pub open spec fn step(self) -> VncView {
        let moved = self.apply(
            advance(self.core, self.buffer.take(self.core.phase.spec_require())),
        );
        VncView {
            buffer: if moved.core.phase == Phase::Closed {
                Seq::empty()
            } else {
                self.buffer.skip(self.core.phase.spec_require())
            },
            ..moved
        }
    }

    /// How often a phase that takes no bytes can be followed by another that
    /// takes none.
    pub open spec fn rank(self) -> nat {
        if self.core.phase.spec_blocked() || self.core.phase.spec_require() != 0 {
            0
        } else if self.core.phase matches Phase::Tight { phase: TightPhase::Palette { .. }, .. } {
            2
        } else {
            1
        }
    }

    /// The engine after it has taken every step that it can.
    #[verifier::opaque]
    pub open spec fn run(self) -> VncView
        decreases self.buffer.len(), self.rank(),
        via Self::run_decreases
    {
        if self.ready() {
            self.step().run()
        } else {
            self
        }
    }

    #[via_fn]
    proof fn run_decreases(self) {
        if self.ready() {
            lemma_step_progress(self);
        }
    }
}

/// While the engine can take a step, to take every step is to take one and
/// then every step; the step brings the end nearer.
pub proof fn lemma_run_steps(v: VncView)
    requires
        v.ready(),
    ensures
        v.run() == v.step().run(),
        v.step().buffer.len() < v.buffer.len() || (v.step().buffer.len() == v.buffer.len()
            && v.step().rank() < v.rank()),
{
    reveal(VncView::run);
    lemma_step_progress(v);
}

/// When the engine can take no step, to take every step changes nothing.
pub proof fn lemma_run_rests(v: VncView)
    requires
        !v.ready(),
    ensures
        v.run() == v,
{
    reveal(VncView::run);
}

/// A step takes the bytes of its phase, and a phase that takes none is
/// followed by one that is nearer to taking some.
pub proof fn lemma_step_progress(v: VncView)
    requires
        v.ready(),
    ensures
        v.step().buffer.len() <= v.buffer.len() - v.core.phase.spec_require(),
        v.core.phase.spec_require() == 0 ==> v.step().rank() < v.rank(),
{
    reveal(advance);
    let n = v.core.phase.spec_require();
    let bytes = v.buffer.take(n);
    let a = advance(v.core, bytes);
    if n == 0 {
        if let Phase::Tight { rect, phase, .. } = v.core.phase {
            let outcome = tight_step(v.core.tight, phase, rect, bytes);
            assert(outcome.result is Err || outcome.result matches Ok(TightStepView::Done(_))
                || phase is Palette);
        }
    }
}

} // verus!
