//! The engine: it takes the bytes that the server sends, in chunks of any
//! size, and queues what the host is to do.

use vstd::prelude::*;
use vstd::string::StringSliceAdditionalSpecFns;
use crate::decoder::copy_rect;
use crate::decoder::raw;
use crate::decoder::tight::{TightDecoder, TightPhase, TightStep};
use crate::decoder::zrle::ZrleDecoder;
use crate::des;
use crate::messages::{
    client_init_message,
    cut_text,
    cut_text_message,
    is_known_version,
    key_event,
    key_event_message,
    pointer_event,
    pointer_event_message,
    set_encodings,
    set_encodings_message,
    update_request,
    update_request_message,
    version_reply_message,
};
use crate::model::{
    Core,
    Failure,
    Phase,
    VncView,
    advance,
    emit,
    fail,
    failure_message,
    failure_text,
    quiet,
};
use crate::stream::{StreamReader, string_from_utf8_lossy};
use crate::types::{
    ImageData,
    MouseEventType,
    OutputView,
    PixelFormat,
    SecurityType,
    ServerMessage,
    VncEncoding,
    VncOutput,
    VncRect,
    VncState,
    images_view,
    outputs_view,
    render_all,
};
use crate::wire::{get_be16, get_be32, signed};
use crate::x11cursor::{MouseUtils, button_bit, clamped, mask_after};

verus! {

/// The encodings that the engine decodes, the one it likes best first.
pub open spec fn supported() -> Seq<VncEncoding> {
    seq![VncEncoding::Tight, VncEncoding::ZRLE, VncEncoding::CopyRect, VncEncoding::Raw]
}

impl VncView {
    /// The engine of a connection on which nothing has happened yet.
    pub open spec fn initial() -> VncView {
        VncView {
            core: Core {
                phase: Phase::Version,
                security_type: SecurityType::Invalid,
                challenge: Seq::new(16, |i: int| 0u8),
                width: 0,
                height: 0,
                pf: PixelFormat::spec_zero(),
                name: Seq::empty(),
                tight: crate::decoder::tight::TightView::fresh(),
                zrle: Seq::empty(),
            },
            buffer: Seq::empty(),
            outs: Seq::empty(),
            mask: 0,
            encodings_sent: false,
        }
    }

    /// The engine with one more effect in its queue.
    pub open spec fn queue(self, effect: OutputView) -> VncView {
        VncView { outs: self.outs.push(effect), ..self }
    }

    /// The engine once the host has handed over the password: if the engine
    /// waits for one, the response to the challenge is queued for sending and
    /// the engine waits for the server's verdict.
    pub open spec fn with_credential(self, password: Seq<u8>) -> VncView {
        if self.core.phase == Phase::Credential {
            VncView {
                core: Core { phase: Phase::AuthResult, ..self.core },
                ..self.queue(
                    OutputView::WsBuf(
                        des::response(self.core.challenge, des::password_key(password)),
                    ),
                )
            }
        } else {
            self
        }
    }

    /// The engine once the host has asked for a frame: the first time that the
    /// whole frame is asked for, the server is told the encodings; the request
    /// itself is queued unless a server message is under way.
    pub open spec fn with_frame_request(self, incremental: u8) -> VncView {
        let told = if incremental == 0 && !self.encodings_sent {
            VncView { encodings_sent: true, ..self.queue(OutputView::WsBuf(set_encodings(supported()))) }
        } else {
            self
        };
        if self.core.phase.spec_message() == ServerMessage::Idle {
            told.queue(OutputView::WsBuf(update_request(incremental, self.core.width, self.core.height)))
        } else {
            told
        }
    }

    /// The engine once a key went down or up: the event is queued for sending
    /// if the connection is up.
    pub open spec fn with_key(self, key: u32, down: bool) -> VncView {
        if self.core.phase.spec_state() == VncState::Connected {
            self.queue(OutputView::WsBuf(key_event(key, down)))
        } else {
            self
        }
    }

    /// The engine once the pointer moved or a button went down or up: the
    /// event is queued for sending if the connection is up.
    pub open spec fn with_pointer(self, x: i32, y: i32, button: i16, et: MouseEventType) -> VncView {
        if self.core.phase.spec_state() == VncState::Connected {
            VncView {
                mask: mask_after(self.mask, button_bit(button), et),
                ..self.queue(
                    OutputView::WsBuf(
                        pointer_event(
                            clamped(x),
                            clamped(y),
                            mask_after(self.mask, button_bit(button), et),
                        ),
                    ),
                )
            }
        } else {
            self
        }
    }

    /// The engine once the host has handed over clipboard text: the text is
    /// queued for sending, unless it is too long for the protocol.
    pub open spec fn with_clipboard(self, text: Seq<u8>) -> VncView {
        if text.len() <= u32::MAX {
            self.queue(OutputView::WsBuf(cut_text(text)))
        } else {
            self
        }
    }
}

/// A step that queues nothing leaves the queue as it is.
proof fn lemma_apply_quiet(v: VncView, core: Core)
    ensures
        v.apply(quiet(core)) == (VncView { core, ..v }),
{
    assert(v.outs + Seq::<OutputView>::empty() =~= v.outs);
}

/// A step that queues one effect puts it behind the others.
proof fn lemma_apply_emit(v: VncView, core: Core, effect: OutputView)
    ensures
        v.apply(emit(core, effect)) == (VncView { core, ..v }).queue(effect),
{
    assert(v.outs + seq![effect] =~= v.outs.push(effect));
}

/// The step that ends the connection puts its error behind the other effects.
proof fn lemma_apply_fail(v: VncView, core: Core, text: Seq<char>)
    ensures
        v.apply(fail(core, text)) == (VncView { core: Core { phase: Phase::Closed, ..core }, ..v }).queue(
            OutputView::Error(text),
        ),
{
    assert(v.outs + seq![OutputView::Error(text)] =~= v.outs.push(OutputView::Error(text)));
}

/// The engine of one connection.
pub struct Vnc {
    phase: Phase,
    security_type: SecurityType,
    challenge: [u8; 16],
    reader: StreamReader,
    mouse: MouseUtils,
    width: u16,
    height: u16,
    pf: PixelFormat,
    name: String,
    encodings_sent: bool,
    tight: TightDecoder,
    zrle: ZrleDecoder,
    outs: Vec<VncOutput>,
}

impl View for Vnc {
    type V = VncView;

    closed spec fn view(&self) -> VncView {
        VncView {
            core: Core {
                phase: self.phase,
                security_type: self.security_type,
                challenge: self.challenge@,
                width: self.width,
                height: self.height,
                pf: self.pf,
                name: self.name@,
                tight: self.tight@,
                zrle: self.zrle@,
            },
            buffer: self.reader@,
            outs: outputs_view(self.outs@),
            mask: self.mouse@,
            encodings_sent: self.encodings_sent,
        }
    }
}

impl Vnc {
    /// The engine of a connection on which nothing has happened yet: it waits
    /// for the server's version.
    pub fn new() -> (vnc: Self)
        ensures
            vnc@ == VncView::initial(),
    {
        let vnc = Vnc {
            phase: Phase::Version,
            security_type: SecurityType::Invalid,
            challenge: [0u8; 16],
            reader: StreamReader::new(Vec::new()),
            mouse: MouseUtils::new(),
            width: 0,
            height: 0,
            pf: PixelFormat::default(),
            name: String::new(),
            encodings_sent: false,
            tight: TightDecoder::new(),
            zrle: ZrleDecoder::new(),
            outs: Vec::new(),
        };
        proof {
            assert(vnc.challenge@ =~= Seq::new(16, |i: int| 0u8));
            assert(outputs_view(vnc.outs@) =~= Seq::<OutputView>::empty());
            let none = Seq::<Vec<u8>>::empty();
            assert(none.map_values(|b: Vec<u8>| b@) =~= Seq::<Seq<u8>>::empty());
            assert(vnc.reader@ =~= Seq::<u8>::empty());
            assert(vnc.name@ =~= Seq::<char>::empty());
        }
        vnc
    }

    /// Takes a chunk of what the server sent, and every step that the bytes
    /// held allow. Where the chunks are cut makes no difference. Once the
    /// connection has failed, nothing happens.
    pub fn do_input(&mut self, input: Vec<u8>)
        ensures
            final(self)@ == old(self)@.feed(input@).run(),
            old(self)@.core.phase == Phase::Closed ==> final(self)@ == old(self)@,
    {
        if self.phase == Phase::Closed {
            proof {
                crate::model::lemma_run_rests(self@);
            }
            return ;
        }
        self.reader.append(input);
        let ghost fed = self@;
        while !self.phase.blocked() && self.reader.remain() as u64 >= self.phase.require()
            invariant
                fed.run() == self@.run(),
            decreases self@.buffer.len(), self@.rank(),
        {
            proof {
                crate::model::lemma_run_steps(self@);
            }
            self.handle_input();
        }
        proof {
            crate::model::lemma_run_rests(self@);
        }
    }

    /// Hands the queued effects over, oldest first, and empties the queue.
    pub fn get_output(&mut self) -> (out: Vec<VncOutput>)
        ensures
            outputs_view(out@) == old(self)@.outs,
            final(self)@ == (VncView { outs: Seq::empty(), ..old(self)@ }),
    {
        let mut out: Vec<VncOutput> = Vec::new();
        core::mem::swap(&mut out, &mut self.outs);
        assert(outputs_view(self.outs@) =~= Seq::<OutputView>::empty());
        out
    }

    /// Takes the password from the host. If the engine waits for one, it
    /// queues the response to the server's challenge; else nothing happens.
    pub fn set_credential(&mut self, password: &str)
        ensures
            final(self)@ == old(self)@.with_credential(password.spec_bytes()),
    {
        if self.phase == Phase::Credential {
            let key = des::key_of(password.as_bytes());
            let answer = des::encrypt(self.challenge.as_slice(), key.as_slice());
            self.push_out(VncOutput::WsBuf(answer));
            self.phase = Phase::AuthResult;
        }
    }

    /// Takes clipboard text from the host and queues it for sending.
    pub fn set_clipboard(&mut self, text: &str)
        ensures
            final(self)@ == old(self)@.with_clipboard(text.spec_bytes()),
    {
        self.send_client_cut_text(text);
    }

    /// Takes a key event from the host: `key` is the key's symbol.
    pub fn key_press(&mut self, key: u32, down: bool)
        ensures
            final(self)@ == old(self)@.with_key(key, down),
    {
        if self.phase.state() == VncState::Connected {
            self.send_key_event(key, down);
        }
    }

    /// Takes a pointer event from the host: the position within the frame, and
    /// the button that went down or up.
    pub fn mouse_event(&mut self, x: i32, y: i32, button: i16, et: MouseEventType)
        ensures
            final(self)@ == old(self)@.with_pointer(x, y, button, et),
    {
        if self.phase.state() == VncState::Connected {
            let (px, py, mask) = self.mouse.get_mouse_sym(x, y, button, et);
            self.send_pointer_event(px, py, mask);
        }
    }

    /// Asks the server for the frame: for all of it if `incremental` is 0,
    /// else for what has changed.
    pub fn require_frame(&mut self, incremental: u8)
        ensures
            final(self)@ == old(self)@.with_frame_request(incremental),
    {
        if incremental == 0 && !self.encodings_sent {
            self.send_client_encodings();
        }
        if self.phase.message() == ServerMessage::Idle {
            self.framebuffer_update_request(incremental);
        }
    }

    /// Where the connection stands.
    pub fn state(&self) -> (s: VncState)
        ensures
            s == self@.core.phase.spec_state(),
    {
        self.phase.state()
    }

    /// How many bytes the engine needs before it can take its next step.
    pub fn require(&self) -> (n: u64)
        ensures
            n == self@.core.phase.spec_require(),
    {
        self.phase.require()
    }

    /// The security type agreed with the server.
    pub fn security_type(&self) -> (t: SecurityType)
        ensures
            t == self@.core.security_type,
    {
        self.security_type
    }

    /// The server message that is being received.
    pub fn msg_handling(&self) -> (m: ServerMessage)
        ensures
            m == self@.core.phase.spec_message(),
    {
        self.phase.message()
    }

    /// The width and the height of the frame buffer.
    pub fn resolution(&self) -> (r: (u16, u16))
        ensures
            r == (self@.core.width, self@.core.height),
    {
        (self.width, self.height)
    }

    /// The pixel format that the server uses.
    pub fn pixel_format(&self) -> (pf: PixelFormat)
        ensures
            pf == self@.core.pf,
    {
        self.pf
    }

    /// The name of the desktop.
    pub fn name(&self) -> (n: &String)
        ensures
            n@ == self@.core.name,
    {
        &self.name
    }
}

impl Vnc {
    fn push_out(&mut self, effect: VncOutput)
        ensures
            final(self)@ == old(self)@.queue(effect@),
    {
        self.outs.push(effect);
        assert(outputs_view(self.outs@) =~= outputs_view(old(self).outs@).push(effect@));
    }

    /// Ends the connection for the reason `text`.
    fn disconnect_with_err(&mut self, text: String)
        ensures
            final(self)@ == old(self)@.apply(fail(old(self)@.core, text@)),
    {
        proof {
            lemma_apply_fail(self@, self@.core, text@);
        }
        self.phase = Phase::Closed;
        self.push_out(VncOutput::Error(text));
    }

    fn fail_with(&mut self, failure: Failure)
        ensures
            final(self)@ == old(self)@.apply(fail(old(self)@.core, failure_text(failure))),
    {
        self.disconnect_with_err(failure_message(failure));
    }

    fn go_to(&mut self, phase: Phase)
        ensures
            final(self)@ == old(self)@.apply(quiet(Core { phase, ..old(self)@.core })),
    {
        proof {
            lemma_apply_quiet(self@, Core { phase, ..self@.core });
        }
        self.phase = phase;
    }

    /// Sends ClientInit and waits for ServerInit.
    fn send_client_initilize(&mut self)
        ensures
            final(self)@ == old(self)@.apply(
                emit(
                    Core { phase: Phase::InitHeader, ..old(self)@.core },
                    OutputView::WsBuf(crate::messages::client_init()),
                ),
            ),
    {
        proof {
            lemma_apply_emit(
                self@,
                Core { phase: Phase::InitHeader, ..self@.core },
                OutputView::WsBuf(crate::messages::client_init()),
            );
        }
        self.phase = Phase::InitHeader;
        self.push_out(VncOutput::WsBuf(client_init_message()));
    }

    fn send_client_encodings(&mut self)
        requires
            !old(self)@.encodings_sent,
        ensures
            final(self)@ == (VncView {
                encodings_sent: true,
                ..old(self)@.queue(OutputView::WsBuf(set_encodings(supported())))
            }),
    {
        let encodings = vec![
            VncEncoding::Tight,
            VncEncoding::ZRLE,
            VncEncoding::CopyRect,
            VncEncoding::Raw,
        ];
        assert(encodings@ =~= supported());
        self.push_out(VncOutput::WsBuf(set_encodings_message(&encodings)));
        self.encodings_sent = true;
    }

    fn send_key_event(&mut self, key: u32, down: bool)
        ensures
            final(self)@ == old(self)@.queue(OutputView::WsBuf(key_event(key, down))),
    {
        self.push_out(VncOutput::WsBuf(key_event_message(key, down)));
    }

    fn send_pointer_event(&mut self, x: u16, y: u16, mask: u8)
        ensures
            final(self)@ == old(self)@.queue(OutputView::WsBuf(pointer_event(x, y, mask))),
    {
        self.push_out(VncOutput::WsBuf(pointer_event_message(x, y, mask)));
    }

    fn send_client_cut_text(&mut self, text: &str)
        ensures
            final(self)@ == old(self)@.with_clipboard(text.spec_bytes()),
    {
        match cut_text_message(text) {
            Some(bytes) => self.push_out(VncOutput::WsBuf(bytes)),
            None => {},
        }
    }

    fn framebuffer_update_request(&mut self, incremental: u8)
        ensures
            final(self)@ == old(self)@.queue(
                OutputView::WsBuf(
                    update_request(incremental, old(self)@.core.width, old(self)@.core.height),
                ),
            ),
    {
        self.push_out(
            VncOutput::WsBuf(update_request_message(incremental, self.width, self.height)),
        );
    }

    /// Takes one step: the bytes of the phase leave the buffer and decide
    /// what comes next.
    fn handle_input(&mut self)
        requires
            old(self)@.ready(),
        ensures
            final(self)@ == old(self)@.step(),
    {
        proof {
            self.reader.lemma_fits();
        }
        let n = self.phase.require() as usize;
        let mut bytes: Vec<u8> = Vec::new();
        self.reader.read_exact_vec(&mut bytes, n);
        assert(bytes@ =~= old(self)@.buffer.take(n as int));
        self.advance(bytes);
        if self.phase == Phase::Closed {
            self.reader.clear();
        }
    }

    fn advance(&mut self, bytes: Vec<u8>)
        requires
            bytes@.len() == old(self)@.core.phase.spec_require(),
        ensures
            final(self)@ == old(self)@.apply(advance(old(self)@.core, bytes@)),
    {
        proof {
            reveal(advance);
        }
        match self.phase {
            Phase::Version => self.do_handshake(bytes),
            Phase::Security => self.do_authenticate(bytes),
            Phase::Challenge => self.read_challenge(bytes),
            Phase::Credential => self.go_to(Phase::Credential),
            Phase::AuthResult => self.handle_auth_result(bytes),
            Phase::AuthReasonLen => self.go_to(
                Phase::AuthReason { len: get_be32(bytes.as_slice(), 0) },
            ),
            Phase::AuthReason { .. } => self.disconnect_with_err(string_from_utf8_lossy(&bytes)),
            Phase::InitHeader => self.handle_server_init(bytes),
            Phase::InitName { .. } => self.read_name(bytes),
            Phase::Message => self.handle_server_message(bytes),
            Phase::UpdateHeader => self.handle_framebuffer_update(bytes),
            Phase::ColourMapHeader => self.handle_set_colour_map(bytes),
            Phase::ColourMap { .. } => self.read_colour_map(bytes),
            Phase::CutTextHeader => self.handle_server_cut_text(bytes),
            Phase::CutText { .. } => self.read_cut_text(bytes),
            Phase::RectHeader { left } => self.read_rect(left, bytes),
            Phase::RawData { left, rect, .. } => self.handle_raw_encoding(left, rect, bytes),
            Phase::CopySource { left, rect } => self.handle_copy_rect_encoding(left, rect, bytes),
            Phase::Tight { left, rect, phase } => self.handle_tight_encoding(
                left,
                rect,
                phase,
                bytes,
            ),
            Phase::ZrleLength { left, rect } => self.go_to(
                Phase::ZrleData { left, rect, len: get_be32(bytes.as_slice(), 0) },
            ),
            Phase::ZrleData { left, rect, .. } => self.handle_zrle_encoding(left, rect, bytes),
            Phase::Closed => self.go_to(Phase::Closed),
        }
    }

    /// Takes the server's version and answers with the client's.
    fn do_handshake(&mut self, bytes: Vec<u8>)
        requires
            old(self)@.core.phase == Phase::Version,
        ensures
            final(self)@ == old(self)@.apply(advance(old(self)@.core, bytes@)),
    {
        proof {
            reveal(advance);
        }
        if is_known_version(&bytes) {
            proof {
                lemma_apply_emit(
                    self@,
                    Core { phase: Phase::Security, ..self@.core },
                    OutputView::WsBuf(crate::messages::version_reply()),
                );
            }
            self.phase = Phase::Security;
            self.push_out(VncOutput::WsBuf(version_reply_message()));
        } else {
            self.fail_with(Failure::Version);
        }
    }

    /// Takes the security type that the server has chosen.
    fn do_authenticate(&mut self, bytes: Vec<u8>)
        requires
            old(self)@.core.phase == Phase::Security,
            bytes@.len() == 4,
        ensures
            final(self)@ == old(self)@.apply(advance(old(self)@.core, bytes@)),
    {
        proof {
            reveal(advance);
        }
        let auth_type = get_be32(bytes.as_slice(), 0);
        if auth_type == 1 {
            self.security_type = SecurityType::NoAuth;
            self.send_client_initilize();
        } else if auth_type == 2 {
            proof {
                lemma_apply_quiet(
                    self@,
                    Core {
                        phase: Phase::Challenge,
                        security_type: SecurityType::VncAuth,
                        ..self@.core
                    },
                );
            }
            self.security_type = SecurityType::VncAuth;
            self.phase = Phase::Challenge;
        } else {
            self.fail_with(Failure::Refused);
        }
    }

    /// Takes the challenge and asks the host for the password.
    fn read_challenge(&mut self, bytes: Vec<u8>)
        requires
            old(self)@.core.phase == Phase::Challenge,
            bytes@.len() == 16,
        ensures
            final(self)@ == old(self)@.apply(advance(old(self)@.core, bytes@)),
    {
        proof {
            reveal(advance);
        }
        let mut challenge = [0u8; 16];
        let mut i: usize = 0;
        while i < 16
            invariant
                i <= 16,
                bytes@.len() == 16,
                forall|j: int| 0 <= j < i ==> challenge@[j] == bytes@[j],
            decreases 16 - i,
        {
            challenge[i] = bytes[i];
            i += 1;
        }
        assert(challenge@ =~= bytes@);
        proof {
            lemma_apply_emit(
                self@,
                Core { phase: Phase::Credential, challenge: bytes@, ..self@.core },
                OutputView::RequirePassword,
            );
        }
        self.challenge = challenge;
        self.phase = Phase::Credential;
        self.push_out(VncOutput::RequirePassword);
    }

    /// Takes the server's verdict on the response.
    fn handle_auth_result(&mut self, bytes: Vec<u8>)
        requires
            old(self)@.core.phase == Phase::AuthResult,
            bytes@.len() == 4,
        ensures
            final(self)@ == old(self)@.apply(advance(old(self)@.core, bytes@)),
    {
        proof {
            reveal(advance);
        }
        let response = get_be32(bytes.as_slice(), 0);
        if response == 0 {
            self.send_client_initilize();
        } else if response == 1 {
            self.go_to(Phase::AuthReasonLen);
        } else {
            self.fail_with(Failure::Refused);
        }
    }

    /// Takes the fixed part of ServerInit.
    fn handle_server_init(&mut self, bytes: Vec<u8>)
        requires
            old(self)@.core.phase == Phase::InitHeader,
            bytes@.len() == 24,
        ensures
            final(self)@ == old(self)@.apply(advance(old(self)@.core, bytes@)),
    {
        proof {
            reveal(advance);
        }
        let width = get_be16(bytes.as_slice(), 0);
        let height = get_be16(bytes.as_slice(), 2);
        let pf = PixelFormat::parse(bytes.as_slice(), 4);
        let len = get_be32(bytes.as_slice(), 20);
        proof {
            assert(bytes@.skip(0) =~= bytes@);
            lemma_apply_quiet(
                self@,
                Core { phase: Phase::InitName { len }, width, height, pf, ..self@.core },
            );
        }
        self.width = width;
        self.height = height;
        self.pf = pf;
        self.phase = Phase::InitName { len };
    }

    /// Takes the desktop's name: the connection is up.
    fn read_name(&mut self, bytes: Vec<u8>)
        requires
            old(self)@.core.phase is InitName,
        ensures
            final(self)@ == old(self)@.apply(advance(old(self)@.core, bytes@)),
    {
        proof {
            reveal(advance);
        }
        let name = string_from_utf8_lossy(&bytes);
        proof {
            lemma_apply_emit(
                self@,
                Core { phase: Phase::Message, name: name@, ..self@.core },
                OutputView::SetResolution(self@.core.width, self@.core.height),
            );
        }
        self.name = name;
        self.phase = Phase::Message;
        self.push_out(VncOutput::SetResolution(self.width, self.height));
    }

    /// Takes the type of a server message.
    fn handle_server_message(&mut self, bytes: Vec<u8>)
        requires
            old(self)@.core.phase == Phase::Message,
            bytes@.len() == 1,
        ensures
            final(self)@ == old(self)@.apply(advance(old(self)@.core, bytes@)),
    {
        proof {
            reveal(advance);
        }
        let msg_type = bytes[0];
        if msg_type == 0 {
            self.go_to(Phase::UpdateHeader);
        } else if msg_type == 1 {
            self.go_to(Phase::ColourMapHeader);
        } else if msg_type == 2 {
            self.handle_bell();
        } else if msg_type == 3 {
            self.go_to(Phase::CutTextHeader);
        } else {
            self.fail_with(Failure::Refused);
        }
    }

    /// The server rings the bell: nothing is done.
    fn handle_bell(&mut self)
        requires
            old(self)@.core.phase == Phase::Message,
        ensures
            final(self)@ == old(self)@.apply(quiet(old(self)@.core)),
    {
        self.go_to(Phase::Message);
    }

    /// Takes the number of rectangles of an update.
    fn handle_framebuffer_update(&mut self, bytes: Vec<u8>)
        requires
            old(self)@.core.phase == Phase::UpdateHeader,
            bytes@.len() == 3,
        ensures
            final(self)@ == old(self)@.apply(advance(old(self)@.core, bytes@)),
    {
        proof {
            reveal(advance);
        }
        let count = get_be16(bytes.as_slice(), 1);
        if count == 0 {
            self.go_to(Phase::Message);
        } else {
            self.go_to(Phase::RectHeader { left: count });
        }
    }

    /// Takes the number of colours of a colour map.
    fn handle_set_colour_map(&mut self, bytes: Vec<u8>)
        requires
            old(self)@.core.phase == Phase::ColourMapHeader,
            bytes@.len() == 5,
        ensures
            final(self)@ == old(self)@.apply(advance(old(self)@.core, bytes@)),
    {
        proof {
            reveal(advance);
        }
        let count = get_be16(bytes.as_slice(), 3);
        self.go_to(Phase::ColourMap { len: (count as u32) * 6 });
    }

    /// Takes the colours of a colour map, which are not used.
    fn read_colour_map(&mut self, bytes: Vec<u8>)
        requires
            old(self)@.core.phase is ColourMap,
        ensures
            final(self)@ == old(self)@.apply(advance(old(self)@.core, bytes@)),
    {
        proof {
            reveal(advance);
        }
        self.go_to(Phase::Message);
    }

    /// Takes the length of the server's cut text.
    fn handle_server_cut_text(&mut self, bytes: Vec<u8>)
        requires
            old(self)@.core.phase == Phase::CutTextHeader,
            bytes@.len() == 7,
        ensures
            final(self)@ == old(self)@.apply(advance(old(self)@.core, bytes@)),
    {
        proof {
            reveal(advance);
        }
        let len = get_be32(bytes.as_slice(), 3);
        self.go_to(Phase::CutText { len });
    }

    /// Takes the server's cut text and hands it to the host.
    fn read_cut_text(&mut self, bytes: Vec<u8>)
        requires
            old(self)@.core.phase is CutText,
        ensures
            final(self)@ == old(self)@.apply(advance(old(self)@.core, bytes@)),
    {
        proof {
            reveal(advance);
        }
        let text = string_from_utf8_lossy(&bytes);
        proof {
            lemma_apply_emit(
                self@,
                Core { phase: Phase::Message, ..self@.core },
                OutputView::SetClipboard(text@),
            );
        }
        self.phase = Phase::Message;
        self.push_out(VncOutput::SetClipboard(text));
    }

    /// The phase after a rectangle.
    fn next_rect(left: u16) -> (p: Phase)
        ensures
            p == crate::model::next_rect(left),
    {
        if left <= 1 {
            Phase::Message
        } else {
            Phase::RectHeader { left: left - 1 }
        }
    }

    /// Takes the header of a rectangle and hands the rectangle to the decoder
    /// of its encoding.
    fn read_rect(&mut self, left: u16, bytes: Vec<u8>)
        requires
            old(self)@.core.phase == (Phase::RectHeader { left }),
            bytes@.len() == 12,
        ensures
            final(self)@ == old(self)@.apply(advance(old(self)@.core, bytes@)),
    {
        proof {
            reveal(advance);
        }
        let rect = VncRect {
            x: get_be16(bytes.as_slice(), 0),
            y: get_be16(bytes.as_slice(), 2),
            width: get_be16(bytes.as_slice(), 4),
            height: get_be16(bytes.as_slice(), 6),
            encoding_type: signed(get_be32(bytes.as_slice(), 8)),
        };
        assert(bytes@.skip(0) =~= bytes@);
        assert(rect == crate::model::header_rect(bytes@));
        match VncEncoding::from_code(rect.encoding_type) {
            Some(VncEncoding::Raw) => self.go_to(
                Phase::RawData { left, rect, size: raw::required(&self.pf, &rect) },
            ),
            Some(VncEncoding::CopyRect) => self.go_to(Phase::CopySource { left, rect }),
            Some(VncEncoding::Tight) => self.go_to(
                Phase::Tight { left, rect, phase: TightPhase::Control },
            ),
            Some(VncEncoding::ZRLE) => self.go_to(Phase::ZrleLength { left, rect }),
            Some(_) => self.fail_with(Failure::NotImplemented),
            None => self.fail_with(Failure::Unsupported),
        }
    }

    /// Queues the fragment that ends a rectangle.
    fn finish_rect(&mut self, left: u16, image: ImageData)
        ensures
            final(self)@ == old(self)@.apply(
                emit(
                    Core { phase: crate::model::next_rect(left), ..old(self)@.core },
                    OutputView::RenderImage(image@),
                ),
            ),
    {
        proof {
            lemma_apply_emit(
                self@,
                Core { phase: crate::model::next_rect(left), ..self@.core },
                OutputView::RenderImage(image@),
            );
        }
        self.phase = Self::next_rect(left);
        self.push_out(VncOutput::RenderImage(image));
    }

    /// Takes the pixels of a raw rectangle.
    fn handle_raw_encoding(&mut self, left: u16, rect: VncRect, bytes: Vec<u8>)
        requires
            old(self)@.core.phase matches Phase::RawData { left: l, rect: r, .. } && l == left && r
                == rect,
        ensures
            final(self)@ == old(self)@.apply(advance(old(self)@.core, bytes@)),
    {
        proof {
            reveal(advance);
        }
        self.finish_rect(left, raw::decode(&rect, bytes));
    }

    /// Takes the source of a copied rectangle.
    fn handle_copy_rect_encoding(&mut self, left: u16, rect: VncRect, bytes: Vec<u8>)
        requires
            old(self)@.core.phase == (Phase::CopySource { left, rect }),
        ensures
            final(self)@ == old(self)@.apply(advance(old(self)@.core, bytes@)),
    {
        proof {
            reveal(advance);
        }
        self.finish_rect(left, copy_rect::decode(&rect, bytes));
    }

    /// Hands the bytes of a step to the Tight decoder.
    fn handle_tight_encoding(&mut self, left: u16, rect: VncRect, phase: TightPhase, bytes: Vec<u8>)
        requires
            old(self)@.core.phase == (Phase::Tight { left, rect, phase }),
            bytes@.len() == phase.spec_require(),
        ensures
            final(self)@ == old(self)@.apply(advance(old(self)@.core, bytes@)),
    {
        proof {
            reveal(advance);
        }
        let ghost before = self@;
        let r = self.tight.step(phase, &rect, bytes);
        let ghost core = Core { tight: self@.core.tight, ..before.core };
        assert(self@ == (VncView { core, ..before }));
        match r {
            Err(e) => {
                self.fail_with(Failure::Tight(e));
            },
            Ok(TightStep::Next(p)) => {
                self.go_to(Phase::Tight { left, rect, phase: p });
            },
            Ok(TightStep::Done(image)) => {
                self.finish_rect(left, image);
            },
        }
    }

    /// Hands the block of a rectangle to the ZRLE decoder and queues its
    /// fragments.
    fn handle_zrle_encoding(&mut self, left: u16, rect: VncRect, bytes: Vec<u8>)
        requires
            old(self)@.core.phase matches Phase::ZrleData { left: l, rect: r, .. } && l == left && r
                == rect,
        ensures
            final(self)@ == old(self)@.apply(advance(old(self)@.core, bytes@)),
    {
        proof {
            reveal(advance);
        }
        let ghost before = self@;
        let pf = self.pf;
        let r = self.zrle.decode(&pf, &rect, &bytes);
        let ghost core = Core { zrle: self@.core.zrle, ..before.core };
        assert(self@ == (VncView { core, ..before }));
        match r {
            Err(e) => {
                self.fail_with(Failure::Zrle(e));
            },
            Ok(images) => {
                self.phase = Self::next_rect(left);
                self.render(images);
            },
        }
    }

    /// Queues the fragments `images`, in their order.
    fn render(&mut self, images: Vec<ImageData>)
        ensures
            final(self)@ == (VncView {
                outs: old(self)@.outs + render_all(images_view(images@)),
                ..old(self)@
            }),
    {
        let ghost all = images_view(images@);
        let mut turned = turn_over(images);
        assert(images_view(turned@).len() == turned@.len());
        assert(self@.outs + render_all(all.take(0)) =~= self@.outs);
        assert(all.skip(0) =~= all);
        while turned.len() > 0
            invariant
                turned.len() <= all.len(),
                images_view(turned@) == all.skip(all.len() - turned.len()).reverse(),
                self@ == (VncView {
                    outs: old(self)@.outs + render_all(all.take(all.len() - turned.len())),
                    ..old(self)@
                }),
            decreases turned.len(),
        {
            let ghost waiting = images_view(turned@);
            let ghost k = all.len() - turned.len();
            let image = turned.pop().unwrap();
            proof {
                assert(waiting.len() == old(self)@.outs.len() - old(self)@.outs.len() + all.len() - k);
                assert(waiting[waiting.len() - 1] == image@);
                assert(image@ == waiting.last());
                assert(waiting.last() == all[k]);
                assert(images_view(turned@) =~= waiting.drop_last());
                assert(waiting.drop_last() =~= all.skip(k + 1).reverse());
                assert(render_all(all.take(k + 1)) =~= render_all(all.take(k)).push(
                    OutputView::RenderImage(all[k]),
                ));
            }
            self.push_out(VncOutput::RenderImage(image));
            proof {
                assert(self@.outs =~= old(self)@.outs + render_all(all.take(k + 1)));
            }
        }
        assert(all.take(all.len() as int) =~= all);
    }
}

/// The fragments `images`, last first.
fn turn_over(images: Vec<ImageData>) -> (turned: Vec<ImageData>)
    ensures
        images_view(turned@) == images_view(images@).reverse(),
{
    let mut images = images;
    let ghost all = images_view(images@);
    let mut turned: Vec<ImageData> = Vec::new();
    assert(images_view(turned@) =~= all.skip(all.len() as int).reverse());
    assert(all.take(all.len() as int) =~= all);
    while images.len() > 0
        invariant
            images.len() <= all.len(),
            images_view(images@).len() == images.len(),
            images_view(images@) == all.take(images.len() as int),
            images_view(turned@) == all.skip(images.len() as int).reverse(),
        decreases images.len(),
    {
        let ghost waiting = images_view(images@);
        let ghost done = images_view(turned@);
        let image = images.pop().unwrap();
        turned.push(image);
        proof {
            let n = images.len() as int;
            assert(waiting.len() == n + 1);
            assert(waiting[n] == image@);
            assert(image@ == all[n]);
            assert(images_view(images@) =~= waiting.drop_last());
            assert(waiting.drop_last() =~= all.take(n));
            assert(images_view(turned@) =~= done.push(all[n]));
            assert(done.push(all[n]) =~= all.skip(n).reverse());
        }
    }
    assert(all.skip(0) =~= all);
    turned
}

} // verus!
