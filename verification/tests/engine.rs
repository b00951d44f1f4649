use flate2::{Compress, Compression, FlushCompress};
use webvnc::types::{
    ImageData, ImageType, MouseEventType, SecurityType, ServerMessage, VncOutput, VncState,
};
use webvnc::vnc::Vnc;

fn server_init(width: u16, height: u16, format: [u8; 16], name: &str) -> Vec<u8> {
    let mut out = Vec::new();
    out.extend_from_slice(&width.to_be_bytes());
    out.extend_from_slice(&height.to_be_bytes());
    out.extend_from_slice(&format);
    out.extend_from_slice(&(name.len() as u32).to_be_bytes());
    out.extend_from_slice(name.as_bytes());
    out
}

fn true_colour() -> [u8; 16] {
    [32, 24, 0, 1, 0, 255, 0, 255, 0, 255, 24, 16, 8, 0, 0, 0]
}

fn rect_header(x: u16, y: u16, width: u16, height: u16, encoding: i32) -> Vec<u8> {
    let mut out = Vec::new();
    for v in [x, y, width, height] {
        out.extend_from_slice(&v.to_be_bytes());
    }
    out.extend_from_slice(&encoding.to_be_bytes());
    out
}

fn update(rects: u16) -> Vec<u8> {
    vec![0, 0, (rects >> 8) as u8, rects as u8]
}

/// The bytes of a server that asks for no password, up to a connection for a
/// frame buffer of 4 by 3 pixels.
fn open_stream() -> Vec<u8> {
    let mut s = b"RFB 003.008\n".to_vec();
    s.extend_from_slice(&[0, 0, 0, 1]);
    s.extend(server_init(4, 3, true_colour(), "desk"));
    s
}

fn connected() -> Vnc {
    let mut vnc = Vnc::new();
    vnc.do_input(open_stream());
    assert_eq!(vnc.state(), VncState::Connected);
    vnc.get_output();
    vnc
}

fn deflate(stream: &mut Compress, data: &[u8]) -> Vec<u8> {
    let mut out = Vec::with_capacity(data.len() + 64);
    stream.compress_vec(data, &mut out, FlushCompress::Sync).unwrap();
    out
}

/// A session that uses every message and every encoding.
fn long_stream() -> Vec<u8> {
    let mut s = open_stream();
    s.push(2);
    s.extend(update(5));
    s.extend(rect_header(0, 0, 2, 1, 0));
    s.extend_from_slice(&[1, 2, 3, 4, 5, 6, 7, 8]);
    s.extend(rect_header(1, 1, 2, 2, 1));
    s.extend_from_slice(&[0, 0, 0, 1]);
    s.extend(rect_header(0, 0, 4, 3, 7));
    s.extend_from_slice(&[0x80, 10, 20, 30]);
    let mut tight = Compress::new(Compression::default(), true);
    let block = deflate(&mut tight, &(1u8..13).collect::<Vec<u8>>());
    s.extend(rect_header(2, 1, 2, 2, 7));
    s.push(0x00);
    s.push(block.len() as u8);
    s.extend(block);
    let mut zrle = Compress::new(Compression::default(), true);
    let block = deflate(&mut zrle, &[0x01, 10, 20, 30]);
    s.extend(rect_header(0, 0, 3, 2, 16));
    s.extend_from_slice(&(block.len() as u32).to_be_bytes());
    s.extend(block);
    s.extend_from_slice(&[1, 0, 0, 0, 0, 2]);
    s.extend_from_slice(&[0u8; 12]);
    s.extend_from_slice(&[3, 0, 0, 0, 0, 0, 0, 5]);
    s.extend_from_slice(b"hello");
    s.extend(update(1));
    s.extend(rect_header(0, 0, 0, 0, 0));
    s.extend(update(0));
    s.push(2);
    s
}

fn feed_in_chunks(stream: &[u8], size: usize, drain: bool) -> (Vec<VncOutput>, Vnc) {
    let mut vnc = Vnc::new();
    let mut out = Vec::new();
    for chunk in stream.chunks(size) {
        vnc.do_input(chunk.to_vec());
        if drain {
            out.extend(vnc.get_output());
        }
    }
    out.extend(vnc.get_output());
    (out, vnc)
}

#[test]
fn a_new_engine_waits_for_the_version() {
    let mut vnc = Vnc::new();
    assert_eq!(vnc.state(), VncState::Init);
    assert_eq!(vnc.require(), 12);
    assert_eq!(vnc.security_type(), SecurityType::Invalid);
    assert_eq!(vnc.msg_handling(), ServerMessage::Idle);
    assert_eq!(vnc.resolution(), (0, 0));
    assert!(vnc.get_output().is_empty());
}

#[test]
fn handshake_with_password() {
    let mut vnc = Vnc::new();
    vnc.do_input(b"RFB 003.008\n".to_vec());
    assert_eq!(
        vnc.get_output(),
        vec![VncOutput::WsBuf(b"RFB 003.003\n".to_vec())]
    );
    assert_eq!(vnc.state(), VncState::Handshake);
    assert_eq!(vnc.require(), 4);

    vnc.do_input(vec![0, 0, 0, 2]);
    assert_eq!(vnc.state(), VncState::Authing);
    assert_eq!(vnc.require(), 16);
    assert_eq!(vnc.security_type(), SecurityType::VncAuth);
    assert!(vnc.get_output().is_empty());

    vnc.do_input((0u8..16).collect());
    assert_eq!(vnc.get_output(), vec![VncOutput::RequirePassword]);
    assert_eq!(vnc.state(), VncState::Authing);

    vnc.set_credential("pw");
    let out = vnc.get_output();
    assert_eq!(
        out,
        vec![VncOutput::WsBuf(vec![
            133, 134, 0, 217, 175, 20, 60, 158, 101, 65, 211, 221, 146, 168, 53, 208
        ])]
    );
    assert_eq!(vnc.require(), 4);

    vnc.do_input(vec![0, 0, 0, 0]);
    assert_eq!(vnc.get_output(), vec![VncOutput::WsBuf(vec![1])]);
    assert_eq!(vnc.state(), VncState::ServerInit);
    assert_eq!(vnc.require(), 24);

    vnc.do_input(server_init(1, 1, [0; 16], ""));
    assert_eq!(vnc.get_output(), vec![VncOutput::SetResolution(1, 1)]);
    assert_eq!(vnc.state(), VncState::Connected);
    assert_eq!(vnc.require(), 1);
    assert_eq!(vnc.resolution(), (1, 1));
    assert_eq!(vnc.name(), "");
}

#[test]
fn handshake_without_password() {
    let mut vnc = Vnc::new();
    vnc.do_input(open_stream());
    assert_eq!(
        vnc.get_output(),
        vec![
            VncOutput::WsBuf(b"RFB 003.003\n".to_vec()),
            VncOutput::WsBuf(vec![1]),
            VncOutput::SetResolution(4, 3),
        ]
    );
    assert_eq!(vnc.security_type(), SecurityType::NoAuth);
    assert_eq!(vnc.state(), VncState::Connected);
    assert_eq!(vnc.name(), "desk");
    let pf = vnc.pixel_format();
    assert_eq!((pf.bits_per_pixel, pf.depth, pf.red_max, pf.red_shift), (32, 24, 255, 24));
}

#[test]
fn every_known_version_is_answered_with_3_3() {
    for offer in [&b"RFB 003.003\n"[..], b"RFB 003.007\n", b"RFB 003.008\n"] {
        let mut vnc = Vnc::new();
        vnc.do_input(offer.to_vec());
        assert_eq!(
            vnc.get_output(),
            vec![VncOutput::WsBuf(b"RFB 003.003\n".to_vec())]
        );
    }
}

#[test]
fn unknown_version_ends_the_connection() {
    let mut vnc = Vnc::new();
    vnc.do_input(b"RFB 004.000\n".to_vec());
    assert_eq!(
        vnc.get_output(),
        vec![VncOutput::Error("unsupported version".to_string())]
    );
    assert_eq!(vnc.state(), VncState::Disconnected);
}

#[test]
fn unknown_security_type_ends_the_connection() {
    let mut vnc = Vnc::new();
    vnc.do_input(b"RFB 003.003\n".to_vec());
    vnc.get_output();
    vnc.do_input(vec![0, 0, 0, 0]);
    assert_eq!(
        vnc.get_output(),
        vec![VncOutput::Error("Connection failed with unknown reason".to_string())]
    );
    assert_eq!(vnc.state(), VncState::Disconnected);
    assert_eq!(vnc.security_type(), SecurityType::Invalid);
}

#[test]
fn refusal_is_handed_on_with_the_servers_words() {
    let mut vnc = Vnc::new();
    vnc.do_input(b"RFB 003.003\n".to_vec());
    vnc.do_input(vec![0, 0, 0, 2]);
    vnc.do_input(vec![7; 16]);
    vnc.set_credential("wrong");
    vnc.get_output();
    vnc.do_input(vec![0, 0, 0, 1]);
    assert_eq!(vnc.state(), VncState::Authing);
    assert_eq!(vnc.require(), 4);
    vnc.do_input(vec![0, 0, 0, 12]);
    assert_eq!(vnc.require(), 12);
    vnc.do_input(b"bad pass".to_vec());
    assert!(vnc.get_output().is_empty());
    vnc.do_input(b"word".to_vec());
    assert_eq!(
        vnc.get_output(),
        vec![VncOutput::Error("bad password".to_string())]
    );
    assert_eq!(vnc.state(), VncState::Disconnected);
}

#[test]
fn verdict_that_is_no_verdict_ends_the_connection() {
    let mut vnc = Vnc::new();
    vnc.do_input(b"RFB 003.003\n".to_vec());
    vnc.do_input(vec![0, 0, 0, 2]);
    vnc.do_input(vec![7; 16]);
    vnc.set_credential("x");
    vnc.get_output();
    vnc.do_input(vec![0, 0, 0, 2]);
    assert_eq!(
        vnc.get_output(),
        vec![VncOutput::Error("Connection failed with unknown reason".to_string())]
    );
}

#[test]
fn password_is_only_taken_when_asked_for() {
    let mut vnc = Vnc::new();
    vnc.set_credential("pw");
    assert!(vnc.get_output().is_empty());
    assert_eq!(vnc.state(), VncState::Init);
    let mut vnc = connected();
    vnc.set_credential("pw");
    assert!(vnc.get_output().is_empty());
    assert_eq!(vnc.state(), VncState::Connected);
}

#[test]
fn bytes_wait_while_the_password_is_asked_for() {
    let mut vnc = Vnc::new();
    let mut early = b"RFB 003.003\n".to_vec();
    early.extend_from_slice(&[0, 0, 0, 2]);
    early.extend_from_slice(&[9; 16]);
    early.extend_from_slice(&[0, 0, 0, 0]);
    vnc.do_input(early);
    assert_eq!(vnc.get_output().last(), Some(&VncOutput::RequirePassword));
    assert_eq!(vnc.state(), VncState::Authing);
    vnc.set_credential("pw");
    assert_eq!(vnc.get_output().len(), 1);
    vnc.do_input(Vec::new());
    assert_eq!(vnc.get_output(), vec![VncOutput::WsBuf(vec![1])]);
    assert_eq!(vnc.state(), VncState::ServerInit);
}

#[test]
fn raw_rectangle_is_rendered() {
    let mut vnc = connected();
    vnc.do_input(update(1));
    assert_eq!(vnc.msg_handling(), ServerMessage::FramebufferUpdate);
    assert_eq!(vnc.require(), 12);
    vnc.do_input(rect_header(1, 2, 2, 2, 0));
    assert_eq!(vnc.require(), 16);
    vnc.do_input(vec![1, 2, 3, 4, 5, 6, 7, 8, 9, 10, 11, 12, 13, 14, 15]);
    assert!(vnc.get_output().is_empty());
    vnc.do_input(vec![16]);
    assert_eq!(
        vnc.get_output(),
        vec![VncOutput::RenderImage(ImageData {
            type_: ImageType::Raw,
            x: 1,
            y: 2,
            width: 2,
            height: 2,
            data: vec![3, 2, 1, 255, 7, 6, 5, 255, 11, 10, 9, 255, 15, 14, 13, 255],
        })]
    );
    assert_eq!(vnc.msg_handling(), ServerMessage::Idle);
    assert_eq!(vnc.require(), 1);
}

#[test]
fn copy_rectangle_is_handed_on() {
    let mut vnc = connected();
    let mut s = update(2);
    s.extend(rect_header(5, 6, 7, 8, 1));
    s.extend_from_slice(&[0, 1, 0, 2]);
    vnc.do_input(s);
    assert_eq!(
        vnc.get_output(),
        vec![VncOutput::RenderImage(ImageData {
            type_: ImageType::Copy,
            x: 5,
            y: 6,
            width: 7,
            height: 8,
            data: vec![0, 1, 0, 2],
        })]
    );
    assert_eq!(vnc.msg_handling(), ServerMessage::FramebufferUpdate);
    assert_eq!(vnc.require(), 12);
}

#[test]
fn tight_fill_rectangle_is_rendered() {
    let mut vnc = connected();
    let mut s = update(1);
    s.extend(rect_header(0, 0, 4, 3, 7));
    s.extend_from_slice(&[0x80, 10, 20, 30]);
    vnc.do_input(s);
    assert_eq!(
        vnc.get_output(),
        vec![VncOutput::RenderImage(ImageData {
            type_: ImageType::Fill,
            x: 0,
            y: 0,
            width: 4,
            height: 3,
            data: vec![10, 20, 30],
        })]
    );
    assert_eq!(vnc.require(), 1);
}

#[test]
fn zrle_rectangle_gives_a_fragment_for_each_tile() {
    let mut vnc = connected();
    let mut sender = Compress::new(Compression::default(), true);
    let block = deflate(&mut sender, &[0x01, 1, 2, 3, 0x01, 4, 5, 6]);
    let mut s = update(1);
    s.extend(rect_header(0, 0, 65, 1, 16));
    s.extend_from_slice(&(block.len() as u32).to_be_bytes());
    s.extend(block);
    vnc.do_input(s);
    let out = vnc.get_output();
    assert_eq!(out.len(), 2);
    match (&out[0], &out[1]) {
        (VncOutput::RenderImage(a), VncOutput::RenderImage(b)) => {
            assert_eq!((a.x, a.width, a.height), (0, 64, 1));
            assert_eq!(a.data, [[3u8, 2, 1, 255]; 64].concat());
            assert_eq!((b.x, b.width, b.height), (64, 1, 1));
            assert_eq!(b.data, vec![6, 5, 4, 255]);
        }
        other => panic!("expected two fragments, got {:?}", other),
    }
    assert_eq!(vnc.state(), VncState::Connected);
}

#[test]
fn unknown_encoding_ends_the_connection_for_good() {
    let mut vnc = connected();
    let mut s = update(1);
    s.extend(rect_header(0, 0, 1, 1, 99));
    vnc.do_input(s);
    assert_eq!(
        vnc.get_output(),
        vec![VncOutput::Error("unsupported encoding".to_string())]
    );
    assert_eq!(vnc.state(), VncState::Disconnected);
    vnc.do_input(update(1));
    vnc.do_input(rect_header(0, 0, 1, 1, 0));
    vnc.do_input(vec![1, 2, 3, 4]);
    assert!(vnc.get_output().is_empty());
    assert_eq!(vnc.state(), VncState::Disconnected);
}

#[test]
fn encodings_without_a_decoder_end_the_connection() {
    for encoding in [2, 5, 15, -239, -223] {
        let mut vnc = connected();
        let mut s = update(1);
        s.extend(rect_header(0, 0, 1, 1, encoding));
        vnc.do_input(s);
        assert_eq!(
            vnc.get_output(),
            vec![VncOutput::Error("encoding not implemented".to_string())]
        );
        assert_eq!(vnc.state(), VncState::Disconnected);
    }
}

#[test]
fn decode_errors_end_the_connection() {
    let cases: Vec<(i32, Vec<u8>, &str)> = vec![
        (7, vec![0xa0], "PNG received in standard Tight rect"),
        (7, vec![0xf0], "Illegal tight compression received"),
        (7, vec![0x40, 2], "Gradient filter not implemented"),
        (7, vec![0x40, 9], "Illegal tight filter received"),
        (7, vec![0x00, 3, 1, 2, 3], "corrupt zlib data"),
        (16, vec![0, 0, 0, 2, 1, 2], "corrupt zlib data"),
    ];
    for (encoding, body, text) in cases {
        let mut vnc = connected();
        let mut s = update(1);
        s.extend(rect_header(0, 0, 4, 3, encoding));
        s.extend(body);
        vnc.do_input(s);
        assert_eq!(vnc.get_output(), vec![VncOutput::Error(text.to_string())]);
        assert_eq!(vnc.state(), VncState::Disconnected);
    }
    let mut vnc = connected();
    let mut sender = Compress::new(Compression::default(), true);
    let block = deflate(&mut sender, &[0x81, 1, 2, 3]);
    let mut s = update(1);
    s.extend(rect_header(0, 0, 1, 1, 16));
    s.extend_from_slice(&(block.len() as u32).to_be_bytes());
    s.extend(block);
    vnc.do_input(s);
    assert_eq!(
        vnc.get_output(),
        vec![VncOutput::Error("ZRLE subencoding".to_string())]
    );
}

#[test]
fn unknown_message_ends_the_connection() {
    let mut vnc = connected();
    vnc.do_input(vec![4]);
    assert_eq!(
        vnc.get_output(),
        vec![VncOutput::Error("Connection failed with unknown reason".to_string())]
    );
    assert_eq!(vnc.state(), VncState::Disconnected);
}

#[test]
fn bell_does_nothing() {
    let mut vnc = connected();
    vnc.do_input(vec![2, 2, 2]);
    assert!(vnc.get_output().is_empty());
    assert_eq!(vnc.state(), VncState::Connected);
    assert_eq!(vnc.require(), 1);
}

#[test]
fn colour_map_is_taken_and_dropped() {
    let mut vnc = connected();
    vnc.do_input(vec![1, 0, 0, 5, 0, 2]);
    assert_eq!(vnc.msg_handling(), ServerMessage::SetColourMap);
    assert_eq!(vnc.require(), 12);
    vnc.do_input(vec![0; 11]);
    assert_eq!(vnc.msg_handling(), ServerMessage::SetColourMap);
    vnc.do_input(vec![0, 2]);
    assert_eq!(vnc.msg_handling(), ServerMessage::Idle);
    assert!(vnc.get_output().is_empty());
    assert_eq!(vnc.state(), VncState::Connected);
}

#[test]
fn cut_text_goes_to_the_clipboard() {
    let mut vnc = connected();
    vnc.do_input(vec![3, 0, 0, 0, 0, 0, 0, 5, b'h', b'e']);
    assert_eq!(vnc.msg_handling(), ServerMessage::ServerCutText);
    assert_eq!(vnc.require(), 5);
    assert!(vnc.get_output().is_empty());
    vnc.do_input(b"llo".to_vec());
    assert_eq!(
        vnc.get_output(),
        vec![VncOutput::SetClipboard("hello".to_string())]
    );
    vnc.do_input(vec![3, 0, 0, 0, 0, 0, 0, 0]);
    assert_eq!(
        vnc.get_output(),
        vec![VncOutput::SetClipboard(String::new())]
    );
    vnc.do_input(vec![3, 0, 0, 0, 0, 0, 0, 2, 0xe9, b'!']);
    assert_eq!(
        vnc.get_output(),
        vec![VncOutput::SetClipboard("\u{fffd}!".to_string())]
    );
}

#[test]
fn update_without_rectangles_is_over_at_once() {
    let mut vnc = connected();
    vnc.do_input(update(0));
    assert_eq!(vnc.msg_handling(), ServerMessage::Idle);
    assert_eq!(vnc.require(), 1);
    let mut s = update(1);
    s.extend(rect_header(3, 3, 0, 7, 0));
    vnc.do_input(s);
    assert_eq!(
        vnc.get_output(),
        vec![VncOutput::RenderImage(ImageData {
            type_: ImageType::Raw,
            x: 3,
            y: 3,
            width: 0,
            height: 7,
            data: Vec::new(),
        })]
    );
    assert_eq!(vnc.msg_handling(), ServerMessage::Idle);
}

#[test]
fn chunk_borders_make_no_difference() {
    let stream = long_stream();
    let (whole, end) = feed_in_chunks(&stream, stream.len(), false);
    assert_eq!(whole.len(), 10);
    assert_eq!(end.state(), VncState::Connected);
    assert_eq!(end.require(), 1);
    for size in [1, 2, 3, 5, 7, 11, 13, 64, 100] {
        for drain in [false, true] {
            let (out, vnc) = feed_in_chunks(&stream, size, drain);
            assert_eq!(out, whole, "chunks of {} bytes", size);
            assert_eq!(vnc.state(), VncState::Connected);
            assert_eq!(vnc.require(), 1);
        }
    }
}

#[test]
fn long_session_gives_its_effects_in_order() {
    let stream = long_stream();
    let (out, _) = feed_in_chunks(&stream, 9, true);
    let fragment = |type_, x, y, width, height, data: Vec<u8>| {
        VncOutput::RenderImage(ImageData { type_, x, y, width, height, data })
    };
    assert_eq!(
        out,
        vec![
            VncOutput::WsBuf(b"RFB 003.003\n".to_vec()),
            VncOutput::WsBuf(vec![1]),
            VncOutput::SetResolution(4, 3),
            fragment(ImageType::Raw, 0, 0, 2, 1, vec![3, 2, 1, 255, 7, 6, 5, 255]),
            fragment(ImageType::Copy, 1, 1, 2, 2, vec![0, 0, 0, 1]),
            fragment(ImageType::Fill, 0, 0, 4, 3, vec![10, 20, 30]),
            fragment(
                ImageType::Raw,
                2,
                1,
                2,
                2,
                vec![1, 2, 3, 255, 4, 5, 6, 255, 7, 8, 9, 255, 10, 11, 12, 255]
            ),
            fragment(ImageType::Raw, 0, 0, 3, 2, [[30u8, 20, 10, 255]; 6].concat()),
            VncOutput::SetClipboard("hello".to_string()),
            fragment(ImageType::Raw, 0, 0, 0, 0, Vec::new()),
        ]
    );
}

#[test]
fn frame_request_tells_the_encodings_once() {
    let mut vnc = connected();
    vnc.require_frame(0);
    assert_eq!(
        vnc.get_output(),
        vec![
            VncOutput::WsBuf(vec![
                2, 0, 0, 4, 0, 0, 0, 7, 0, 0, 0, 16, 0, 0, 0, 1, 0, 0, 0, 0
            ]),
            VncOutput::WsBuf(vec![3, 0, 0, 0, 0, 0, 0, 4, 0, 3]),
        ]
    );
    vnc.require_frame(1);
    assert_eq!(
        vnc.get_output(),
        vec![VncOutput::WsBuf(vec![3, 1, 0, 0, 0, 0, 0, 4, 0, 3])]
    );
    vnc.require_frame(0);
    assert_eq!(
        vnc.get_output(),
        vec![VncOutput::WsBuf(vec![3, 0, 0, 0, 0, 0, 0, 4, 0, 3])]
    );
}

#[test]
fn frame_is_not_asked_for_in_the_middle_of_a_message() {
    let mut vnc = connected();
    vnc.do_input(update(1));
    vnc.require_frame(1);
    assert!(vnc.get_output().is_empty());
    vnc.require_frame(0);
    assert_eq!(vnc.get_output().len(), 1);
    vnc.do_input(rect_header(0, 0, 0, 0, 0));
    vnc.get_output();
    vnc.require_frame(1);
    assert_eq!(vnc.get_output().len(), 1);
}

#[test]
fn keys_and_pointer_are_sent_while_connected() {
    let mut vnc = connected();
    vnc.key_press(0xff0d, true);
    vnc.key_press(0xff0d, false);
    vnc.mouse_event(10, 20, 0, MouseEventType::Down);
    vnc.mouse_event(11, 21, 2, MouseEventType::Down);
    vnc.mouse_event(12, 22, 0, MouseEventType::Up);
    vnc.mouse_event(-5, 70000, 0, MouseEventType::Move);
    assert_eq!(
        vnc.get_output(),
        vec![
            VncOutput::WsBuf(vec![4, 1, 0, 0, 0, 0, 0xff, 0x0d]),
            VncOutput::WsBuf(vec![4, 0, 0, 0, 0, 0, 0xff, 0x0d]),
            VncOutput::WsBuf(vec![5, 1, 0, 10, 0, 20]),
            VncOutput::WsBuf(vec![5, 5, 0, 11, 0, 21]),
            VncOutput::WsBuf(vec![5, 4, 0, 12, 0, 22]),
            VncOutput::WsBuf(vec![5, 4, 0, 0, 0, 0]),
        ]
    );
}

#[test]
fn keys_and_pointer_are_dropped_before_the_connection_is_up() {
    let mut vnc = Vnc::new();
    vnc.key_press(0x61, true);
    vnc.mouse_event(1, 1, 0, MouseEventType::Down);
    assert!(vnc.get_output().is_empty());
    vnc.do_input(open_stream());
    vnc.get_output();
    vnc.mouse_event(1, 1, 1, MouseEventType::Down);
    assert_eq!(vnc.get_output(), vec![VncOutput::WsBuf(vec![5, 2, 0, 1, 0, 1])]);
}

#[test]
fn clipboard_text_is_sent() {
    let mut vnc = connected();
    vnc.set_clipboard("héllo");
    assert_eq!(
        vnc.get_output(),
        vec![VncOutput::WsBuf(vec![
            6, 0, 0, 0, 0, 0, 0, 6, b'h', 0xc3, 0xa9, b'l', b'l', b'o'
        ])]
    );
}

#[test]
fn queue_is_empty_once_it_is_handed_over() {
    let mut vnc = Vnc::new();
    vnc.do_input(b"RFB 003.008\n".to_vec());
    assert_eq!(vnc.get_output().len(), 1);
    assert!(vnc.get_output().is_empty());
}
