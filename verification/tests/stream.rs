use webvnc::stream::{StreamReader, StreamWriter};

#[test]
fn reader_holds_chunks_in_order() {
    let mut r = StreamReader::new(vec![vec![1, 2], vec![], vec![3]]);
    assert_eq!(r.remain(), 3);
    r.append(vec![4, 5]);
    assert_eq!(r.remain(), 5);
    let mut out = vec![9];
    r.read_exact_vec(&mut out, 4);
    assert_eq!(out, vec![9, 1, 2, 3, 4]);
    assert_eq!(r.remain(), 1);
    assert_eq!(r.read_u8(), 5);
    assert_eq!(r.remain(), 0);
}

#[test]
fn reads_take_exactly_their_width() {
    let mut r = StreamReader::new(Vec::new());
    r.append(vec![0x12, 0x34, 0x56, 0x78, 0x9a, 0xbc, 0xde, 0xf0, 0x11]);
    r.append(vec![0x22, 0x33, 0x44, 0x55, 0x66, 0x77, 0x88, 0x99]);
    assert_eq!(r.remain(), 17);
    assert_eq!(r.read_u8(), 0x12);
    assert_eq!(r.remain(), 16);
    assert_eq!(r.read_u16(), 0x3456);
    assert_eq!(r.remain(), 14);
    assert_eq!(r.read_u32(), 0x789abcde);
    assert_eq!(r.remain(), 10);
    assert_eq!(r.read_u64(), 0xf011223344556677);
    assert_eq!(r.remain(), 2);
    let mut buf = [0u8; 4];
    r.read_exact(&mut buf, 2);
    assert_eq!(buf, [0x88, 0x99, 0, 0]);
    assert_eq!(r.remain(), 0);
}

#[test]
fn reads_cross_chunk_borders() {
    let mut r = StreamReader::new(Vec::new());
    r.append(vec![0xde]);
    r.append(vec![0xad, 0xbe]);
    r.append(vec![0xef, 0x01]);
    assert_eq!(r.read_u32(), 0xdeadbeef);
    assert_eq!(r.remain(), 1);
    r.append(vec![0x02]);
    assert_eq!(r.read_u16(), 0x0102);
    assert_eq!(r.remain(), 0);
}

#[test]
fn read_of_nothing_changes_nothing() {
    let mut r = StreamReader::new(vec![vec![7, 8]]);
    let mut out = Vec::new();
    r.read_exact_vec(&mut out, 0);
    assert!(out.is_empty());
    assert_eq!(r.remain(), 2);
    assert_eq!(r.read_string(0), "");
    assert_eq!(r.remain(), 2);
}

#[test]
fn read_string_decodes_utf8() {
    let mut r = StreamReader::new(vec!["héllo!".as_bytes().to_vec()]);
    assert_eq!(r.read_string(6), "héllo");
    assert_eq!(r.remain(), 1);
}

#[test]
fn read_string_replaces_what_is_not_utf8() {
    let mut r = StreamReader::new(vec![vec![b'a', 0xff, b'b']]);
    assert_eq!(r.read_string(3), "a\u{fffd}b");
    assert_eq!(r.remain(), 0);
}

#[test]
fn writer_lays_integers_out_big_endian() {
    let mut buf = vec![0xaa];
    let mut w = StreamWriter::new(&mut buf);
    w.write_u8(1);
    w.write_u16(0x0203);
    w.write_u32(0x04050607);
    assert_eq!(buf, vec![0xaa, 1, 2, 3, 4, 5, 6, 7]);
}

#[test]
fn writer_writes_signed_values_in_twos_complement() {
    let mut buf = Vec::new();
    let mut w = StreamWriter::new(&mut buf);
    w.write_s8(-1);
    w.write_s8(5);
    w.write_s16(-2);
    w.write_s16(0x1234);
    w.write_s32(-239);
    w.write_s32(16);
    w.write_s32(i32::MIN);
    assert_eq!(
        buf,
        vec![
            0xff, 5, 0xff, 0xfe, 0x12, 0x34, 0xff, 0xff, 0xff, 0x11, 0, 0, 0, 16, 0x80, 0, 0, 0
        ]
    );
}

#[test]
fn writer_writes_strings_and_slices() {
    let mut buf = Vec::new();
    let mut w = StreamWriter::new(&mut buf);
    w.write_string("ab");
    w.write_string_l16("cd");
    w.write_string_l32("é");
    w.write_slice(&[9, 8]);
    assert_eq!(
        buf,
        vec![b'a', b'b', 0, 2, b'c', b'd', 0, 0, 0, 2, 0xc3, 0xa9, 9, 8]
    );
}

#[test]
fn what_is_written_reads_back() {
    let mut buf = Vec::new();
    let mut w = StreamWriter::new(&mut buf);
    w.write_u16(0xbeef);
    w.write_u32(0xdeadbeef);
    w.write_u8(0x7f);
    let mut r = StreamReader::new(vec![buf]);
    assert_eq!(r.read_u16(), 0xbeef);
    assert_eq!(r.read_u32(), 0xdeadbeef);
    assert_eq!(r.read_u8(), 0x7f);
    assert_eq!(r.remain(), 0);
}
