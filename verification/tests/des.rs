use webvnc::des;

#[test]
fn des_encrypts_the_textbook_block() {
    assert_eq!(
        des::encrypt_block(0x133457799BBCDFF1, 0x0123456789ABCDEF),
        0x85E813540F0AB405
    );
}

#[test]
fn password_key_reverses_the_bits_of_each_byte() {
    assert_eq!(
        des::key_of(b"pw"),
        vec![0x0e, 0xee, 0, 0, 0, 0, 0, 0]
    );
    assert_eq!(
        des::key_of(&[0x01, 0x80, 0xff, 0x00, 0x0f, 0xa5, 0x12, 0x34, 0x56]),
        vec![0x80, 0x01, 0xff, 0x00, 0xf0, 0xa5, 0x48, 0x2c]
    );
}

#[test]
fn auth_response_matches_the_golden_vector() {
    let challenge: Vec<u8> = (0u8..16).collect();
    let key = des::key_of(b"pw");
    assert_eq!(
        des::encrypt(&challenge, &key),
        vec![133, 134, 0, 217, 175, 20, 60, 158, 101, 65, 211, 221, 146, 168, 53, 208]
    );
}

#[test]
fn auth_response_for_a_long_password_uses_eight_bytes() {
    let challenge: Vec<u8> = (0u8..16).collect();
    let expected = vec![
        184, 102, 146, 65, 37, 200, 238, 187, 157, 235, 193, 219, 97, 197, 56, 226,
    ];
    assert_eq!(des::encrypt(&challenge, &des::key_of(b"password")), expected);
    assert_eq!(
        des::encrypt(&challenge, &des::key_of(b"passwordand more")),
        expected
    );
}

#[test]
fn auth_response_for_equal_halves_has_equal_halves() {
    let challenge = vec![0x11u8; 16];
    assert_eq!(
        des::encrypt(&challenge, &des::key_of(b"secret")),
        vec![65, 216, 246, 185, 196, 238, 3, 162, 65, 216, 246, 185, 196, 238, 3, 162]
    );
    assert_eq!(
        des::encrypt(&vec![0u8; 16], &des::key_of(b"")),
        vec![140, 166, 77, 233, 193, 177, 35, 167, 140, 166, 77, 233, 193, 177, 35, 167]
    );
}
