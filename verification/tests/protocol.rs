use bindkey_esp::esp_err::{ESP_ERR_INVALID_ARG, ESP_FAIL, ESP_OK};
use bindkey_esp::spi_link::protocol::{
    crc32_prefix, crc32_update, decode_capacity, decode_status, encode_capacity, encode_status,
    spi_crc32, Cmd, Header, FLAG_RESPONSE, HDR_LEN, MAGIC,
};

#[test]
fn crc32_check_value() {
    assert_eq!(spi_crc32(b"123456789"), 0xCBF4_3926);
}

#[test]
fn crc32_of_nothing_is_zero() {
    assert_eq!(spi_crc32(&[]), 0);
}

#[test]
fn crc32_of_single_bytes() {
    assert_eq!(spi_crc32(b"a"), 0xE8B7_BE43);
    assert_eq!(spi_crc32(&[0u8; 4]), 0x2144_DF1C);
}

#[test]
fn crc32_prefix_matches_whole_crc_of_prefix() {
    let data = b"123456789abc";
    assert_eq!(crc32_prefix(data, 9), 0xCBF4_3926);
    assert_eq!(crc32_prefix(data, 0), 0);
}

#[test]
fn crc32_update_from_all_ones_then_invert() {
    let c = crc32_update(0xFFFF_FFFF, b'a');
    assert_eq!(c ^ 0xFFFF_FFFF, 0xE8B7_BE43);
}

#[test]
fn header_layout_is_little_endian() {
    let h = Header::request(Cmd::Read, 0x0102, 0x0304, 0x0506_0708, 0x090A_0B0C);
    let b = h.to_bytes();
    assert_eq!(
        b,
        vec![
            0x42, 0x4B, 3, 0, 0x02, 0x01, 0x04, 0x03, 0x08, 0x07, 0x06, 0x05, 0x0C, 0x0B, 0x0A,
            0x09
        ]
    );
    assert_eq!(b.len(), HDR_LEN);
    assert_eq!(&b[0..2], b"BK");
}

#[test]
fn header_roundtrip() {
    let h = Header::request(Cmd::Write, 7, 3, 100, 40);
    let b = h.to_bytes();
    assert_eq!(Header::from_bytes(&b), Some(h));
    assert!(h.is_valid());
    assert_eq!(h.cmd_enum(), Some(Cmd::Write));
}

#[test]
fn header_from_short_buffer_is_none() {
    assert_eq!(Header::from_bytes(&[0x42, 0x4B, 1]), None);
    assert_eq!(Header::from_bytes(&[0u8; 15]), None);
}

#[test]
fn header_with_bad_magic_is_invalid() {
    let mut b = Header::request(Cmd::Flush, 1, 0, 0, 0).to_bytes();
    b[0] = b'X';
    let h = Header::from_bytes(&b).unwrap();
    assert!(!h.is_valid());
    assert_ne!(h.magic, MAGIC);
}

#[test]
fn command_codes() {
    for (cmd, code) in [
        (Cmd::GetStatus, 1u8),
        (Cmd::GetCapacity, 2),
        (Cmd::Read, 3),
        (Cmd::Write, 4),
        (Cmd::Flush, 5),
    ] {
        assert_eq!(cmd.code(), code);
        assert_eq!(Cmd::from_code(code), Some(cmd));
    }
    assert_eq!(Cmd::from_code(0), None);
    assert_eq!(Cmd::from_code(6), None);
    assert_eq!(Cmd::from_code(255), None);
}

#[test]
fn response_header_echoes_request() {
    let req = Header::request(Cmd::GetCapacity, 99, 5, 1, 2);
    let resp = Header::response_for(&req, ESP_ERR_INVALID_ARG);
    assert_eq!(resp.magic, MAGIC);
    assert_eq!(resp.cmd, req.cmd);
    assert_eq!(resp.seq, 99);
    assert_eq!(resp.flags, FLAG_RESPONSE);
    assert_eq!(resp.reserved, 0);
    assert_eq!(resp.arg1, 0);
    assert_eq!(resp.status(), ESP_ERR_INVALID_ARG);
}

#[test]
fn status_words() {
    assert_eq!(encode_status(ESP_OK), 0);
    assert_eq!(encode_status(ESP_FAIL), 0xFFFF_FFFF);
    assert_eq!(encode_status(0x109), 0x109);
    assert_eq!(encode_status(i32::MIN), 0x8000_0000);
    assert_eq!(decode_status(0xFFFF_FFFF), -1);
    assert_eq!(decode_status(0x8000_0000), i32::MIN);
    for s in [0, 1, -1, 0x103, i32::MAX, i32::MIN] {
        assert_eq!(decode_status(encode_status(s)), s);
    }
}

#[test]
fn capacity_payload() {
    let p = encode_capacity(512, 0x0003_A980);
    assert_eq!(p, vec![0x00, 0x02, 0, 0, 0x80, 0xA9, 0x03, 0x00]);
    assert_eq!(decode_capacity(&p), Some((512, 0x0003_A980)));
    assert_eq!(decode_capacity(&p[..7]), None);
    assert_eq!(decode_capacity(&[]), None);
}
