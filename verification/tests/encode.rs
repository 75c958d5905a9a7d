use bytes::{Bytes, BytesMut};
use sqlx::mariadb::encode::{Encoder, U24_MAX};
use sqlx::mariadb::types::FieldType;

#[test]
fn it_encodes_int_lenenc_none() {
    let mut encoder = Encoder::new(128);
    encoder.encode_int_lenenc(None);

    assert_eq!(&encoder.buf[..], b"\xFB");
}

#[test]
fn it_encodes_int_lenenc_u8() {
    let mut encoder = Encoder::new(128);
    encoder.encode_int_lenenc(Some(&(0xFA as usize)));

    assert_eq!(&encoder.buf[..], b"\xFA");
}

#[test]
fn it_encodes_int_lenenc_u16() {
    let mut encoder = Encoder::new(128);
    encoder.encode_int_lenenc(Some(&(std::u16::MAX as usize)));

    assert_eq!(&encoder.buf[..], b"\xFC\xFF\xFF");
}

#[test]
fn it_encodes_int_lenenc_u24() {
    let mut encoder = Encoder::new(128);
    encoder.encode_int_lenenc(Some(&U24_MAX));

    assert_eq!(&encoder.buf[..], b"\xFD\xFF\xFF\xFF");
}

#[test]
fn it_encodes_int_lenenc_u64() {
    let mut encoder = Encoder::new(128);
    encoder.encode_int_lenenc(Some(&(std::u64::MAX as usize)));

    assert_eq!(&encoder.buf[..], b"\xFE\xFF\xFF\xFF\xFF\xFF\xFF\xFF\xFF");
}

#[test]
fn it_encodes_int_lenenc_fb() {
    let mut encoder = Encoder::new(128);
    encoder.encode_int_lenenc(Some(&(0xFB as usize)));

    assert_eq!(&encoder.buf[..], b"\xFC\xFB\x00");
}

#[test]
fn it_encodes_int_lenenc_fc() {
    let mut encoder = Encoder::new(128);
    encoder.encode_int_lenenc(Some(&(0xFC as usize)));

    assert_eq!(&encoder.buf[..], b"\xFC\xFC\x00");
}

#[test]
fn it_encodes_int_lenenc_fd() {
    let mut encoder = Encoder::new(128);
    encoder.encode_int_lenenc(Some(&(0xFD as usize)));

    assert_eq!(&encoder.buf[..], b"\xFC\xFD\x00");
}

#[test]
fn it_encodes_int_lenenc_fe() {
    let mut encoder = Encoder::new(128);
    encoder.encode_int_lenenc(Some(&(0xFE as usize)));

    assert_eq!(&encoder.buf[..], b"\xFC\xFE\x00");
}

#[test]
fn it_encodes_int_lenenc_ff() {
    let mut encoder = Encoder::new(128);
    encoder.encode_int_lenenc(Some(&(0xFF as usize)));

    assert_eq!(&encoder.buf[..], b"\xFC\xFF\x00");
}

#[test]
fn it_encodes_int_lenenc_boundaries() {
    let mut encoder = Encoder::new(128);
    encoder.encode_int_lenenc(Some(&0x100));
    encoder.encode_int_lenenc(Some(&0x1_0000));
    encoder.encode_int_lenenc(Some(&0x100_0000));
    encoder.encode_int_lenenc(Some(&0));

    assert_eq!(
        &encoder.buf[..],
        b"\xFC\x00\x01\xFD\x00\x00\x01\xFE\x00\x00\x00\x01\x00\x00\x00\x00\x00"
    );
}

#[test]
fn it_encodes_int_u64() {
    let mut encoder = Encoder::new(128);
    encoder.encode_int_u64(std::u64::MAX);

    assert_eq!(&encoder.buf[..], b"\xFF\xFF\xFF\xFF\xFF\xFF\xFF\xFF");
}

#[test]
fn it_encodes_int_u32() {
    let mut encoder = Encoder::new(128);
    encoder.encode_int_u32(std::u32::MAX);

    assert_eq!(&encoder.buf[..], b"\xFF\xFF\xFF\xFF");
}

#[test]
fn it_encodes_int_u24() {
    let mut encoder = Encoder::new(128);
    encoder.encode_int_u24(U24_MAX as u32);

    assert_eq!(&encoder.buf[..], b"\xFF\xFF\xFF");
}

#[test]
fn it_encodes_int_u16() {
    let mut encoder = Encoder::new(128);
    encoder.encode_int_u16(std::u16::MAX);

    assert_eq!(&encoder.buf[..], b"\xFF\xFF");
}

#[test]
fn it_encodes_int_u8() {
    let mut encoder = Encoder::new(128);
    encoder.encode_int_u8(std::u8::MAX);

    assert_eq!(&encoder.buf[..], b"\xFF");
}

#[test]
fn it_encodes_ints_least_significant_first() {
    let mut encoder = Encoder::new(128);
    encoder.encode_int_u64(0x0102_0304_0506_0708);
    encoder.encode_int_u32(0x0A0B_0C0D);
    encoder.encode_int_u24(0xFF11_2233);
    encoder.encode_int_u16(0x4455);
    encoder.encode_int_u8(0x66);

    assert_eq!(
        &encoder.buf[..],
        b"\x08\x07\x06\x05\x04\x03\x02\x01\x0D\x0C\x0B\x0A\x33\x22\x11\x55\x44\x66"
    );
}

#[test]
fn it_encodes_signed_ints_in_twos_complement() {
    let mut encoder = Encoder::new(128);
    encoder.encode_int_i64(-2);
    encoder.encode_int_i32(-3);
    encoder.encode_int_i24(-4);
    encoder.encode_int_i16(-5);
    encoder.encode_int_i8(-6);

    assert_eq!(
        &encoder.buf[..],
        b"\xFE\xFF\xFF\xFF\xFF\xFF\xFF\xFF\xFD\xFF\xFF\xFF\xFC\xFF\xFF\xFB\xFF\xFA"
    );
}

#[test]
fn it_encodes_preencoded_ints() {
    let mut encoder = Encoder::new(128);
    encoder.encode_int_1(&Bytes::from_static(b"\x01"));
    encoder.encode_int_2(&Bytes::from_static(b"\x02\x03"));
    encoder.encode_int_4(&Bytes::from_static(b"\x04\x05\x06\x07"));
    encoder.encode_int_8(&Bytes::from_static(b"\x08\x09\x0A\x0B\x0C\x0D\x0E\x0F"));

    assert_eq!(
        &encoder.buf[..],
        b"\x01\x02\x03\x04\x05\x06\x07\x08\x09\x0A\x0B\x0C\x0D\x0E\x0F"
    );
}

#[test]
fn it_encodes_string_lenenc() {
    let mut encoder = Encoder::new(128);
    encoder.encode_string_lenenc(&Bytes::from_static(b"random_string"));

    assert_eq!(&encoder.buf[..], b"\x0Drandom_string");
}

#[test]
fn it_encodes_empty_string_lenenc() {
    let mut encoder = Encoder::new(128);
    encoder.encode_string_lenenc(&Bytes::from_static(b""));

    assert_eq!(&encoder.buf[..], b"\x00");
}

#[test]
fn it_encodes_string_fix() {
    let mut encoder = Encoder::new(128);
    encoder.encode_string_fix(&Bytes::from_static(b"random_string"), 13);

    assert_eq!(&encoder.buf[..], b"random_string");
}

#[test]
fn it_encodes_string_null() {
    let mut encoder = Encoder::new(128);
    encoder.encode_string_null(&Bytes::from_static(b"random_string"));

    assert_eq!(&encoder.buf[..], b"random_string\0");
}

#[test]
fn it_encodes_string_eof() {
    let mut encoder = Encoder::new(128);
    encoder.encode_string_eof(&Bytes::from_static(b"random_string"));

    assert_eq!(&encoder.buf[..], b"random_string");
}

#[test]
fn it_encodes_byte_lenenc() {
    let mut encoder = Encoder::new(128);
    encoder.encode_byte_lenenc(&Bytes::from("random_string"));

    assert_eq!(&encoder.buf[..], b"\x0D\x00\x00random_string");
}

#[test]
fn it_encodes_byte_fix() {
    let mut encoder = Encoder::new(128);
    encoder.encode_byte_fix(&Bytes::from("random_string"), 13);

    assert_eq!(&encoder.buf[..], b"random_string");
}

#[test]
fn it_encodes_byte_eof() {
    let mut encoder = Encoder::new(128);
    encoder.encode_byte_eof(&Bytes::from("random_string"));

    assert_eq!(&encoder.buf[..], b"random_string");
}

#[test]
fn it_frames_a_packet_header() {
    let mut encoder = Encoder::new(128);
    encoder.alloc_packet_header();
    encoder.seq_no(7);
    encoder.encode_string_eof(&Bytes::from_static(b"hello"));
    encoder.encode_length();

    assert_eq!(&encoder.buf[..], b"\x05\x00\x00\x07hello");

    encoder.clear();
    assert_eq!(&encoder.buf[..], b"");
}

#[test]
fn it_encodes_params_by_type() {
    let value = Bytes::from_static(b"abc");
    let mut encoder = Encoder::new(128);
    encoder.encode_param(&value, &FieldType::MysqlTypeVarchar);
    encoder.encode_param(&value, &FieldType::MysqlTypeLong);
    encoder.encode_param(&value, &FieldType::MysqlTypeBlob);

    assert_eq!(&encoder.buf[..], b"\x03abcabc\x03\x00\x00abc");
}

#[test]
fn it_wraps_an_existing_buffer() {
    let mut buf = BytesMut::with_capacity(16);
    buf.extend_from_slice(b"ab");
    let mut encoder = Encoder::from(buf);
    encoder.encode_int_u8(b'c');

    assert_eq!(&encoder.buf[..], b"abc");
}
