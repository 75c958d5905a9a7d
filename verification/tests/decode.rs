use sqlx::error::ProtocolError;
use sqlx::mariadb::decode::decode_int_lenenc;
use sqlx::mariadb::encode::Encoder;
use sqlx::mariadb::ok::OkPacket;
use sqlx::mariadb::types::ServerStatusFlag;

#[test]
fn it_decodes_ok_packet() {
    let buf: Vec<u8> = vec![
        // length
        0x0F, 0x00, 0x00,
        // seq_no
        0x01,
        // 0x00 : OK_Packet header or (0xFE if CLIENT_DEPRECATE_EOF is set)
        0x00,
        // int<lenenc> affected rows
        0xFB,
        // int<lenenc> last insert id
        0xFB,
        // int<2> server status
        0x01, 0x01,
        // int<2> warning count
        0x00, 0x00,
        // string<EOF> info
        b'i', b'n', b'f', b'o',
    ];

    let message = OkPacket::deserialize(&buf).unwrap();

    assert_eq!(message.affected_rows, None);
    assert_eq!(message.last_insert_id, None);
    assert!(message.server_status.contains(ServerStatusFlag::SERVER_STATUS_IN_TRANS));
    assert_eq!(message.warning_count, 0);
    assert_eq!(message.info, b"info".to_vec());
    assert_eq!(message.length, 0x0F);
    assert_eq!(message.seq_no, 1);
    assert!(message.session_state_info.is_none());
    assert!(message.value.is_none());
}

#[test]
fn it_decodes_ok_packet_with_counts() {
    let buf: Vec<u8> = vec![
        0x07, 0x00, 0x00, 0x02, 0xFE, 0xFC, 0x00, 0x01, 0x05, 0x06, 0x00, 0x03, 0x00,
    ];

    let message = OkPacket::deserialize(&buf).unwrap();

    assert_eq!(message.affected_rows, Some(0x100));
    assert_eq!(message.last_insert_id, Some(5));
    // 0x0006: bit 2 names no flag and is dropped.
    assert_eq!(message.server_status.bits, 0x0002);
    assert_eq!(message.warning_count, 3);
    assert_eq!(message.info, b"".to_vec());
}

#[test]
fn it_rejects_a_bad_ok_packet_header() {
    let buf: Vec<u8> = vec![0x07, 0x00, 0x00, 0x01, 0xFF, 0x00, 0x00, 0x00, 0x00, 0x00, 0x00];
    assert_eq!(OkPacket::deserialize(&buf).err(), Some(ProtocolError::InvalidPacketHeader));
}

#[test]
fn it_rejects_a_truncated_ok_packet() {
    let buf: Vec<u8> = vec![0x07, 0x00, 0x00, 0x01];
    assert_eq!(OkPacket::deserialize(&buf).err(), Some(ProtocolError::UnexpectedEof));

    let buf: Vec<u8> = vec![0x07, 0x00, 0x00, 0x01, 0x00, 0x00, 0x00, 0x01, 0x00, 0x00];
    assert_eq!(OkPacket::deserialize(&buf).err(), Some(ProtocolError::UnexpectedEof));

    let buf: Vec<u8> = vec![0x07, 0x00, 0x00, 0x01, 0x00, 0xFD, 0x00];
    assert_eq!(OkPacket::deserialize(&buf).err(), Some(ProtocolError::UnexpectedEof));
}

#[test]
fn it_rejects_an_ok_packet_with_a_bad_lenenc() {
    let buf: Vec<u8> = vec![0x07, 0x00, 0x00, 0x01, 0x00, 0x00, 0xFF, 0x00, 0x00, 0x00, 0x00];
    assert_eq!(OkPacket::deserialize(&buf).err(), Some(ProtocolError::InvalidLenenc));
}

#[test]
fn it_decodes_int_lenenc() {
    assert_eq!(decode_int_lenenc(b"\xFB"), Ok((None, 1)));
    assert_eq!(decode_int_lenenc(b"\xFAxyz"), Ok((Some(0xFA), 1)));
    assert_eq!(decode_int_lenenc(b"\xFC\x34\x12"), Ok((Some(0x1234), 3)));
    assert_eq!(decode_int_lenenc(b"\xFD\x56\x34\x12"), Ok((Some(0x12_3456), 4)));
    assert_eq!(
        decode_int_lenenc(b"\xFE\x08\x07\x06\x05\x04\x03\x02\x01"),
        Ok((Some(0x0102_0304_0506_0708usize), 9))
    );
    assert_eq!(decode_int_lenenc(b""), Err(ProtocolError::UnexpectedEof));
    assert_eq!(decode_int_lenenc(b"\xFC\x01"), Err(ProtocolError::UnexpectedEof));
    assert_eq!(decode_int_lenenc(b"\xFF"), Err(ProtocolError::InvalidLenenc));
}

#[test]
fn it_reads_back_what_it_encodes_as_int_lenenc() {
    let values: Vec<Option<usize>> = vec![
        None,
        Some(0),
        Some(0xFA),
        Some(0xFB),
        Some(0xFF),
        Some(0x100),
        Some(0xFFFF),
        Some(0x1_0000),
        Some(0xFF_FFFF),
        Some(0x100_0000),
        Some(usize::MAX),
    ];
    for value in values {
        let mut encoder = Encoder::new(16);
        encoder.encode_int_lenenc(value.as_ref());
        let written = encoder.buf.len();
        encoder.encode_int_u8(0x42);
        assert_eq!(decode_int_lenenc(&encoder.buf[..]), Ok((value, written)));
    }
}
