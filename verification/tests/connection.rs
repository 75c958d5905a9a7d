use bytes::{Bytes, BytesMut};
use sqlx::mariadb::connection::{
    after_decode, classify_handshake_reply, classify_result_packet, count_result_packet,
    encode_command, encode_packet, on_message_read, ConnContext, FrameAction, FrameState,
    HandshakeReply, MessageReadAction, MessageReadState, ResultPacket,
};
use sqlx::mariadb::encode::Encoder;
use sqlx::mariadb::packets::{
    ComInitDb, ComPing, ComQuery, ComQuit, ComShutdown, Serialize, ShutdownOptions,
};
use sqlx::mariadb::types::Capabilities;

#[test]
fn it_starts_a_context_before_the_handshake() {
    let ctx = ConnContext::new();
    assert_eq!(ctx.connection_id, -1);
    assert_eq!(ctx.seq_no, 1);
    assert_eq!(ctx.last_seq_no, 0);
    assert_eq!(ctx.capabilities.bits, 0);
    assert_eq!(ctx.status.bits, 0);
}

#[test]
fn it_serializes_com_shutdown() {
    let mut ctx = ConnContext::new();
    let mut encoder = Encoder::new(16);
    ComShutdown { option: ShutdownOptions::ShutdownDefault }.serialize(&mut ctx, &mut encoder);
    assert_eq!(&encoder.buf[..], b"\x08\x00");
}

#[test]
fn it_frames_a_query_packet() {
    let mut ctx = ConnContext::new();
    ctx.seq_no = 3;
    let mut encoder = Encoder::new(64);
    encoder.encode_int_u8(0x99);
    let query = ComQuery { sql_statement: Bytes::from("SELECT 1") };
    encode_packet(&mut encoder, &mut ctx, &query);
    assert_eq!(&encoder.buf[..], b"\x09\x00\x00\x03\x03SELECT 1");
    assert_eq!(ctx.seq_no, 3);
}

#[test]
fn it_starts_each_command_at_sequence_number_zero() {
    let mut ctx = ConnContext::new();
    let mut encoder = Encoder::new(64);

    encode_command(&mut encoder, &mut ctx, &ComQuit {});
    assert_eq!(&encoder.buf[..], b"\x01\x00\x00\x00\x01");
    assert_eq!(ctx.seq_no, 0);

    encode_command(&mut encoder, &mut ctx, &ComPing {});
    assert_eq!(&encoder.buf[..], b"\x01\x00\x00\x00\x0E");

    encode_command(&mut encoder, &mut ctx, &ComInitDb { schema_name: Bytes::from("test") });
    assert_eq!(&encoder.buf[..], b"\x05\x00\x00\x00\x02test");
}

#[test]
fn it_tells_when_a_packet_is_complete() {
    let mut rbuf = vec![0u8; 32];
    let mut state = FrameState::new();

    // Two bytes of a header announcing a 6-byte body: 10 bytes in all.
    rbuf[0] = 6;
    assert_eq!(state.on_read(&rbuf, 2), FrameAction::NeedMore);
    assert_eq!(state.len, 2);
    assert_eq!(state.packet_len, 6);

    assert_eq!(state.on_read(&rbuf, 4), FrameAction::NeedMore);
    assert_eq!(state.len, 6);
    assert_eq!(state.on_read(&rbuf, 3), FrameAction::NeedMore);
    assert_eq!(state.len, 9);
    assert_eq!(state.on_read(&rbuf, 1), FrameAction::Complete);
    assert_eq!(state.len, 10);

    let before = state;
    assert_eq!(state.on_read(&rbuf, 0), FrameAction::EndOfStream);
    assert_eq!(state, before);
}

#[test]
fn it_completes_a_packet_that_it_framed() {
    let mut ctx = ConnContext::new();
    let mut encoder = Encoder::new(64);
    encode_packet(&mut encoder, &mut ctx, &ComQuery { sql_statement: Bytes::from("SELECT 1") });
    let mut rbuf = encoder.buf.to_vec();
    let whole = rbuf.len();
    rbuf.resize(64, 0);

    let mut state = FrameState::new();
    assert_eq!(state.on_read(&rbuf, whole - 1), FrameAction::NeedMore);
    assert_eq!(state.on_read(&rbuf, 1), FrameAction::Complete);
}

#[test]
fn it_counts_rows_of_a_result_set() {
    let caps = Capabilities::default();
    let mut rows = 0u64;
    assert_eq!(count_result_packet(&mut rows, b"\x01a", &caps), ResultPacket::Row);
    assert_eq!(count_result_packet(&mut rows, b"\x01b", &caps), ResultPacket::Row);
    assert_eq!(count_result_packet(&mut rows, b"\xFF\x00", &caps), ResultPacket::Error);
    assert_eq!(rows, 2);
    assert_eq!(
        count_result_packet(&mut rows, b"\xFE\x00\x00", &caps),
        ResultPacket::End { ok_packet: false }
    );
    assert_eq!(rows, 2);
}

#[test]
fn it_classifies_handshake_replies() {
    assert_eq!(classify_handshake_reply(0xFF), HandshakeReply::Refused);
    assert_eq!(classify_handshake_reply(0x00), HandshakeReply::Accepted);
    assert_eq!(classify_handshake_reply(0xFE), HandshakeReply::Unexpected);
}

#[test]
fn it_intersects_capabilities() {
    let a = Capabilities { bits: 0b1100 };
    let b = Capabilities { bits: 0b1010 };
    assert_eq!(a.bitand(b).bits, 0b1000);
}

#[test]
fn it_classifies_result_packets() {
    let eof_caps = Capabilities::default();
    let ok_caps = Capabilities { bits: Capabilities::CLIENT_DEPRECATE_EOF };

    assert_eq!(
        classify_result_packet(b"\xFE\x00\x00", &eof_caps),
        ResultPacket::End { ok_packet: false }
    );
    assert_eq!(
        classify_result_packet(b"\xFE\x00\x00", &ok_caps),
        ResultPacket::End { ok_packet: true }
    );
    assert_eq!(classify_result_packet(b"\xFF\x15\x04", &ok_caps), ResultPacket::Error);
    assert_eq!(classify_result_packet(b"\x03abc", &ok_caps), ResultPacket::Row);

    let long_row = vec![0xFEu8; 0xFF_FFFF];
    assert_eq!(classify_result_packet(&long_row, &ok_caps), ResultPacket::Row);
}

#[test]
fn it_returns_the_bytes_of_a_completed_packet() {
    let mut ctx = ConnContext::new();
    let mut encoder = Encoder::new(64);
    encode_packet(&mut encoder, &mut ctx, &ComPing {});
    let packet = encoder.buf.to_vec();

    let mut rbuf = BytesMut::new();
    rbuf.resize(32, 0);
    rbuf[..packet.len()].copy_from_slice(&packet);
    let mut state = FrameState::new();
    assert_eq!(state.on_read(&rbuf, packet.len()), FrameAction::Complete);
    assert_eq!(&state.received(rbuf)[..], &packet[..]);
}

#[test]
fn it_steps_the_reading_of_a_message() {
    let mut st = MessageReadState::new();
    assert_eq!(on_message_read(&mut st, 7), MessageReadAction::TryDecode);
    assert_eq!(st.len, 7);
    assert_eq!(after_decode(&mut st, 0, false), MessageReadAction::NeedRead);
    assert_eq!(st.len, 7);
    assert_eq!(on_message_read(&mut st, 5), MessageReadAction::TryDecode);
    assert_eq!(st.len, 12);
    assert_eq!(after_decode(&mut st, 10, true), MessageReadAction::Deliver);
    assert_eq!(st.len, 2);
    assert_eq!(on_message_read(&mut st, 0), MessageReadAction::EndOfStream);
    assert_eq!(st.len, 2);
}
