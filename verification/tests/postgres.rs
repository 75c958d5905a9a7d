use bytes::{Bytes, BytesMut};
use sqlx::error::ProtocolError;
use sqlx::postgres::connection::{Encode, ReceivePoll, ReceiveState, Terminate};
use sqlx::postgres::message::{message_is_decodable, stream_is_decodable, Message};
use sqlx::postgres::ready_for_query::{ReadyForQuery, TransactionStatus};

const READY_FOR_QUERY: &[u8] = b"E";

#[test]
fn it_decodes_ready_for_query() -> Result<(), ProtocolError> {
    let src = Bytes::from_static(READY_FOR_QUERY);
    let message = ReadyForQuery::decode(src)?;

    assert_eq!(message.status, TransactionStatus::Error);

    Ok(())
}

#[test]
fn it_decodes_each_transaction_status() {
    for (byte, status) in [
        (b"I", TransactionStatus::Idle),
        (b"T", TransactionStatus::Transaction),
        (b"E", TransactionStatus::Error),
    ] {
        let message = ReadyForQuery::decode(Bytes::from_static(byte)).unwrap();
        assert_eq!(message.status, status);
        assert_eq!(&[status.byte()], byte);
    }
}

#[test]
fn it_rejects_a_ready_for_query_of_the_wrong_size() {
    assert_eq!(ReadyForQuery::decode(Bytes::from_static(b"")), Err(ProtocolError::InvalidInput));
    assert_eq!(ReadyForQuery::decode(Bytes::from_static(b"II")), Err(ProtocolError::InvalidInput));
}

#[test]
fn it_splits_messages_off_the_stream() {
    let mut src = BytesMut::from(&b"Z\x00\x00\x00\x05IS\x00\x00\x00\x08a\x00b\x00K\x00"[..]);

    match Message::decode(&mut src) {
        Ok(Some(Message::ReadyForQuery(m))) => assert_eq!(m.status, TransactionStatus::Idle),
        other => panic!("unexpected {:?}", other),
    }
    assert_eq!(&src[..], b"S\x00\x00\x00\x08a\x00b\x00K\x00");

    match Message::decode(&mut src) {
        Ok(Some(Message::ParameterStatus(m))) => assert_eq!(&m.body[..], b"a\x00b\x00"),
        other => panic!("unexpected {:?}", other),
    }
    assert_eq!(&src[..], b"K\x00");

    // Fewer than five bytes: nothing is taken.
    assert!(matches!(Message::decode(&mut src), Ok(None)));
    assert_eq!(&src[..], b"K\x00");
}

#[test]
fn it_waits_for_a_whole_message() {
    let mut src = BytesMut::from(&b"R\x00\x00\x00\x08\x00\x00"[..]);
    assert!(matches!(Message::decode(&mut src), Ok(None)));
    assert_eq!(src.len(), 7);

    src.extend_from_slice(b"\x00\x00");
    match Message::decode(&mut src) {
        Ok(Some(Message::Authentication(m))) => assert_eq!(&m.body[..], b"\x00\x00\x00\x00"),
        other => panic!("unexpected {:?}", other),
    }
    assert!(src.is_empty());
}

#[test]
fn it_decodes_responses_and_key_data() {
    let mut src = BytesMut::from(&b"E\x00\x00\x00\x05xN\x00\x00\x00\x05yK\x00\x00\x00\x04"[..]);
    src.extend_from_slice(b"!");
    match Message::decode(&mut src) {
        Ok(Some(Message::Response(m))) => assert_eq!(&m.body[..], b"x"),
        other => panic!("unexpected {:?}", other),
    }
    match Message::decode(&mut src) {
        Ok(Some(Message::Response(m))) => assert_eq!(&m.body[..], b"y"),
        other => panic!("unexpected {:?}", other),
    }
    match Message::decode(&mut src) {
        Ok(Some(Message::BackendKeyData(m))) => assert_eq!(&m.body[..], b""),
        other => panic!("unexpected {:?}", other),
    }
    assert_eq!(&src[..], b"!");
}

#[test]
fn it_rejects_a_zero_type_byte() {
    let mut src = BytesMut::from(&b"\x00\x00\x00\x00\x05I"[..]);
    assert_eq!(Message::decode(&mut src).err().map(|e| e), Some(ProtocolError::InvalidData));
    assert_eq!(src.len(), 6);
}

#[test]
fn it_rejects_a_ready_for_query_with_a_long_body() {
    let mut src = BytesMut::from(&b"Z\x00\x00\x00\x06II!"[..]);
    assert_eq!(Message::decode(&mut src).err(), Some(ProtocolError::InvalidInput));
    assert_eq!(&src[..], b"!");
}

#[test]
fn it_skips_parameter_status_and_responses() {
    let mut src = BytesMut::from(
        &b"S\x00\x00\x00\x06a\x00N\x00\x00\x00\x05nK\x00\x00\x00\x0C\x00\x00\x00\x01\x00\x00\x00\x02Z"[..],
    );
    assert!(stream_is_decodable(&src[..]));
    match Message::decode_reported(&mut src) {
        Ok(Some(Message::BackendKeyData(m))) => {
            assert_eq!(&m.body[..], b"\x00\x00\x00\x01\x00\x00\x00\x02")
        },
        other => panic!("unexpected {:?}", other),
    }
    assert_eq!(&src[..], b"Z");
    assert!(matches!(Message::decode_reported(&mut src), Ok(None)));
    assert_eq!(&src[..], b"Z");
}

#[test]
fn it_tells_which_buffers_decode() {
    // Too short, or fewer bytes than announced: nothing to decode.
    assert!(message_is_decodable(b"Z\x00\x00"));
    assert!(message_is_decodable(b"Z\x00\x00\x00\x09I"));
    // An unknown type byte.
    assert!(!message_is_decodable(b"Q\x00\x00\x00\x05I"));
    // Exactly as many bytes as announced, without the type byte's: not
    // whole yet.
    assert!(message_is_decodable(b"Z\x00\x00\x00\x05"));
    // A length that does not cover itself.
    assert!(!message_is_decodable(b"S\x00\x00\x00\x02abc"));
    // An unknown transaction status.
    assert!(!message_is_decodable(b"Z\x00\x00\x00\x05Q"));
    assert!(message_is_decodable(b"Z\x00\x00\x00\x05T"));

    // A bad message after a skipped one, and after a handed-on one.
    assert!(!stream_is_decodable(b"S\x00\x00\x00\x04Q\x00\x00\x00\x05I"));
    assert!(stream_is_decodable(b"Z\x00\x00\x00\x05IQ\x00\x00\x00\x05I"));
}

#[test]
fn it_waits_when_one_byte_is_missing() {
    let mut src = BytesMut::from(&b"Z\x00\x00\x00\x05"[..]);
    assert!(matches!(Message::decode(&mut src), Ok(None)));
    assert_eq!(&src[..], b"Z\x00\x00\x00\x05");
    src.extend_from_slice(b"T");
    match Message::decode(&mut src) {
        Ok(Some(Message::ReadyForQuery(m))) => assert_eq!(m.status, TransactionStatus::Transaction),
        other => panic!("unexpected {:?}", other),
    }
    assert!(src.is_empty());
}

#[test]
fn it_encodes_terminate() {
    let mut buf = vec![1u8];
    Terminate.encode(&mut buf);
    assert_eq!(&buf[..], b"\x01X\x00\x00\x00\x04");
}

#[test]
fn it_steps_the_receive_loop() {
    let mut state = ReceiveState::new();
    let mut rbuf = BytesMut::new();

    // Nothing read yet: read.
    assert!(matches!(state.poll(&mut rbuf), ReceivePoll::NeedRead));

    rbuf.extend_from_slice(b"S\x00\x00\x00\x04Z\x00\x00");
    state.on_read(8);
    assert!(state.stream_readable && !state.stream_eof);
    // A skipped report, then half a message: read again.
    assert!(matches!(state.poll(&mut rbuf), ReceivePoll::NeedRead));
    assert_eq!(&rbuf[..], b"Z\x00\x00");

    rbuf.extend_from_slice(b"\x00\x05I");
    state.on_read(3);
    match state.poll(&mut rbuf) {
        ReceivePoll::Message(Message::ReadyForQuery(m)) => {
            assert_eq!(m.status, TransactionStatus::Idle)
        },
        other => panic!("unexpected {:?}", other),
    }

    state.on_read(0);
    assert!(state.stream_eof);
    assert!(matches!(state.poll(&mut rbuf), ReceivePoll::EndOfStream));

    let mut failing = ReceiveState { stream_readable: true, stream_eof: false };
    let mut bad = BytesMut::from(&b"\x00\x00\x00\x00\x05I"[..]);
    assert!(matches!(failing.poll(&mut bad), ReceivePoll::Failed(ProtocolError::InvalidData)));
}
