//! Splitting the byte stream that a PostgreSQL backend sends into messages.
use vstd::prelude::*;
use bytes::{Bytes, BytesMut};
use crate::buffers::{
    bytes_mut_as_slice, bytes_mut_freeze, bytes_mut_len, bytes_mut_split_to, bytes_mut_view,
    bytes_slice_from, bytes_view, read_u32_be,
};
use crate::error::ProtocolError;
use crate::le::{be_value, lemma_be_value_4};
use crate::postgres::ready_for_query::{
    ready_for_query_defined, status_of_byte, ReadyForQuery, TransactionStatus,
};

verus! {

/// An authentication request, with its body as received.
#[derive(Debug)]
pub struct Authentication {
    pub body: Bytes,
}

/// A run-time parameter report, with its body as received.
#[derive(Debug)]
pub struct ParameterStatus {
    pub body: Bytes,
}

/// The key data for cancelling queries, with its body as received.
#[derive(Debug)]
pub struct BackendKeyData {
    pub body: Bytes,
}

/// An error or notice response, with its body as received.
#[derive(Debug)]
pub struct Response {
    pub body: Bytes,
}

/// A message from the backend.
#[derive(Debug)]
pub enum Message {
    Authentication(Authentication),
    ParameterStatus(ParameterStatus),
    BackendKeyData(BackendKeyData),
    ReadyForQuery(ReadyForQuery),
    Response(Box<Response>),
}

/// A message from the backend, with its bodies as sequences.
pub enum MessageView {
    Authentication(Seq<u8>),
    ParameterStatus(Seq<u8>),
    BackendKeyData(Seq<u8>),
    ReadyForQuery(TransactionStatus),
    Response(Seq<u8>),
}

impl View for Message {
    type V = MessageView;

    open spec fn view(&self) -> MessageView {
        match self {
            Message::Authentication(m) => MessageView::Authentication(bytes_view(m.body)),
            Message::ParameterStatus(m) => MessageView::ParameterStatus(bytes_view(m.body)),
            Message::BackendKeyData(m) => MessageView::BackendKeyData(bytes_view(m.body)),
            Message::ReadyForQuery(m) => MessageView::ReadyForQuery(m.status),
            Message::Response(m) => MessageView::Response(bytes_view(m.body)),
        }
    }
}

/// The length that the header of the message at the start of `s` announces:
/// bytes 1 to 4, most significant first. It counts itself and the body, not
/// the type byte.
pub open spec fn frame_len(s: Seq<u8>) -> nat {
    be_value(s.subrange(1, 5))
}

/// Whether `t` is the type byte of a message that `Message::decode` knows:
/// `N` or `E` (a response), `S`, `Z`, `R` or `K`.
pub open spec fn known_token(t: u8) -> bool {
    t == 0x4E || t == 0x45 || t == 0x53 || t == 0x5A || t == 0x52 || t == 0x4B
}

/// Whether the header at the start of `s` announces a message that `s`
/// holds whole: at least five bytes, a type byte other than 0, and the type
/// byte and the announced length within `s`.
pub open spec fn frame_announced(s: Seq<u8>) -> bool {
    s.len() >= 5 && s[0] != 0 && frame_len(s) + 1 <= s.len()
}

/// Whether `Message::decode` is defined on the buffer `s`. Where a whole
/// message is there, its length must cover itself, its type byte must be
/// known, and a `ReadyForQuery` must carry a known status.
pub open spec fn message_decode_defined(s: Seq<u8>) -> bool {
    frame_announced(s) ==> {
        &&& frame_len(s) >= 4
        &&& known_token(s[0])
        &&& (s[0] == 0x5A ==> ready_for_query_defined(s.subrange(5, frame_len(s) + 1 as int)))
    }
}

/// The message that the type byte `token` and the body `body` make.
pub open spec fn message_of(token: u8, body: Seq<u8>) -> Result<
    Option<MessageView>,
    ProtocolError,
> {
    if token == 0x4E || token == 0x45 {
        Ok(Some(MessageView::Response(body)))
    } else if token == 0x53 {
        Ok(Some(MessageView::ParameterStatus(body)))
    } else if token == 0x5A {
        if body.len() != 1 {
            Err(ProtocolError::InvalidInput)
        } else {
            Ok(Some(MessageView::ReadyForQuery(status_of_byte(body[0]).unwrap())))
        }
    } else if token == 0x52 {
        Ok(Some(MessageView::Authentication(body)))
    } else {
        Ok(Some(MessageView::BackendKeyData(body)))
    }
}

/// What decoding the buffer `s` gives, and what is left in it: nothing is
/// taken while fewer than five bytes are there, or fewer than the type byte
/// and the announced length, nor when the type byte is 0 (an error);
/// otherwise the message (type byte, length, body) is taken off the front.
pub open spec fn decode_message(s: Seq<u8>) -> (Result<Option<MessageView>, ProtocolError>, Seq<u8>) {
    if s.len() < 5 {
        (Ok(None), s)
    } else if s[0] == 0 {
        (Err(ProtocolError::InvalidData), s)
    } else if s.len() < frame_len(s) + 1 {
        (Ok(None), s)
    } else {
        (message_of(s[0], s.subrange(5, frame_len(s) + 1 as int)), s.skip(frame_len(s) + 1 as int))
    }
}

/// A decoding result with its message as a `MessageView`.
pub open spec fn result_view(r: Result<Option<Message>, ProtocolError>) -> Result<
    Option<MessageView>,
    ProtocolError,
> {
    match r {
        Ok(Some(m)) => Ok(Some(m@)),
        Ok(None) => Ok(None),
        Err(e) => Err(e),
    }
}

impl Message {
    /// Takes the next whole message off the front of `src`, if `src` holds
    /// one (see `decode_message`).
    pub fn decode(src: &mut BytesMut) -> (res: Result<Option<Message>, ProtocolError>)
        requires
            message_decode_defined(bytes_mut_view(*old(src))),
        ensures
            decode_message(bytes_mut_view(*old(src))) == (
                result_view(res),
                bytes_mut_view(*final(src)),
            ),
    {
        let n = bytes_mut_len(src);
        if n < 5 {
            // No message is less than 5 bytes
            return Ok(None);
        }
        let s = bytes_mut_as_slice(src);
        let token = s[0];
        if token == 0 {
            return Err(ProtocolError::InvalidData);
        }
        let header = &s[1..5];
        assert(header@.take(4) =~= header@);
        let len = read_u32_be(header) as usize;
        if n <= len {
            // We don't have enough in the stream yet
            return Ok(None);
        }
        let ghost before = bytes_mut_view(*src);
        let frame = bytes_mut_split_to(src, len + 1);
        let body = bytes_slice_from(&bytes_mut_freeze(frame), 5);
        assert(bytes_view(body) =~= before.subrange(5, len + 1));
        let message = if token == 0x4E || token == 0x45 {
            Message::Response(Box::new(Response { body }))
        } else if token == 0x53 {
            Message::ParameterStatus(ParameterStatus { body })
        } else if token == 0x5A {
            match ReadyForQuery::decode(body) {
                Ok(m) => Message::ReadyForQuery(m),
                Err(e) => return Err(e),
            }
        } else if token == 0x52 {
            Message::Authentication(Authentication { body })
        } else {
            Message::BackendKeyData(BackendKeyData { body })
        };
        Ok(Some(message))
    }
}

/// Whether the connection hands `m` to its caller: parameter status
/// reports and error or notice responses are consumed without being handed
/// on.
pub open spec fn is_reported(m: MessageView) -> bool {
    !(m is ParameterStatus || m is Response)
}

/// Whether the messages at the front of the buffer `s`, up to and including
/// the first one that is handed on, can be decoded one after the other (see
/// `message_decode_defined`).
pub open spec fn stream_decodable(s: Seq<u8>) -> bool
    decreases s.len(),
{
    &&& message_decode_defined(s)
    &&& match decode_message(s) {
        (Ok(Some(m)), rest) => !is_reported(m) && rest.len() < s.len() ==> stream_decodable(rest),
        _ => true,
    }
}

/// What taking messages off the front of `s` until one is handed on gives,
/// and what is left: the first message that `is_reported`, `None` when the
/// buffer runs out of whole messages first, or the first decoding error.
pub open spec fn next_reported(s: Seq<u8>) -> (Result<Option<MessageView>, ProtocolError>, Seq<u8>)
    decreases s.len(),
{
    match decode_message(s) {
        (Ok(Some(m)), rest) => if is_reported(m) || rest.len() >= s.len() {
            (Ok(Some(m)), rest)
        } else {
            next_reported(rest)
        },
        other => other,
    }
}

/// A decoded message consumes at least its five header bytes.
proof fn lemma_decode_consumes(s: Seq<u8>)
    requires
        message_decode_defined(s),
    ensures
        decode_message(s).0 matches Ok(Some(_)) ==> decode_message(s).1.len() + 5 <= s.len(),
{
}

/// A connection never hands on a parameter status report or an error or
/// notice response: whatever message the receive loop hands on is one that
/// `is_reported`.
pub proof fn lemma_next_reported_is_reported(s: Seq<u8>)
    requires
        stream_decodable(s),
    ensures
        next_reported(s).0 matches Ok(Some(m)) ==> is_reported(m),
    decreases s.len(),
{
    lemma_decode_consumes(s);
    if let (Ok(Some(m)), rest) = decode_message(s) {
        if !is_reported(m) {
            lemma_next_reported_is_reported(rest);
        }
    }
}

/// Of the first whole message in the buffer: a message of any kind but a
/// parameter status report or a response is handed on as it is, with what
/// follows it left in the buffer; a parameter status report or a response
/// is consumed and the search goes on after it; a decoding error, or the
/// lack of a whole message, is what the receive loop gives.
pub proof fn lemma_next_reported_steps(s: Seq<u8>)
    requires
        message_decode_defined(s),
    ensures
        decode_message(s).0 matches Ok(Some(m)) && (m is Authentication || m is BackendKeyData
            || m is ReadyForQuery) ==> next_reported(s) == decode_message(s),
        decode_message(s).0 matches Ok(Some(m)) && (m is ParameterStatus || m is Response)
            ==> next_reported(s) == next_reported(decode_message(s).1),
        !(decode_message(s).0 matches Ok(Some(_))) ==> next_reported(s) == decode_message(s),
{
    lemma_decode_consumes(s);
}

/// The body of a message, where it carries one as received.
pub open spec fn message_body(m: MessageView) -> Option<Seq<u8>> {
    match m {
        MessageView::Authentication(b) => Some(b),
        MessageView::ParameterStatus(b) => Some(b),
        MessageView::BackendKeyData(b) => Some(b),
        MessageView::Response(b) => Some(b),
        MessageView::ReadyForQuery(_) => None,
    }
}

/// The announced length is the four bytes after the type byte, most
/// significant first. A buffer that holds exactly one whole message is
/// consumed whole: the body is everything after the five header bytes, and a
/// `ReadyForQuery` carries the status that its one body byte names (a body
/// of another size is refused).
pub proof fn lemma_decode_whole_message(s: Seq<u8>)
    requires
        s.len() >= 5,
    ensures
        frame_len(s) == 0x100_0000 * (s[1] as nat) + 0x1_0000 * (s[2] as nat) + 256 * (s[3]
            as nat) + s[4] as nat,
        ({
            &&& s[0] != 0
            &&& message_decode_defined(s)
            &&& s.len() == 0x100_0000 * (s[1] as nat) + 0x1_0000 * (s[2] as nat) + 256 * (
            s[3] as nat) + s[4] as nat + 1
        }) ==> {
            &&& decode_message(s).1.len() == 0
            &&& s[0] != 0x5A ==> (decode_message(s).0 matches Ok(Some(m)) && message_body(m)
                == Some(s.subrange(5, s.len() as int)))
            &&& s[0] == 0x5A && s.len() == 6 ==> (decode_message(s).0 matches Ok(Some(m)) && m
                == MessageView::ReadyForQuery(status_of_byte(s[5]).unwrap()))
            &&& s[0] == 0x5A && s.len() != 6 ==> decode_message(s).0 == Err::<
                Option<MessageView>,
                ProtocolError,
            >(ProtocolError::InvalidInput)
        },
{
    lemma_be_value_4(s.subrange(1, 5));
}

impl Message {
    /// Takes messages off the front of `rbuf` until one that the connection
    /// hands on to its caller (see `next_reported`): what the receive loop
    /// of a connection does with the bytes that it has read.
    pub fn decode_reported(rbuf: &mut BytesMut) -> (res: Result<Option<Message>, ProtocolError>)
        requires
            stream_decodable(bytes_mut_view(*old(rbuf))),
        ensures
            next_reported(bytes_mut_view(*old(rbuf))) == (
                result_view(res),
                bytes_mut_view(*final(rbuf)),
            ),
    {
        loop
            invariant
                stream_decodable(bytes_mut_view(*rbuf)),
                next_reported(bytes_mut_view(*old(rbuf))) == next_reported(
                    bytes_mut_view(*rbuf),
                ),
            decreases bytes_mut_view(*rbuf).len(),
        {
            let ghost before = bytes_mut_view(*rbuf);
            proof {
                lemma_decode_consumes(before);
            }
            match Message::decode(rbuf) {
                Ok(Some(message)) => {
                    match message {
                        Message::ParameterStatus(_) => {},
                        Message::Response(_) => {},
                        _ => {
                            return Ok(Some(message));
                        },
                    }
                },
                other => {
                    return other;
                },
            }
        }
    }
}

/// Whether `Message::decode` is defined on `buf` (see
/// `message_decode_defined`), tested.
pub fn message_is_decodable(buf: &[u8]) -> (res: bool)
    ensures
        res == message_decode_defined(buf@),
{
    let n = buf.len();
    if n < 5 || buf[0] == 0 {
        return true;
    }
    let header = &buf[1..5];
    assert(header@.take(4) =~= header@);
    let len = read_u32_be(header) as usize;
    if len >= n {
        return true;
    }
    let token = buf[0];
    if len < 4 {
        return false;
    }
    if !(token == 0x4E || token == 0x45 || token == 0x53 || token == 0x5A || token == 0x52
        || token == 0x4B) {
        return false;
    }
    if token == 0x5A && len == 5 {
        let b = buf[5];
        assert(buf@.subrange(5, len + 1)[0] == b);
        b == 0x49 || b == 0x54 || b == 0x45
    } else {
        true
    }
}

/// Whether `Message::decode_reported` is defined on `buf` (see
/// `stream_decodable`), tested.
pub fn stream_is_decodable(buf: &[u8]) -> (res: bool)
    ensures
        res == stream_decodable(buf@),
{
    let mut pos: usize = 0;
    assert(buf@.skip(0) =~= buf@);
    loop
        invariant
            pos <= buf@.len(),
            stream_decodable(buf@) == stream_decodable(buf@.skip(pos as int)),
        decreases buf@.len() - pos,
    {
        let rest = &buf[pos..buf.len()];
        assert(rest@ =~= buf@.skip(pos as int));
        if !message_is_decodable(rest) {
            return false;
        }
        let n = rest.len();
        if n < 5 || rest[0] == 0 {
            return true;
        }
        let token = rest[0];
        let header = &rest[1..5];
        assert(header@.take(4) =~= header@);
        let len = read_u32_be(header) as usize;
        if n <= len {
            return true;
        }
        if token == 0x5A || token == 0x52 || token == 0x4B {
            // The message is handed on (or fails to decode): nothing after it
            // is decoded.
            return true;
        }
        assert(buf@.skip(pos as int).skip(len + 1) =~= buf@.skip(pos + len + 1));
        pos = pos + len + 1;
    }
}

} // verus!
