//! The decisions of a MariaDB connection: framing the packets it sends,
//! telling when a received packet is complete, and telling apart the
//! packets of a result set. The socket itself lives outside the library.
use vstd::prelude::*;
use bytes::{Bytes, BytesMut};
use crate::buffers::{bytes_mut_freeze, bytes_mut_truncate, bytes_mut_view, bytes_view, read_u24_le};
use crate::le::{le_bytes, le_value, lemma_le_bytes_len, lemma_le_roundtrip_small, pow256};
use crate::mariadb::encode::{Encoder, U24_MAX};
use crate::mariadb::packets::Serialize;
use crate::mariadb::types::{Capabilities, ServerStatusFlag};

verus! {

/// The state of a connection that messages are written and read against.
#[derive(Clone, Copy, Debug, PartialEq, Eq, Structural)]
pub struct ConnContext {
    /// The connection id that the server gave (`-1` before the handshake).
    pub connection_id: i32,
    /// The sequence number of the next packet sent.
    pub seq_no: u8,
    /// The last sequence number that the server sent.
    pub last_seq_no: u8,
    /// The capabilities that client and server agreed on.
    pub capabilities: Capabilities,
    /// The last server status reported.
    pub status: ServerStatusFlag,
}

impl ConnContext {
    /// The context of a connection that has not done its handshake yet.
    pub fn new() -> (res: ConnContext)
        ensures
            res.connection_id == -1,
            res.seq_no == 1,
            res.last_seq_no == 0,
            res.capabilities.bits == 0,
            res.status.bits == 0,
    {
        ConnContext {
            connection_id: -1,
            seq_no: 1,
            last_seq_no: 0,
            capabilities: Capabilities::default(),
            status: ServerStatusFlag::default(),
        }
    }
}

/// A whole packet: the body length (three bytes, least significant first),
/// the sequence number, then the body.
pub open spec fn packet_bytes(seq_no: u8, body: Seq<u8>) -> Seq<u8> {
    le_bytes(body.len(), 3) + seq![seq_no] + body
}

/// Writes `message` as one packet into `encoder`, replacing what it held:
/// a header with the body length and the context's sequence number, then
/// the body. The body must fit in a packet.
pub fn encode_packet<S: Serialize>(encoder: &mut Encoder, ctx: &mut ConnContext, message: &S)
    requires
        message.spec_payload().len() + 4 <= U24_MAX,
    ensures
        final(encoder)@ == packet_bytes(old(ctx).seq_no, message.spec_payload()),
        *final(ctx) == *old(ctx),
{
    encoder.clear();
    encoder.alloc_packet_header();
    encoder.seq_no(ctx.seq_no);
    message.serialize(ctx, encoder);
    encoder.encode_length();
    proof {
        lemma_le_bytes_len(message.spec_payload().len(), 3);
        assert(encoder@ =~= packet_bytes(old(ctx).seq_no, message.spec_payload()));
    }
}

/// Writes `message` as the first packet of a new command: the sequence
/// number starts again at 0.
pub fn encode_command<S: Serialize>(encoder: &mut Encoder, ctx: &mut ConnContext, message: &S)
    requires
        message.spec_payload().len() + 4 <= U24_MAX,
    ensures
        final(encoder)@ == packet_bytes(0, message.spec_payload()),
        *final(ctx) == (ConnContext { seq_no: 0, ..*old(ctx) }),
{
    ctx.seq_no = 0;
    encode_packet(encoder, ctx, message);
}

/// The header of a packet, read back, gives the body length and the
/// sequence number that were written, and the body follows it.
pub proof fn lemma_packet_header_roundtrip(seq_no: u8, body: Seq<u8>)
    requires
        body.len() < 0x100_0000,
    ensures
        le_value(packet_bytes(seq_no, body).take(3)) == body.len(),
        packet_bytes(seq_no, body)[3] == seq_no,
        packet_bytes(seq_no, body).skip(4) == body,
{
    lemma_le_bytes_len(body.len(), 3);
    reveal_with_fuel(pow256, 4);
    lemma_le_roundtrip_small(body.len(), 3);
    let p = packet_bytes(seq_no, body);
    assert(p.take(3) =~= le_bytes(body.len(), 3));
    assert(p.skip(4) =~= body);
}

/// Once the receive buffer starts with a packet that `encode_packet` wrote,
/// the body length that `FrameState::on_read` takes from it, plus the four
/// header bytes, is the length of the whole packet: the read is `Complete`
/// exactly when the whole packet has arrived.
pub proof fn lemma_announced_length_is_packet_length(seq_no: u8, body: Seq<u8>, rbuf: Seq<u8>)
    requires
        body.len() < 0x100_0000,
        rbuf.len() >= packet_bytes(seq_no, body).len(),
        rbuf.take(packet_bytes(seq_no, body).len() as int) == packet_bytes(seq_no, body),
    ensures
        le_value(rbuf.take(3)) + 4 == packet_bytes(seq_no, body).len(),
{
    lemma_packet_header_roundtrip(seq_no, body);
    lemma_le_bytes_len(body.len(), 3);
    let p = packet_bytes(seq_no, body);
    assert(rbuf.take(3) =~= p.take(3));
}

/// What to do after a read from the socket while a packet is awaited.
#[derive(Clone, Copy, Debug, PartialEq, Eq, Structural)]
pub enum FrameAction {
    /// The server closed the stream: there is no packet.
    EndOfStream,
    /// The packet is not complete yet: read again.
    NeedMore,
    /// The buffer holds the whole packet, header and body.
    Complete,
}

/// How far a packet being read has come: the bytes received so far and the
/// body length that its header announced (0 until the header is read).
#[derive(Clone, Copy, Debug, PartialEq, Eq, Structural)]
pub struct FrameState {
    pub len: usize,
    pub packet_len: u32,
}

impl FrameState {
    /// Nothing received yet.
    pub fn new() -> (res: FrameState)
        ensures
            res.len == 0,
            res.packet_len == 0,
    {
        FrameState { len: 0, packet_len: 0 }
    }

    /// Takes in a read of `bytes_read` bytes into `rbuf` (the receive
    /// buffer, zero beyond what was received). A read of nothing ends the
    /// stream. Otherwise the count grows; the first time, the announced body
    /// length is taken from the first three bytes of `rbuf`; and the packet
    /// is complete once the count covers the four header bytes and the
    /// announced body.
    pub fn on_read(&mut self, rbuf: &[u8], bytes_read: usize) -> (res: FrameAction)
        requires
            rbuf@.len() >= 3,
            old(self).len + bytes_read <= rbuf@.len(),
        ensures
            bytes_read == 0 ==> res == FrameAction::EndOfStream && *final(self) == *old(self),
            bytes_read > 0 ==> {
                &&& final(self).len == old(self).len + bytes_read
                &&& final(self).packet_len == (if old(self).packet_len == 0 {
                    le_value(rbuf@.take(3)) as u32
                } else {
                    old(self).packet_len
                })
                &&& res == (if final(self).packet_len + 4 > final(self).len {
                    FrameAction::NeedMore
                } else {
                    FrameAction::Complete
                })
            },
    {
        if bytes_read == 0 {
            return FrameAction::EndOfStream;
        }
        let received = rbuf.len();
        assert(self.len + bytes_read <= received);
        self.len = self.len + bytes_read;
        if self.len > 0 && self.packet_len == 0 {
            self.packet_len = read_u24_le(rbuf);
        }
        if self.packet_len as u64 + 4 > self.len as u64 {
            FrameAction::NeedMore
        } else {
            FrameAction::Complete
        }
    }
}

impl FrameState {
    /// The bytes received so far, out of the receive buffer `rbuf` (which
    /// is zero beyond them): once the read is `Complete`, the whole packet,
    /// header and body, and whatever arrived with it.
    pub fn received(&self, rbuf: BytesMut) -> (res: Bytes)
        requires
            self.len <= bytes_mut_view(rbuf).len(),
        ensures
            bytes_view(res) == bytes_mut_view(rbuf).take(self.len as int),
    {
        let mut rbuf = rbuf;
        bytes_mut_truncate(&mut rbuf, self.len);
        bytes_mut_freeze(rbuf)
    }
}

/// What a packet that arrives in a result set is.
#[derive(Clone, Copy, Debug, PartialEq, Eq, Structural)]
pub enum ResultPacket {
    /// The end of the result set: an OK packet when the connection agreed on
    /// `CLIENT_DEPRECATE_EOF`, an EOF packet otherwise.
    End { ok_packet: bool },
    /// An error packet.
    Error,
    /// A row.
    Row,
}

/// What the packet `packet` of a result set is, by its first byte: `0xFE`
/// ends the set, unless the packet is at least `0xFF_FF_FF` bytes long (a
/// row may start with `0xFE`, an OK or EOF packet is never that long);
/// `0xFF` is an error; anything else is a row.
pub open spec fn result_packet_kind(packet: Seq<u8>, capabilities: Capabilities) -> ResultPacket {
    if packet[0] == 0xFE && packet.len() < 0xFF_FF_FF {
        ResultPacket::End {
            ok_packet: capabilities.bits & Capabilities::CLIENT_DEPRECATE_EOF
                == Capabilities::CLIENT_DEPRECATE_EOF,
        }
    } else if packet[0] == 0xFF {
        ResultPacket::Error
    } else {
        ResultPacket::Row
    }
}

/// In a result set only a packet that starts with `0xFE` (and is shorter
/// than `0xFF_FF_FF` bytes) ends the set, and only one that starts with
/// `0xFF` is an error; every other packet is a row. The end is an OK packet
/// exactly when `CLIENT_DEPRECATE_EOF` was agreed on.
pub proof fn lemma_result_packet_kinds(packet: Seq<u8>, capabilities: Capabilities)
    requires
        packet.len() > 0,
    ensures
        packet[0] != 0xFE && packet[0] != 0xFF ==> result_packet_kind(packet, capabilities)
            == ResultPacket::Row,
        packet[0] == 0xFE && packet.len() >= 0xFF_FF_FF ==> result_packet_kind(
            packet,
            capabilities,
        ) == ResultPacket::Row,
        packet[0] == 0xFF ==> result_packet_kind(packet, capabilities) == ResultPacket::Error,
        packet[0] == 0xFE && packet.len() < 0xFF_FF_FF ==> result_packet_kind(
            packet,
            capabilities,
        ) is End,
        result_packet_kind(packet, capabilities) is End ==> packet[0] == 0xFE,
        result_packet_kind(packet, capabilities) matches ResultPacket::End { ok_packet }
            ==> ok_packet == (capabilities.bits & 0x0100_0000u64 != 0),
{
    let bits = capabilities.bits;
    assert((bits & 0x0100_0000u64 == 0x0100_0000u64) == (bits & 0x0100_0000u64 != 0))
        by (bit_vector);
}

/// Tells apart the packets of a result set (see `result_packet_kind`).
pub fn classify_result_packet(packet: &[u8], capabilities: &Capabilities) -> (res: ResultPacket)
    requires
        packet@.len() > 0,
    ensures
        res == result_packet_kind(packet@, *capabilities),
{
    if packet[0] == 0xFE && packet.len() < 0xFF_FF_FF {
        ResultPacket::End { ok_packet: capabilities.contains(Capabilities::CLIENT_DEPRECATE_EOF) }
    } else if packet[0] == 0xFF {
        ResultPacket::Error
    } else {
        ResultPacket::Row
    }
}

/// Takes in one packet of a result set while its rows are counted: what the
/// packet is (see `result_packet_kind`), and one more row when it is a row.
pub fn count_result_packet(rows: &mut u64, packet: &[u8], capabilities: &Capabilities) -> (res:
    ResultPacket)
    requires
        packet@.len() > 0,
        *old(rows) < u64::MAX,
    ensures
        res == result_packet_kind(packet@, *capabilities),
        *final(rows) == (if res is Row {
            *old(rows) + 1
        } else {
            *old(rows) as int
        }),
{
    let kind = classify_result_packet(packet, capabilities);
    if let ResultPacket::Row = kind {
        // For every row we decode we increment counter
        *rows = *rows + 1;
    }
    kind
}

/// How the server answers the handshake response, by the tag of its reply.
#[derive(Clone, Copy, Debug, PartialEq, Eq, Structural)]
pub enum HandshakeReply {
    /// An error packet (`0xFF`): the connection is refused.
    Refused,
    /// An OK packet (`0x00`): the connection is established.
    Accepted,
    /// Neither: the reply is not one that may come.
    Unexpected,
}

/// Tells apart the replies to the handshake response by their tag.
pub fn classify_handshake_reply(tag: u8) -> (res: HandshakeReply)
    ensures
        res == (if tag == 0xFF {
            HandshakeReply::Refused
        } else if tag == 0x00 {
            HandshakeReply::Accepted
        } else {
            HandshakeReply::Unexpected
        }),
{
    if tag == 0xFF {
        HandshakeReply::Refused
    } else if tag == 0x00 {
        HandshakeReply::Accepted
    } else {
        HandshakeReply::Unexpected
    }
}

/// How far the reading of a server message has come: the bytes in the
/// receive buffer that no message has consumed yet.
#[derive(Clone, Copy, Debug, PartialEq, Eq, Structural)]
pub struct MessageReadState {
    pub len: usize,
}

impl MessageReadState {
    /// Nothing received yet.
    pub fn new() -> (res: MessageReadState)
        ensures
            res.len == 0,
    {
        MessageReadState { len: 0 }
    }
}

/// What to do next while a server message is read.
#[derive(Clone, Copy, Debug, PartialEq, Eq, Structural)]
pub enum MessageReadAction {
    /// The server closed the stream: there is no message.
    EndOfStream,
    /// Try to decode a message from the bytes received.
    TryDecode,
    /// A message was decoded: hand it to the caller.
    Deliver,
    /// The bytes received hold no whole message: read again.
    NeedRead,
}

/// Takes in a read of `bytes_read` bytes: a read of nothing ends the stream;
/// otherwise the received bytes grow and a message is to be decoded.
pub fn on_message_read(st: &mut MessageReadState, bytes_read: usize) -> (res: MessageReadAction)
    requires
        old(st).len + bytes_read <= usize::MAX,
    ensures
        bytes_read == 0 ==> res is EndOfStream && *final(st) == *old(st),
        bytes_read > 0 ==> final(st).len == old(st).len + bytes_read && res is TryDecode,
{
    if bytes_read > 0 {
        st.len = st.len + bytes_read;
        MessageReadAction::TryDecode
    } else {
        // Read 0 bytes from the server; end-of-stream
        MessageReadAction::EndOfStream
    }
}

/// Takes in a decoding attempt that consumed `consumed` bytes: the message
/// is handed on when one was decoded; otherwise more bytes are needed.
pub fn after_decode(st: &mut MessageReadState, consumed: usize, decoded: bool) -> (res:
    MessageReadAction)
    requires
        consumed <= old(st).len,
    ensures
        final(st).len == old(st).len - consumed,
        res == (if decoded {
            MessageReadAction::Deliver
        } else {
            MessageReadAction::NeedRead
        }),
{
    st.len = st.len - consumed;
    if decoded {
        MessageReadAction::Deliver
    } else {
        // Did not receive enough bytes to deserialize a complete message
        MessageReadAction::NeedRead
    }
}

} // verus!
