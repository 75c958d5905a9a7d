//! The decisions of a PostgreSQL connection: what the receive loop does next,
//! and the frontend messages that it writes. The socket itself lives outside
//! the library.
use vstd::prelude::*;
use bytes::BytesMut;
use crate::buffers::bytes_mut_view;
use crate::error::ProtocolError;
use crate::postgres::message::{next_reported, stream_decodable, Message, MessageView};

verus! {

/// A message that the frontend sends.
pub trait Encode {
    /// The bytes of the message.
    spec fn spec_encoding(&self) -> Seq<u8>;

    /// The number of bytes of the message.
    fn encoded_len(&self) -> (res: usize)
        ensures
            res == self.spec_encoding().len(),
    ;

    /// Appends the message to `buf`.
    fn encode(&self, buf: &mut Vec<u8>)
        requires
            old(buf)@.len() + self.spec_encoding().len() <= isize::MAX,
        ensures
            final(buf)@ == old(buf)@ + self.spec_encoding(),
    ;
}

/// Ends the session.
pub struct Terminate;

impl Encode for Terminate {
    /// The type byte `X`, then the length 4 (most significant byte first).
    open spec fn spec_encoding(&self) -> Seq<u8> {
        seq![0x58u8, 0u8, 0u8, 0u8, 4u8]
    }

    fn encoded_len(&self) -> (res: usize) {
        5
    }

    fn encode(&self, buf: &mut Vec<u8>) {
        buf.push(0x58);
        buf.push(0);
        buf.push(0);
        buf.push(0);
        buf.push(4);
        proof {
            assert(buf@ =~= old(buf)@ + self.spec_encoding());
        }
    }
}

/// What the receive loop does next.
#[derive(Debug)]
pub enum ReceivePoll {
    /// Hand this message to the caller.
    Message(Message),
    /// The stream has ended: there is no message.
    EndOfStream,
    /// The buffer holds no whole message to hand on: read from the stream.
    NeedRead,
    /// A message could not be decoded.
    Failed(ProtocolError),
}

/// What the receive loop knows of the stream: whether the read buffer may
/// hold data to decode, and whether the stream has ended.
#[derive(Clone, Copy, Debug, PartialEq, Eq, Structural)]
pub struct ReceiveState {
    pub stream_readable: bool,
    pub stream_eof: bool,
}

impl ReceiveState {
    /// Nothing read yet.
    pub fn new() -> (res: ReceiveState)
        ensures
            !res.stream_readable,
            !res.stream_eof,
    {
        ReceiveState { stream_readable: false, stream_eof: false }
    }

    /// Whether `poll` is defined on the read buffer `s`: the buffer is only
    /// decoded when the stream has not ended and may hold data.
    pub open spec fn poll_defined(&self, s: Seq<u8>) -> bool {
        !self.stream_eof && self.stream_readable ==> stream_decodable(s)
    }

    /// Decides the next step of the receive loop. Once the stream has ended
    /// there is no message. While the buffer may hold data, messages are
    /// taken off it until one is handed on (see `next_reported`). Otherwise
    /// the loop must read.
    pub fn poll(&mut self, rbuf: &mut BytesMut) -> (res: ReceivePoll)
        requires
            old(self).poll_defined(bytes_mut_view(*old(rbuf))),
        ensures
            *final(self) == *old(self),
            old(self).stream_eof ==> res is EndOfStream && bytes_mut_view(*final(rbuf))
                == bytes_mut_view(*old(rbuf)),
            !old(self).stream_eof && !old(self).stream_readable ==> res is NeedRead
                && bytes_mut_view(*final(rbuf)) == bytes_mut_view(*old(rbuf)),
            !old(self).stream_eof && old(self).stream_readable ==> {
                &&& bytes_mut_view(*final(rbuf)) == next_reported(bytes_mut_view(*old(rbuf))).1
                &&& match res {
                    ReceivePoll::Message(m) => next_reported(bytes_mut_view(*old(rbuf))).0 == Ok::<
                        Option<MessageView>,
                        ProtocolError,
                    >(Some(m@)),
                    ReceivePoll::NeedRead => next_reported(bytes_mut_view(*old(rbuf))).0 == Ok::<
                        Option<MessageView>,
                        ProtocolError,
                    >(None),
                    ReceivePoll::Failed(e) => next_reported(bytes_mut_view(*old(rbuf))).0 == Err::<
                        Option<MessageView>,
                        ProtocolError,
                    >(e),
                    ReceivePoll::EndOfStream => false,
                }
            },
    {
        if self.stream_eof {
            // Reached end-of-file on a previous read call.
            return ReceivePoll::EndOfStream;
        }
        if self.stream_readable {
            match Message::decode_reported(rbuf) {
                Ok(Some(message)) => ReceivePoll::Message(message),
                // Not enough data in the read buffer to parse a message
                Ok(None) => ReceivePoll::NeedRead,
                Err(e) => ReceivePoll::Failed(e),
            }
        } else {
            ReceivePoll::NeedRead
        }
    }

    /// Takes in a read of `bytes_read` bytes into the buffer: a read of
    /// nothing ends the stream, and the buffer may now hold data.
    pub fn on_read(&mut self, bytes_read: usize)
        ensures
            final(self).stream_eof == (old(self).stream_eof || bytes_read == 0),
            final(self).stream_readable,
    {
        if bytes_read == 0 {
            self.stream_eof = true;
        }
        self.stream_readable = true;
    }
}

} // verus!
