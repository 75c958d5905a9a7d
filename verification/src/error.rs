//! The ways in which decoding a message can fail.
use vstd::prelude::*;

verus! {

/// Why a message could not be decoded.
#[derive(Clone, Copy, Debug, PartialEq, Eq, Structural)]
pub enum ProtocolError {
    /// The input ends before the message does.
    UnexpectedEof,
    /// A length-encoded integer starts with `0xFF`, which encodes nothing.
    InvalidLenenc,
    /// An OK packet starts with a tag other than `0x00` or `0xFE`.
    InvalidPacketHeader,
    /// The input is not a message of the expected kind.
    InvalidData,
    /// A message body has the wrong size.
    InvalidInput,
}

} // verus!
