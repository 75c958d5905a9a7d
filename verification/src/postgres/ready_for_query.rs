//! The `ReadyForQuery` message of the PostgreSQL protocol.
use vstd::prelude::*;
use bytes::Bytes;
use crate::buffers::{bytes_as_slice, bytes_view};
use crate::error::ProtocolError;

verus! {

/// The transaction state that the backend reports.
#[derive(Clone, Copy, Debug, PartialEq, Eq, Structural)]
pub enum TransactionStatus {
    /// Not in a transaction block (`b'I'`).
    Idle,
    /// In a transaction block (`b'T'`).
    Transaction,
    /// In a _failed_ transaction block (`b'E'`). Queries will be rejected
    /// until the block is ended.
    Error,
}

/// The status that a status byte names, if any.
pub open spec fn status_of_byte(b: u8) -> Option<TransactionStatus> {
    if b == 0x49 {
        Some(TransactionStatus::Idle)
    } else if b == 0x54 {
        Some(TransactionStatus::Transaction)
    } else if b == 0x45 {
        Some(TransactionStatus::Error)
    } else {
        None
    }
}

impl TransactionStatus {
    /// The byte that stands for the status on the wire.
    pub open spec fn spec_byte(self) -> u8 {
        match self {
            TransactionStatus::Idle => 0x49,
            TransactionStatus::Transaction => 0x54,
            TransactionStatus::Error => 0x45,
        }
    }

    /// The byte that stands for the status on the wire.
    pub fn byte(self) -> (res: u8)
        ensures
            res == self.spec_byte(),
    {
        match self {
            TransactionStatus::Idle => 0x49,
            TransactionStatus::Transaction => 0x54,
            TransactionStatus::Error => 0x45,
        }
    }
}

/// Reading back the byte of a status gives the status.
pub proof fn lemma_status_byte_roundtrip(status: TransactionStatus)
    ensures
        status_of_byte(status.spec_byte()) == Some(status),
{
}

/// Whether `ReadyForQuery::decode` is defined on the body `s`: a body of
/// one byte must hold a known status.
pub open spec fn ready_for_query_defined(s: Seq<u8>) -> bool {
    s.len() == 1 ==> status_of_byte(s[0]) is Some
}

/// `ReadyForQuery` is sent whenever the backend is ready for a new query
/// cycle.
#[derive(Clone, Copy, Debug, PartialEq, Eq, Structural)]
pub struct ReadyForQuery {
    pub status: TransactionStatus,
}

impl ReadyForQuery {
    /// Decodes the body `src`, which must be exactly one status byte.
    pub fn decode(src: Bytes) -> (res: Result<ReadyForQuery, ProtocolError>)
        requires
            ready_for_query_defined(bytes_view(src)),
        ensures
            bytes_view(src).len() != 1 ==> res == Err::<ReadyForQuery, ProtocolError>(
                ProtocolError::InvalidInput,
            ),
            bytes_view(src).len() == 1 ==> res == Ok::<ReadyForQuery, ProtocolError>(
                ReadyForQuery { status: status_of_byte(bytes_view(src)[0]).unwrap() },
            ),
    {
        let s = bytes_as_slice(&src);
        if s.len() != 1 {
            return Err(ProtocolError::InvalidInput);
        }
        let status = if s[0] == 0x49 {
            TransactionStatus::Idle
        } else if s[0] == 0x54 {
            TransactionStatus::Transaction
        } else {
            TransactionStatus::Error
        };
        Ok(ReadyForQuery { status })
    }
}

} // verus!
