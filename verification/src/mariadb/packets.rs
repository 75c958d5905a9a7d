//! Commands that the client sends, and how they are written into a packet.
use vstd::prelude::*;
use bytes::Bytes;
use crate::buffers::{bytes_as_slice, bytes_view};
use crate::mariadb::connection::ConnContext;
use crate::mariadb::encode::{Encoder, U24_MAX};

verus! {

/// The command bytes of the text protocol.
#[derive(Clone, Copy, Debug, PartialEq, Eq, Structural)]
pub enum TextProtocol {
    ComQuit,
    ComInitDb,
    ComQuery,
    ComShutdown,
    ComPing,
}

impl TextProtocol {
    /// The byte that starts a command packet of this kind.
    pub open spec fn spec_code(self) -> u8 {
        match self {
            TextProtocol::ComQuit => 0x01,
            TextProtocol::ComInitDb => 0x02,
            TextProtocol::ComQuery => 0x03,
            TextProtocol::ComShutdown => 0x08,
            TextProtocol::ComPing => 0x0E,
        }
    }

    /// The byte that starts a command packet of this kind.
    pub fn code(self) -> (res: u8)
        ensures
            res == self.spec_code(),
    {
        match self {
            TextProtocol::ComQuit => 0x01,
            TextProtocol::ComInitDb => 0x02,
            TextProtocol::ComQuery => 0x03,
            TextProtocol::ComShutdown => 0x08,
            TextProtocol::ComPing => 0x0E,
        }
    }
}

/// A message that can be written as the body of a packet.
pub trait Serialize {
    /// The body bytes of the message.
    spec fn spec_payload(&self) -> Seq<u8>;

    /// Whether the body of the message fits in one packet together with the
    /// four header bytes.
    fn fits_in_packet(&self) -> (res: bool)
        ensures
            res == (self.spec_payload().len() + 4 <= U24_MAX),
    ;

    /// Appends the body of the message to `encoder`. The connection context
    /// is left as it was.
    fn serialize(&self, ctx: &mut ConnContext, encoder: &mut Encoder)
        requires
            old(encoder)@.len() + self.spec_payload().len() <= isize::MAX,
        ensures
            final(encoder)@ == old(encoder)@ + self.spec_payload(),
            *final(ctx) == *old(ctx),
    ;
}

/// What a `COM_SHUTDOWN` asks of the server.
#[derive(Clone, Copy, Debug, PartialEq, Eq, Structural)]
pub enum ShutdownOptions {
    ShutdownDefault,
}

impl ShutdownOptions {
    /// The byte that carries the option.
    pub open spec fn spec_code(self) -> u8 {
        match self {
            ShutdownOptions::ShutdownDefault => 0x00,
        }
    }

    /// The byte that carries the option.
    pub fn code(self) -> (res: u8)
        ensures
            res == self.spec_code(),
    {
        match self {
            ShutdownOptions::ShutdownDefault => 0x00,
        }
    }
}

/// Asks the server to shut down.
pub struct ComShutdown {
    pub option: ShutdownOptions,
}

impl Serialize for ComShutdown {
    fn fits_in_packet(&self) -> (res: bool) {
        true
    }

    /// The command byte, then the option byte.
    open spec fn spec_payload(&self) -> Seq<u8> {
        seq![TextProtocol::ComShutdown.spec_code(), self.option.spec_code()]
    }

    fn serialize(&self, ctx: &mut ConnContext, encoder: &mut Encoder) {
        encoder.encode_int_u8(TextProtocol::ComShutdown.code());
        encoder.encode_int_u8(self.option.code());
        proof {
            assert(encoder@ =~= old(encoder)@ + self.spec_payload());
        }
    }
}

/// Closes the connection.
pub struct ComQuit {}

impl Serialize for ComQuit {
    fn fits_in_packet(&self) -> (res: bool) {
        true
    }

    /// The command byte alone.
    open spec fn spec_payload(&self) -> Seq<u8> {
        seq![TextProtocol::ComQuit.spec_code()]
    }

    fn serialize(&self, ctx: &mut ConnContext, encoder: &mut Encoder) {
        encoder.encode_int_u8(TextProtocol::ComQuit.code());
    }
}

/// Checks that the server is alive.
pub struct ComPing {}

impl Serialize for ComPing {
    fn fits_in_packet(&self) -> (res: bool) {
        true
    }

    /// The command byte alone.
    open spec fn spec_payload(&self) -> Seq<u8> {
        seq![TextProtocol::ComPing.spec_code()]
    }

    fn serialize(&self, ctx: &mut ConnContext, encoder: &mut Encoder) {
        encoder.encode_int_u8(TextProtocol::ComPing.code());
    }
}

/// Runs an SQL statement in the text protocol.
pub struct ComQuery {
    pub sql_statement: Bytes,
}

impl Serialize for ComQuery {
    fn fits_in_packet(&self) -> (res: bool) {
        bytes_as_slice(&self.sql_statement).len() <= U24_MAX - 5
    }

    /// The command byte, then the statement up to the end of the packet.
    open spec fn spec_payload(&self) -> Seq<u8> {
        seq![TextProtocol::ComQuery.spec_code()] + bytes_view(self.sql_statement)
    }

    fn serialize(&self, ctx: &mut ConnContext, encoder: &mut Encoder) {
        encoder.encode_int_u8(TextProtocol::ComQuery.code());
        encoder.encode_string_eof(&self.sql_statement);
        proof {
            assert(encoder@ =~= old(encoder)@ + self.spec_payload());
        }
    }
}

/// Makes a schema the default one of the connection.
pub struct ComInitDb {
    pub schema_name: Bytes,
}

impl Serialize for ComInitDb {
    fn fits_in_packet(&self) -> (res: bool) {
        bytes_as_slice(&self.schema_name).len() <= U24_MAX - 5
    }

    /// The command byte, then the schema name up to the end of the packet.
    open spec fn spec_payload(&self) -> Seq<u8> {
        seq![TextProtocol::ComInitDb.spec_code()] + bytes_view(self.schema_name)
    }

    fn serialize(&self, ctx: &mut ConnContext, encoder: &mut Encoder) {
        encoder.encode_int_u8(TextProtocol::ComInitDb.code());
        encoder.encode_string_eof(&self.schema_name);
        proof {
            assert(encoder@ =~= old(encoder)@ + self.spec_payload());
        }
    }
}

} // verus!
