//! Enumerations and flag sets of the MariaDB client/server protocol.
use vstd::prelude::*;

verus! {

/// Column and parameter types of the MariaDB binary protocol.
#[derive(Clone, Copy, Debug, PartialEq, Eq, Structural)]
pub enum FieldType {
    MysqlTypeDecimal,
    MysqlTypeTiny,
    MysqlTypeShort,
    MysqlTypeLong,
    MysqlTypeFloat,
    MysqlTypeDouble,
    MysqlTypeNull,
    MysqlTypeTimestamp,
    MysqlTypeLonglong,
    MysqlTypeInt24,
    MysqlTypeDate,
    MysqlTypeTime,
    MysqlTypeDatetime,
    MysqlTypeYear,
    MysqlTypeNewdate,
    MysqlTypeVarchar,
    MysqlTypeBit,
    MysqlTypeTimestamp2,
    MysqlTypeDatetime2,
    MysqlTypeTime2,
    MysqlTypeJson,
    MysqlTypeNewdecimal,
    MysqlTypeEnum,
    MysqlTypeSet,
    MysqlTypeTinyBlob,
    MysqlTypeMediumBlob,
    MysqlTypeLongBlob,
    MysqlTypeBlob,
    MysqlTypeVarString,
    MysqlTypeString,
    MysqlTypeGeometry,
}

/// The server status flags that an OK packet reports, as a bit set.
#[derive(Clone, Copy, Debug, PartialEq, Eq, Structural)]
pub struct ServerStatusFlag {
    pub bits: u16,
}

/// Every flag that the protocol defines (bit 2 is unused).
pub const SERVER_STATUS_ALL: u16 = 0x7FFB;

impl ServerStatusFlag {
    /// A transaction is active.
    pub const SERVER_STATUS_IN_TRANS: u16 = 0x0001;

    /// Autocommit mode is on.
    pub const SERVER_STATUS_AUTOCOMMIT: u16 = 0x0002;

    /// More result sets follow.
    pub const SERVER_MORE_RESULTS_EXISTS: u16 = 0x0008;

    /// The session state changed (session tracking).
    pub const SERVER_SESSION_STATE_CHANGED: u16 = 0x4000;

    /// The flag set of `bits`, with the bits that name no flag dropped.
    pub fn from_bits_truncate(bits: u16) -> (res: ServerStatusFlag)
        ensures
            res.bits == bits & SERVER_STATUS_ALL,
    {
        ServerStatusFlag { bits: bits & SERVER_STATUS_ALL }
    }

    /// Whether every flag of `flag` is set.
    pub fn contains(&self, flag: u16) -> (res: bool)
        ensures
            res == (self.bits & flag == flag),
    {
        self.bits & flag == flag
    }
}

impl Default for ServerStatusFlag {
    /// No flag set.
    fn default() -> (res: ServerStatusFlag)
        ensures
            res.bits == 0,
    {
        ServerStatusFlag { bits: 0 }
    }
}

/// The capability flags that client and server agree on, as a bit set.
#[derive(Clone, Copy, Debug, PartialEq, Eq, Structural)]
pub struct Capabilities {
    pub bits: u64,
}

impl Capabilities {
    /// The server ends a result set with an OK packet in place of an EOF
    /// packet.
    pub const CLIENT_DEPRECATE_EOF: u64 = 0x0100_0000;

    /// Whether every flag of `flag` is set.
    pub fn contains(&self, flag: u64) -> (res: bool)
        ensures
            res == (self.bits & flag == flag),
    {
        self.bits & flag == flag
    }
}

impl Capabilities {
    /// The capabilities that both sets have.
    pub fn bitand(self, other: Capabilities) -> (res: Capabilities)
        ensures
            res.bits == self.bits & other.bits,
    {
        Capabilities { bits: self.bits & other.bits }
    }
}

impl Default for Capabilities {
    /// No capability.
    fn default() -> (res: Capabilities)
        ensures
            res.bits == 0,
    {
        Capabilities { bits: 0 }
    }
}

} // verus!
