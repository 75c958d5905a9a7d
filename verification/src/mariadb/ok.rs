//! The OK packet, which the server sends when a command succeeds.
use vstd::prelude::*;
use bytes::Bytes;
use crate::buffers::{bytes_from_slice, bytes_view, read_u16_le, read_u24_le};
use crate::error::ProtocolError;
use crate::le::{le_value, lemma_le_value_2, lemma_le_value_3};
use crate::mariadb::decode::{decode_int_lenenc, parse_lenenc_int};
use crate::mariadb::types::{ServerStatusFlag, SERVER_STATUS_ALL};

verus! {

/// An OK packet, header included.
pub struct OkPacket {
    /// The body length that the header announces.
    pub length: u32,
    /// The sequence number of the packet.
    pub seq_no: u8,
    pub affected_rows: Option<usize>,
    pub last_insert_id: Option<usize>,
    pub server_status: ServerStatusFlag,
    pub warning_count: u16,
    /// Human-readable status information.
    pub info: Bytes,
    /// Session state changes (only with session tracking, which is not
    /// supported, so always `None`).
    pub session_state_info: Option<Bytes>,
    /// The value of a changed session variable (always `None`, as above).
    pub value: Option<Bytes>,
}

/// An OK packet with its byte strings as sequences.
pub struct OkPacketView {
    pub length: u32,
    pub seq_no: u8,
    pub affected_rows: Option<usize>,
    pub last_insert_id: Option<usize>,
    pub server_status: u16,
    pub warning_count: u16,
    pub info: Seq<u8>,
    pub session_state_info: Option<Seq<u8>>,
    pub value: Option<Seq<u8>>,
}

/// The contents of an optional byte string.
pub open spec fn opt_bytes_view(b: Option<Bytes>) -> Option<Seq<u8>> {
    match b {
        Some(b) => Some(bytes_view(b)),
        None => None,
    }
}

impl View for OkPacket {
    type V = OkPacketView;

    open spec fn view(&self) -> OkPacketView {
        OkPacketView {
            length: self.length,
            seq_no: self.seq_no,
            affected_rows: self.affected_rows,
            last_insert_id: self.last_insert_id,
            server_status: self.server_status.bits,
            warning_count: self.warning_count,
            info: bytes_view(self.info),
            session_state_info: opt_bytes_view(self.session_state_info),
            value: opt_bytes_view(self.value),
        }
    }
}

/// What decoding the OK packet `s` gives. Its layout: the body length
/// (`int<3>`), the sequence number (`int<1>`), the tag `0x00` or `0xFE`,
/// the affected rows and the last insert id (`int<lenenc>` each), the server
/// status and the warning count (`int<2>` each, the status with undefined
/// flags dropped), then the info string up to the end.
pub open spec fn parse_ok_packet(s: Seq<u8>) -> Result<OkPacketView, ProtocolError> {
    if s.len() < 5 {
        Err(ProtocolError::UnexpectedEof)
    } else if s[4] != 0 && s[4] != 0xFE {
        Err(ProtocolError::InvalidPacketHeader)
    } else {
        match parse_lenenc_int(s.skip(5)) {
            Err(e) => Err(e),
            Ok((affected_rows, n1)) => match parse_lenenc_int(s.skip(5 + n1)) {
                Err(e) => Err(e),
                Ok((last_insert_id, n2)) => {
                    let p = 5 + n1 + n2;
                    if s.len() < p + 4 {
                        Err(ProtocolError::UnexpectedEof)
                    } else {
                        Ok(
                            OkPacketView {
                                length: le_value(s.take(3)) as u32,
                                seq_no: s[3],
                                affected_rows,
                                last_insert_id,
                                server_status: (le_value(s.subrange(p, p + 2)) as u16)
                                    & SERVER_STATUS_ALL,
                                warning_count: le_value(s.subrange(p + 2, p + 4)) as u16,
                                info: s.skip(p + 4),
                                session_state_info: None,
                                value: None,
                            },
                        )
                    }
                },
            },
        }
    }
}

/// Where the server status starts in the OK packet `s`: after the header,
/// the tag and the two `int<lenenc>` fields, as the decoder of those fields
/// reads them.
pub open spec fn ok_status_offset(s: Seq<u8>) -> int {
    match parse_lenenc_int(s.skip(5)) {
        Ok((_, n1)) => match parse_lenenc_int(s.skip(5 + n1)) {
            Ok((_, n2)) => 5 + n1 + n2,
            Err(_) => 0,
        },
        Err(_) => 0,
    }
}

/// The fields of a decoded OK packet, byte by byte: the length is the first
/// three bytes and the sequence number the fourth; the affected rows and the
/// last insert id are the two `int<lenenc>` that follow the tag; after them
/// come the server status and the warning count, two bytes each, least
/// significant first (the status with the undefined flags dropped), and the
/// info string is the rest.
pub proof fn lemma_ok_packet_fields(s: Seq<u8>)
    ensures
        parse_ok_packet(s) matches Ok(v) ==> {
            let p = ok_status_offset(s);
            &&& s[4] == 0 || s[4] == 0xFE
            &&& 7 <= p && p + 4 <= s.len()
            &&& v.length == s[0] as nat + 256 * (s[1] as nat) + 0x1_0000 * (s[2] as nat)
            &&& v.seq_no == s[3]
            &&& (parse_lenenc_int(s.skip(5)) matches Ok((a, n1)) && v.affected_rows == a
                && (parse_lenenc_int(s.skip(5 + n1)) matches Ok((l, _)) && v.last_insert_id == l))
            &&& v.server_status == ((s[p] as nat + 256 * (s[p + 1] as nat)) as u16)
                & SERVER_STATUS_ALL
            &&& v.warning_count == s[p + 2] as nat + 256 * (s[p + 3] as nat)
            &&& v.info == s.skip(p + 4)
            &&& v.session_state_info is None && v.value is None
        },
{
    if let Ok(v) = parse_ok_packet(s) {
        let p = ok_status_offset(s);
        lemma_le_value_3(s.take(3));
        lemma_le_value_2(s.subrange(p, p + 2));
        lemma_le_value_2(s.subrange(p + 2, p + 4));
    }
}

impl OkPacket {
    /// Decodes the OK packet that `buf` holds (see `parse_ok_packet`).
    pub fn deserialize(buf: &[u8]) -> (res: Result<OkPacket, ProtocolError>)
        ensures
            match res {
                Ok(p) => parse_ok_packet(buf@) == Ok::<OkPacketView, ProtocolError>(p@),
                Err(e) => parse_ok_packet(buf@) == Err::<OkPacketView, ProtocolError>(e),
            },
    {
        if buf.len() < 5 {
            return Err(ProtocolError::UnexpectedEof);
        }
        // Packet header
        let length = read_u24_le(buf);
        let seq_no = buf[3];

        // Packet body
        let packet_header = buf[4];
        if packet_header != 0 && packet_header != 0xFE {
            return Err(ProtocolError::InvalidPacketHeader);
        }
        let rest1 = &buf[5..buf.len()];
        assert(rest1@ =~= buf@.skip(5));
        let (affected_rows, n1) = match decode_int_lenenc(rest1) {
            Ok(r) => r,
            Err(e) => return Err(e),
        };
        proof {
            assert(n1 <= rest1@.len());
        }
        let rest2 = &buf[5 + n1..buf.len()];
        assert(rest2@ =~= buf@.skip(5 + n1));
        let (last_insert_id, n2) = match decode_int_lenenc(rest2) {
            Ok(r) => r,
            Err(e) => return Err(e),
        };
        let p = 5 + n1 + n2;
        if buf.len() < p || buf.len() - p < 4 {
            return Err(ProtocolError::UnexpectedEof);
        }
        let status = read_u16_le(&buf[p..p + 2]);
        let warning_count = read_u16_le(&buf[p + 2..p + 4]);
        proof {
            assert(buf@.subrange(p as int, p + 2).take(2) =~= buf@.subrange(p as int, p + 2));
            assert(buf@.subrange(p + 2, p + 4).take(2) =~= buf@.subrange(p + 2, p + 4));
        }
        let server_status = ServerStatusFlag::from_bits_truncate(status);

        // Session tracking is not supported, so the rest is the info string.
        let info = bytes_from_slice(&buf[p + 4..buf.len()]);
        proof {
            assert(buf@.subrange(p + 4, buf@.len() as int) =~= buf@.skip(p + 4));
        }
        Ok(
            OkPacket {
                length,
                seq_no,
                affected_rows,
                last_insert_id,
                server_status,
                warning_count,
                info,
                session_state_info: None,
                value: None,
            },
        )
    }
}

} // verus!
