//! Writing the data types of the MariaDB wire protocol into a packet buffer.
use vstd::prelude::*;
use bytes::{Bytes, BytesMut};
use crate::buffers::{
    bytes_as_slice, bytes_mut_clear, bytes_mut_extend, bytes_mut_len, bytes_mut_set, bytes_mut_view,
    bytes_mut_with_capacity, bytes_view, write_u24_le,
};
use crate::le::{extend_le, le_bytes, lemma_le_bytes_len};
use crate::mariadb::types::FieldType;

verus! {

/// The largest value of a three-byte integer, and so the largest packet
/// body.
pub const U24_MAX: usize = 0xFF_FF_FF;

/// The bytes of an `int<lenenc>`: `None` is the NULL marker `0xFB`; a value
/// up to 250 is one byte; 251 to 255 (which would read as markers) are
/// written as `0xFC` and two bytes; larger values take the shortest of
/// `0xFC` + two bytes, `0xFD` + three bytes or `0xFE` + eight bytes.
pub open spec fn lenenc_int(value: Option<usize>) -> Seq<u8> {
    match value {
        None => seq![0xFBu8],
        Some(v) => if v > 0xFF_FFFF {
            seq![0xFEu8] + le_bytes(v as nat, 8)
        } else if v > 0xFFFF {
            seq![0xFDu8] + le_bytes(v as nat, 3)
        } else if v > 0xFF {
            seq![0xFCu8] + le_bytes(v as nat, 2)
        } else if v >= 0xFB {
            seq![0xFCu8, v as u8, 0u8]
        } else {
            seq![v as u8]
        },
    }
}

/// An `int<lenenc>` takes one to nine bytes.
pub proof fn lemma_lenenc_int_len(value: Option<usize>)
    ensures
        1 <= lenenc_int(value).len() <= 9,
{
    lemma_le_bytes_len(value.unwrap_or(0) as nat, 8);
    lemma_le_bytes_len(value.unwrap_or(0) as nat, 3);
    lemma_le_bytes_len(value.unwrap_or(0) as nat, 2);
}

/// The bytes of a `string<lenenc>`: the length as an `int<lenenc>`, then
/// the bytes themselves.
pub open spec fn lenenc_string(s: Seq<u8>) -> Seq<u8> {
    lenenc_int(Some(s.len() as usize)) + s
}

/// The bytes of a `byte<lenenc>`: the length as a three-byte little-endian
/// integer, then the bytes themselves.
pub open spec fn lenenc_bytes(s: Seq<u8>) -> Seq<u8> {
    le_bytes(s.len(), 3) + s
}

/// The longest string that the length-encoded writers accept.
pub open spec fn lenenc_string_max() -> nat {
    0xFFF
}

/// Whether `encode_param` can write a parameter of type `ty`: the temporal
/// types and `NULL` have no encoding there.
pub open spec fn param_supported(ty: FieldType) -> bool {
    match ty {
        FieldType::MysqlTypeNull | FieldType::MysqlTypeTimestamp | FieldType::MysqlTypeDate
        | FieldType::MysqlTypeTime | FieldType::MysqlTypeDatetime | FieldType::MysqlTypeNewdate
        | FieldType::MysqlTypeTimestamp2 | FieldType::MysqlTypeDatetime2
        | FieldType::MysqlTypeTime2 => false,
        _ => true,
    }
}

/// Whether `encode_param` writes a parameter of type `ty` with a length
/// prefix, as opposed to verbatim.
pub open spec fn param_length_prefixed(ty: FieldType) -> bool {
    match ty {
        FieldType::MysqlTypeTiny | FieldType::MysqlTypeShort | FieldType::MysqlTypeLong
        | FieldType::MysqlTypeFloat | FieldType::MysqlTypeDouble | FieldType::MysqlTypeLonglong
        | FieldType::MysqlTypeInt24 | FieldType::MysqlTypeYear => false,
        _ => true,
    }
}

/// The bytes that `encode_param` writes for the parameter `s` of type `ty`:
/// decimal, varchar and bit values as `string<lenenc>`; integer and float
/// values verbatim; JSON, new decimal, enum, set, blob, string and geometry
/// values as `byte<lenenc>`.
pub open spec fn param_bytes(s: Seq<u8>, ty: FieldType) -> Seq<u8> {
    match ty {
        FieldType::MysqlTypeDecimal | FieldType::MysqlTypeVarchar | FieldType::MysqlTypeBit =>
            lenenc_string(s),
        FieldType::MysqlTypeJson | FieldType::MysqlTypeNewdecimal | FieldType::MysqlTypeEnum
        | FieldType::MysqlTypeSet | FieldType::MysqlTypeTinyBlob | FieldType::MysqlTypeMediumBlob
        | FieldType::MysqlTypeLongBlob | FieldType::MysqlTypeBlob | FieldType::MysqlTypeVarString
        | FieldType::MysqlTypeString | FieldType::MysqlTypeGeometry => lenenc_bytes(s),
        _ => s,
    }
}

/// Whether `encode_param` writes a parameter of type `ty` as a
/// `string<lenenc>`.
pub open spec fn param_as_lenenc_string(ty: FieldType) -> bool {
    ty == FieldType::MysqlTypeDecimal || ty == FieldType::MysqlTypeVarchar
        || ty == FieldType::MysqlTypeBit
}

/// Whether `encode_param` writes a parameter of type `ty` as a
/// `byte<lenenc>`.
pub open spec fn param_as_lenenc_bytes(ty: FieldType) -> bool {
    ty == FieldType::MysqlTypeJson || ty == FieldType::MysqlTypeNewdecimal
        || ty == FieldType::MysqlTypeEnum || ty == FieldType::MysqlTypeSet
        || ty == FieldType::MysqlTypeTinyBlob || ty == FieldType::MysqlTypeMediumBlob
        || ty == FieldType::MysqlTypeLongBlob || ty == FieldType::MysqlTypeBlob
        || ty == FieldType::MysqlTypeVarString || ty == FieldType::MysqlTypeString
        || ty == FieldType::MysqlTypeGeometry
}

/// A parameter is written exactly as the writer of its wire type writes it:
/// decimal, varchar and bit values as `encode_string_lenenc` does, JSON,
/// new decimal, enum, set, blob, string and geometry values as
/// `encode_byte_lenenc` does, and the other supported types verbatim, as
/// `encode_int_1`/`2`/`4`/`8` do.
pub proof fn lemma_param_bytes_by_type(s: Seq<u8>, ty: FieldType)
    requires
        param_supported(ty),
    ensures
        param_as_lenenc_string(ty) ==> param_bytes(s, ty) == lenenc_string(s),
        param_as_lenenc_bytes(ty) ==> param_bytes(s, ty) == lenenc_bytes(s),
        !param_as_lenenc_string(ty) && !param_as_lenenc_bytes(ty) ==> param_bytes(s, ty) == s
            && !param_length_prefixed(ty),
{
}

/// A buffer into which a packet is written.
pub struct Encoder {
    pub buf: BytesMut,
}

impl View for Encoder {
    type V = Seq<u8>;

    open spec fn view(&self) -> Seq<u8> {
        bytes_mut_view(self.buf)
    }
}

impl Encoder {
    /// An empty encoder whose buffer starts with room for `capacity` bytes.
    pub fn new(capacity: usize) -> (res: Encoder)
        requires
            capacity <= isize::MAX,
        ensures
            res@ == Seq::<u8>::empty(),
    {
        Encoder { buf: bytes_mut_with_capacity(capacity) }
    }

    /// Empties the buffer.
    pub fn clear(&mut self)
        ensures
            final(self)@ == Seq::<u8>::empty(),
    {
        bytes_mut_clear(&mut self.buf);
    }

    /// Appends four zero bytes, the room for a packet header: the body
    /// length (three bytes) and the sequence number (one byte).
    pub fn alloc_packet_header(&mut self)
        requires
            old(self)@.len() + 4 <= isize::MAX,
        ensures
            final(self)@ == old(self)@ + seq![0u8, 0u8, 0u8, 0u8],
    {
        bytes_mut_extend(&mut self.buf, &[0u8, 0u8, 0u8, 0u8]);
    }

    /// Writes the sequence number, the fourth byte of the packet.
    pub fn seq_no(&mut self, seq_no: u8)
        requires
            old(self)@.len() >= 4,
        ensures
            final(self)@ == old(self)@.update(3, seq_no),
    {
        bytes_mut_set(&mut self.buf, 3, seq_no);
    }

    /// Writes the body length (everything after the four header bytes) into
    /// the first three bytes, least significant first. The buffer must hold
    /// a header and at most `U24_MAX` bytes in all.
    pub fn encode_length(&mut self)
        requires
            4 <= old(self)@.len() <= U24_MAX,
        ensures
            final(self)@ == le_bytes((old(self)@.len() - 4) as nat, 3) + old(self)@.skip(3),
    {
        let len = bytes_mut_len(&self.buf);
        let length = write_u24_le((len - 4) as u32);
        proof {
            lemma_le_bytes_len((len - 4) as nat, 3);
        }
        bytes_mut_set(&mut self.buf, 0, length[0]);
        bytes_mut_set(&mut self.buf, 1, length[1]);
        bytes_mut_set(&mut self.buf, 2, length[2]);
        proof {
            assert(self@ =~= le_bytes((old(self)@.len() - 4) as nat, 3) + old(self)@.skip(3));
        }
    }

    /// Appends `value` as an `int<8>`, least significant byte first.
    pub fn encode_int_u64(&mut self, value: u64)
        requires
            old(self)@.len() + 8 <= isize::MAX,
        ensures
            final(self)@ == old(self)@ + le_bytes(value as nat, 8),
    {
        extend_le(&mut self.buf, value, 8);
    }

    /// Appends `value` as an `int<8>` in two's complement, least significant
    /// byte first.
    pub fn encode_int_i64(&mut self, value: i64)
        requires
            old(self)@.len() + 8 <= isize::MAX,
        ensures
            final(self)@ == old(self)@ + le_bytes(value as u64 as nat, 8),
    {
        extend_le(&mut self.buf, value as u64, 8);
    }

    /// Appends the bytes of an `int<8>` that is already encoded.
    pub fn encode_int_8(&mut self, bytes: &Bytes)
        requires
            old(self)@.len() + bytes_view(*bytes).len() <= isize::MAX,
        ensures
            final(self)@ == old(self)@ + bytes_view(*bytes),
    {
        bytes_mut_extend(&mut self.buf, bytes_as_slice(bytes));
    }

    /// Appends `value` as an `int<4>`, least significant byte first.
    pub fn encode_int_u32(&mut self, value: u32)
        requires
            old(self)@.len() + 4 <= isize::MAX,
        ensures
            final(self)@ == old(self)@ + le_bytes(value as nat, 4),
    {
        extend_le(&mut self.buf, value as u64, 4);
    }

    /// Appends `value` as an `int<4>` in two's complement, least significant
    /// byte first.
    pub fn encode_int_i32(&mut self, value: i32)
        requires
            old(self)@.len() + 4 <= isize::MAX,
        ensures
            final(self)@ == old(self)@ + le_bytes(value as u32 as nat, 4),
    {
        extend_le(&mut self.buf, (value as u32) as u64, 4);
    }

    /// Appends the bytes of an `int<4>` that is already encoded.
    pub fn encode_int_4(&mut self, bytes: &Bytes)
        requires
            old(self)@.len() + bytes_view(*bytes).len() <= isize::MAX,
        ensures
            final(self)@ == old(self)@ + bytes_view(*bytes),
    {
        bytes_mut_extend(&mut self.buf, bytes_as_slice(bytes));
    }

    /// Appends the low three bytes of `value` as an `int<3>`, least
    /// significant byte first.
    pub fn encode_int_u24(&mut self, value: u32)
        requires
            old(self)@.len() + 3 <= isize::MAX,
        ensures
            final(self)@ == old(self)@ + le_bytes(value as nat, 3),
    {
        extend_le(&mut self.buf, value as u64, 3);
    }

    /// Appends the low three bytes of `value` in two's complement as an
    /// `int<3>`, least significant byte first.
    pub fn encode_int_i24(&mut self, value: i32)
        requires
            old(self)@.len() + 3 <= isize::MAX,
        ensures
            final(self)@ == old(self)@ + le_bytes(value as u32 as nat, 3),
    {
        extend_le(&mut self.buf, (value as u32) as u64, 3);
    }

    /// Appends `value` as an `int<2>`, least significant byte first.
    pub fn encode_int_u16(&mut self, value: u16)
        requires
            old(self)@.len() + 2 <= isize::MAX,
        ensures
            final(self)@ == old(self)@ + le_bytes(value as nat, 2),
    {
        extend_le(&mut self.buf, value as u64, 2);
    }

    /// Appends `value` as an `int<2>` in two's complement, least significant
    /// byte first.
    pub fn encode_int_i16(&mut self, value: i16)
        requires
            old(self)@.len() + 2 <= isize::MAX,
        ensures
            final(self)@ == old(self)@ + le_bytes(value as u16 as nat, 2),
    {
        extend_le(&mut self.buf, (value as u16) as u64, 2);
    }

    /// Appends the bytes of an `int<2>` that is already encoded.
    pub fn encode_int_2(&mut self, bytes: &Bytes)
        requires
            old(self)@.len() + bytes_view(*bytes).len() <= isize::MAX,
        ensures
            final(self)@ == old(self)@ + bytes_view(*bytes),
    {
        bytes_mut_extend(&mut self.buf, bytes_as_slice(bytes));
    }

    /// Appends `value` as an `int<1>`.
    pub fn encode_int_u8(&mut self, value: u8)
        requires
            old(self)@.len() + 1 <= isize::MAX,
        ensures
            final(self)@ == old(self)@ + seq![value],
    {
        bytes_mut_extend(&mut self.buf, &[value]);
    }

    /// Appends the bytes of an `int<1>` that is already encoded.
    pub fn encode_int_1(&mut self, bytes: &Bytes)
        requires
            old(self)@.len() + bytes_view(*bytes).len() <= isize::MAX,
        ensures
            final(self)@ == old(self)@ + bytes_view(*bytes),
    {
        bytes_mut_extend(&mut self.buf, bytes_as_slice(bytes));
    }

    /// Appends `value` as an `int<1>` in two's complement.
    pub fn encode_int_i8(&mut self, value: i8)
        requires
            old(self)@.len() + 1 <= isize::MAX,
        ensures
            final(self)@ == old(self)@ + seq![value as u8],
    {
        bytes_mut_extend(&mut self.buf, &[value as u8]);
    }

    /// Appends `value` as an `int<lenenc>` (see `lenenc_int`).
    pub fn encode_int_lenenc(&mut self, value: Option<&usize>)
        requires
            old(self)@.len() + lenenc_int(
                match value {
                    Some(v) => Some(*v),
                    None => None,
                },
            ).len() <= isize::MAX,
        ensures
            final(self)@ == old(self)@ + lenenc_int(
                match value {
                    Some(v) => Some(*v),
                    None => None,
                },
            ),
    {
        match value {
            Some(value) => {
                let v: usize = *value;
                proof {
                    lemma_le_bytes_len(v as nat, 8);
                    lemma_le_bytes_len(v as nat, 3);
                    lemma_le_bytes_len(v as nat, 2);
                }
                if v > U24_MAX {
                    bytes_mut_extend(&mut self.buf, &[0xFEu8]);
                    extend_le(&mut self.buf, v as u64, 8);
                } else if v > 0xFFFF {
                    bytes_mut_extend(&mut self.buf, &[0xFDu8]);
                    extend_le(&mut self.buf, v as u64, 3);
                } else if v > 0xFF {
                    bytes_mut_extend(&mut self.buf, &[0xFCu8]);
                    extend_le(&mut self.buf, v as u64, 2);
                } else if v >= 0xFB {
                    // A one-byte value that reads as a marker is written as
                    // a two-byte integer.
                    bytes_mut_extend(&mut self.buf, &[0xFCu8]);
                    bytes_mut_extend(&mut self.buf, &[v as u8]);
                    bytes_mut_extend(&mut self.buf, &[0u8]);
                } else {
                    bytes_mut_extend(&mut self.buf, &[v as u8]);
                }
            },
            None => {
                bytes_mut_extend(&mut self.buf, &[0xFBu8]);
            },
        }
        proof {
            assert(self@ =~= old(self)@ + lenenc_int(
                match value {
                    Some(v) => Some(*v),
                    None => None,
                },
            ));
        }
    }

    /// Appends `string` as a `string<lenenc>`. Strings longer than `0xFFF`
    /// bytes are not accepted.
    pub fn encode_string_lenenc(&mut self, string: &Bytes)
        requires
            bytes_view(*string).len() <= lenenc_string_max(),
            old(self)@.len() + lenenc_string(bytes_view(*string)).len() <= isize::MAX,
        ensures
            final(self)@ == old(self)@ + lenenc_string(bytes_view(*string)),
    {
        let s = bytes_as_slice(string);
        let len: usize = s.len();
        proof {
            lemma_lenenc_int_len(Some(len));
        }
        self.encode_int_lenenc(Some(&len));
        if len > 0 {
            bytes_mut_extend(&mut self.buf, s);
        }
        proof {
            assert(self@ =~= old(self)@ + lenenc_string(bytes_view(*string)));
        }
    }

    /// Appends `string` and a terminating zero byte, a `string<NUL>`.
    pub fn encode_string_null(&mut self, string: &Bytes)
        requires
            old(self)@.len() + bytes_view(*string).len() + 1 <= isize::MAX,
        ensures
            final(self)@ == old(self)@ + bytes_view(*string) + seq![0u8],
    {
        bytes_mut_extend(&mut self.buf, bytes_as_slice(string));
        bytes_mut_extend(&mut self.buf, &[0u8]);
    }

    /// Appends `bytes`, a `string<fix>` of `size` bytes; `size` must be the
    /// length of `bytes`.
    pub fn encode_string_fix(&mut self, bytes: &Bytes, size: usize)
        requires
            size == bytes_view(*bytes).len(),
            old(self)@.len() + bytes_view(*bytes).len() <= isize::MAX,
        ensures
            final(self)@ == old(self)@ + bytes_view(*bytes),
    {
        bytes_mut_extend(&mut self.buf, bytes_as_slice(bytes));
    }

    /// Appends `bytes`, a `string<EOF>` that the packet length ends.
    pub fn encode_string_eof(&mut self, bytes: &Bytes)
        requires
            old(self)@.len() + bytes_view(*bytes).len() <= isize::MAX,
        ensures
            final(self)@ == old(self)@ + bytes_view(*bytes),
    {
        bytes_mut_extend(&mut self.buf, bytes_as_slice(bytes));
    }

    /// Appends `bytes` as a `byte<lenenc>` (see `lenenc_bytes`). Values
    /// longer than `0xFFF` bytes are not accepted.
    pub fn encode_byte_lenenc(&mut self, bytes: &Bytes)
        requires
            bytes_view(*bytes).len() <= lenenc_string_max(),
            old(self)@.len() + lenenc_bytes(bytes_view(*bytes)).len() <= isize::MAX,
        ensures
            final(self)@ == old(self)@ + lenenc_bytes(bytes_view(*bytes)),
    {
        let s = bytes_as_slice(bytes);
        let len: usize = s.len();
        proof {
            lemma_le_bytes_len(len as nat, 3);
        }
        self.encode_int_u24(len as u32);
        if len > 0 {
            bytes_mut_extend(&mut self.buf, s);
        }
        proof {
            assert(self@ =~= old(self)@ + lenenc_bytes(bytes_view(*bytes)));
        }
    }

    /// Appends `bytes`, a `byte<fix>` of `size` bytes; `size` must be the
    /// length of `bytes`.
    pub fn encode_byte_fix(&mut self, bytes: &Bytes, size: usize)
        requires
            size == bytes_view(*bytes).len(),
            old(self)@.len() + bytes_view(*bytes).len() <= isize::MAX,
        ensures
            final(self)@ == old(self)@ + bytes_view(*bytes),
    {
        bytes_mut_extend(&mut self.buf, bytes_as_slice(bytes));
    }

    /// Appends `bytes`, a `byte<EOF>` that the packet length ends.
    pub fn encode_byte_eof(&mut self, bytes: &Bytes)
        requires
            old(self)@.len() + bytes_view(*bytes).len() <= isize::MAX,
        ensures
            final(self)@ == old(self)@ + bytes_view(*bytes),
    {
        bytes_mut_extend(&mut self.buf, bytes_as_slice(bytes));
    }

    /// Appends the parameter value `bytes` in the encoding of its type `ty`
    /// (see `param_bytes`). `NULL` and the temporal types are not accepted,
    /// nor length-prefixed values longer than `0xFFF` bytes.
    pub fn encode_param(&mut self, bytes: &Bytes, ty: &FieldType)
        requires
            param_supported(*ty),
            param_length_prefixed(*ty) ==> bytes_view(*bytes).len() <= lenenc_string_max(),
            old(self)@.len() + param_bytes(bytes_view(*bytes), *ty).len() <= isize::MAX,
        ensures
            final(self)@ == old(self)@ + param_bytes(bytes_view(*bytes), *ty),
    {
        match ty {
            FieldType::MysqlTypeDecimal => self.encode_string_lenenc(bytes),
            FieldType::MysqlTypeTiny => self.encode_int_1(bytes),
            FieldType::MysqlTypeShort => self.encode_int_2(bytes),
            FieldType::MysqlTypeLong => self.encode_int_4(bytes),
            FieldType::MysqlTypeFloat => self.encode_int_4(bytes),
            FieldType::MysqlTypeDouble => self.encode_int_8(bytes),
            FieldType::MysqlTypeLonglong => self.encode_int_8(bytes),
            FieldType::MysqlTypeInt24 => self.encode_int_4(bytes),
            FieldType::MysqlTypeYear => self.encode_int_4(bytes),
            FieldType::MysqlTypeVarchar => self.encode_string_lenenc(bytes),
            FieldType::MysqlTypeBit => self.encode_string_lenenc(bytes),
            FieldType::MysqlTypeJson => self.encode_byte_lenenc(bytes),
            FieldType::MysqlTypeNewdecimal => self.encode_byte_lenenc(bytes),
            FieldType::MysqlTypeEnum => self.encode_byte_lenenc(bytes),
            FieldType::MysqlTypeSet => self.encode_byte_lenenc(bytes),
            FieldType::MysqlTypeTinyBlob => self.encode_byte_lenenc(bytes),
            FieldType::MysqlTypeMediumBlob => self.encode_byte_lenenc(bytes),
            FieldType::MysqlTypeLongBlob => self.encode_byte_lenenc(bytes),
            FieldType::MysqlTypeBlob => self.encode_byte_lenenc(bytes),
            FieldType::MysqlTypeVarString => self.encode_byte_lenenc(bytes),
            FieldType::MysqlTypeString => self.encode_byte_lenenc(bytes),
            FieldType::MysqlTypeGeometry => self.encode_byte_lenenc(bytes),
            _ => {
                // `param_supported` rules out the remaining types.
                assert(false);
            },
        }
    }
}

impl From<BytesMut> for Encoder {
    /// An encoder over an existing buffer, keeping its bytes.
    fn from(buf: BytesMut) -> (res: Encoder) {
        Encoder { buf }
    }
}

impl vstd::std_specs::convert::FromSpecImpl<BytesMut> for Encoder {
    open spec fn obeys_from_spec() -> bool {
        true
    }

    open spec fn from_spec(buf: BytesMut) -> Encoder {
        Encoder { buf }
    }
}

} // verus!
