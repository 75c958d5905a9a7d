//! Reading the data types of the MariaDB wire protocol back from bytes.
use vstd::prelude::*;
use crate::buffers::{read_u16_le, read_u24_le, read_u64_le};
use crate::error::ProtocolError;
use crate::le::{
    le_bytes, le_value, lemma_le_bytes_len, lemma_le_roundtrip_small, lemma_le_value_2, pow256,
};
use crate::mariadb::encode::{lemma_lenenc_int_len, lenenc_bytes, lenenc_string};
use crate::mariadb::encode::{lenenc_int, U24_MAX};

verus! {

/// What reading an `int<lenenc>` at the start of `s` gives: the value and
/// the number of bytes it took. `0xFB` is NULL, `0xFC`, `0xFD` and `0xFE`
/// announce a two-, three- and eight-byte integer, `0xFF` starts no integer,
/// and any other byte is its own value.
pub open spec fn parse_lenenc_int(s: Seq<u8>) -> Result<(Option<usize>, usize), ProtocolError> {
    if s.len() == 0 {
        Err(ProtocolError::UnexpectedEof)
    } else if s[0] == 0xFB {
        Ok((None, 1))
    } else if s[0] == 0xFC {
        if s.len() < 3 {
            Err(ProtocolError::UnexpectedEof)
        } else {
            Ok((Some(le_value(s.subrange(1, 3)) as usize), 3))
        }
    } else if s[0] == 0xFD {
        if s.len() < 4 {
            Err(ProtocolError::UnexpectedEof)
        } else {
            Ok((Some(le_value(s.subrange(1, 4)) as usize), 4))
        }
    } else if s[0] == 0xFE {
        if s.len() < 9 {
            Err(ProtocolError::UnexpectedEof)
        } else {
            Ok((Some(le_value(s.subrange(1, 9)) as usize), 9))
        }
    } else if s[0] == 0xFF {
        Err(ProtocolError::InvalidLenenc)
    } else {
        Ok((Some(s[0] as usize), 1))
    }
}

/// Reads the `int<lenenc>` at the start of `buf` (see `parse_lenenc_int`).
pub fn decode_int_lenenc(buf: &[u8]) -> (res: Result<(Option<usize>, usize), ProtocolError>)
    ensures
        res == parse_lenenc_int(buf@),
{
    if buf.len() == 0 {
        return Err(ProtocolError::UnexpectedEof);
    }
    let tag = buf[0];
    if tag == 0xFB {
        Ok((None, 1))
    } else if tag == 0xFC {
        if buf.len() < 3 {
            Err(ProtocolError::UnexpectedEof)
        } else {
            let v = read_u16_le(&buf[1..3]);
            proof {
                assert(buf@.subrange(1, 3).take(2) =~= buf@.subrange(1, 3));
            }
            Ok((Some(v as usize), 3))
        }
    } else if tag == 0xFD {
        if buf.len() < 4 {
            Err(ProtocolError::UnexpectedEof)
        } else {
            let v = read_u24_le(&buf[1..4]);
            proof {
                assert(buf@.subrange(1, 4).take(3) =~= buf@.subrange(1, 4));
            }
            Ok((Some(v as usize), 4))
        }
    } else if tag == 0xFE {
        if buf.len() < 9 {
            Err(ProtocolError::UnexpectedEof)
        } else {
            let v = read_u64_le(&buf[1..9]);
            proof {
                assert(buf@.subrange(1, 9).take(8) =~= buf@.subrange(1, 9));
            }
            Ok((Some(v as usize), 9))
        }
    } else if tag == 0xFF {
        Err(ProtocolError::InvalidLenenc)
    } else {
        Ok((Some(tag as usize), 1))
    }
}

proof fn lemma_pow256_values()
    ensures
        pow256(2) == 0x1_0000,
        pow256(3) == 0x100_0000,
        pow256(8) == 0x1_0000_0000_0000_0000,
{
    reveal_with_fuel(pow256, 9);
}

/// Reading an `int<lenenc>` back from what `encode_int_lenenc` wrote gives
/// the value that was written and consumes exactly the bytes written,
/// whatever follows them.
pub proof fn lemma_lenenc_roundtrip(value: Option<usize>, rest: Seq<u8>)
    ensures
        parse_lenenc_int(lenenc_int(value) + rest) == Ok::<(Option<usize>, usize), ProtocolError>(
            (value, lenenc_int(value).len() as usize),
        ),
{
    lemma_pow256_values();
    let s = lenenc_int(value) + rest;
    match value {
        None => {
            assert(s[0] == 0xFBu8);
            assert(lenenc_int(value).len() == 1);
            assert(parse_lenenc_int(s) == Ok::<(Option<usize>, usize), ProtocolError>((None, 1)));
            assert(parse_lenenc_int(s) == Ok::<(Option<usize>, usize), ProtocolError>(
                (value, lenenc_int(value).len() as usize),
            ));
        },
        Some(v) => {
            if v > U24_MAX {
                lemma_le_bytes_len(v as nat, 8);
                assert(s.subrange(1, 9) =~= le_bytes(v as nat, 8));
                lemma_le_roundtrip_small(v as nat, 8);
            } else if v > 0xFFFF {
                lemma_le_bytes_len(v as nat, 3);
                assert(s.subrange(1, 4) =~= le_bytes(v as nat, 3));
                lemma_le_roundtrip_small(v as nat, 3);
            } else if v > 0xFF {
                lemma_le_bytes_len(v as nat, 2);
                assert(s.subrange(1, 3) =~= le_bytes(v as nat, 2));
                lemma_le_roundtrip_small(v as nat, 2);
            } else if v >= 0xFB {
                let t = s.subrange(1, 3);
                assert(t =~= seq![v as u8, 0u8]);
                lemma_le_value_2(t);
                assert(le_value(t) == v);
            } else {
                assert(s[0] == v as u8);
            }
        },
    }
}

/// A `string<lenenc>` reads back: the `int<lenenc>` at its start is the
/// length of the string, and the string itself follows it.
pub proof fn lemma_lenenc_string_reads_back(s: Seq<u8>)
    requires
        s.len() <= usize::MAX,
    ensures
        parse_lenenc_int(lenenc_string(s)) matches Ok((Some(n), k)) && n == s.len()
            && lenenc_string(s).skip(k as int) == s,
{
    let v = Some(s.len() as usize);
    lemma_lenenc_roundtrip(v, s);
    assert(lenenc_string(s) == lenenc_int(v) + s);
    lemma_lenenc_int_len(v);
    let k = lenenc_int(v).len() as usize;
    assert(parse_lenenc_int(lenenc_string(s)) == Ok::<(Option<usize>, usize), ProtocolError>(
        (v, k),
    ));
    assert(lenenc_string(s).skip(k as int) =~= s);
}

/// A `byte<lenenc>` reads back: its first three bytes, least significant
/// first, are the length of the string, and the string itself follows them.
pub proof fn lemma_lenenc_bytes_reads_back(s: Seq<u8>)
    requires
        s.len() < 0x100_0000,
    ensures
        le_value(lenenc_bytes(s).take(3)) == s.len(),
        lenenc_bytes(s).skip(3) == s,
{
    lemma_pow256_values();
    lemma_le_bytes_len(s.len(), 3);
    lemma_le_roundtrip_small(s.len(), 3);
    assert(lenenc_bytes(s).take(3) =~= le_bytes(s.len(), 3));
    assert(lenenc_bytes(s).skip(3) =~= s);
}

} // verus!
