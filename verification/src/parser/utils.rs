//! Reading the primitive encodings of the format from a byte slice at a position.
use byteorder::ByteOrder;
use byteorder::LittleEndian;
use crate::leb::lemma_varuint_facts;
use crate::leb::read_varint_at;
use crate::leb::read_varuint_at;
use crate::leb::varint_spec;
use crate::leb::varuint_spec;
use crate::leb::varint_overflows;
use crate::leb::varuint_overflows;
use crate::leb::ReadError;
use crate::parser::errors::advances;
use crate::parser::errors::lift_io;
use crate::parser::errors::outcome;
use crate::parser::errors::ParseError;
use vstd::arithmetic::power2::*;
use vstd::prelude::*;
use vstd::utf8::decode_utf8;
use vstd::utf8::valid_utf8;

verus! {

/// The value of bytes read as a little-endian unsigned integer.
pub open spec fn le_value(s: Seq<u8>) -> nat
    decreases s.len(),
{
    if s.len() == 0 {
        0
    } else {
        s[0] as nat + 256 * le_value(s.drop_first())
    }
}

/// One byte.
pub open spec fn spec_byte(s: Seq<u8>, pos: int) -> Result<(u8, int), ParseError> {
    if 0 <= pos < s.len() {
        Ok((s[pos], pos + 1))
    } else {
        Err(ParseError::Io(ReadError::UnexpectedEof))
    }
}

/// An unsigned LEB128 integer of at most `bits` bits.
pub open spec fn spec_varuint(s: Seq<u8>, pos: int, bits: int) -> Result<(u64, int), ParseError> {
    match lift_io(varuint_spec(s, pos, bits)) {
        Ok((v, p)) => Ok(((v % pow2(64)) as u64, p)),
        Err(e) => Err(e),
    }
}

/// A signed LEB128 integer of at most `bits` bits.
pub open spec fn spec_varint(s: Seq<u8>, pos: int, bits: int) -> Result<(i64, int), ParseError> {
    match lift_io(varint_spec(s, pos, bits)) {
        Ok((v, p)) => Ok((v as i64, p)),
        Err(e) => Err(e),
    }
}

/// Four bytes as a little-endian integer.
pub open spec fn spec_u32_le(s: Seq<u8>, pos: int) -> Result<(u32, int), ParseError> {
    if 0 <= pos && pos + 4 <= s.len() {
        Ok((le_value(s.subrange(pos, pos + 4)) as u32, pos + 4))
    } else {
        Err(ParseError::Io(ReadError::UnexpectedEof))
    }
}

/// Eight bytes as a little-endian integer.
pub open spec fn spec_u64_le(s: Seq<u8>, pos: int) -> Result<(u64, int), ParseError> {
    if 0 <= pos && pos + 8 <= s.len() {
        Ok((le_value(s.subrange(pos, pos + 8)) as u64, pos + 8))
    } else {
        Err(ParseError::Io(ReadError::UnexpectedEof))
    }
}

/// A string: its length in bytes as a `varuint32`, then that many bytes of UTF-8
/// text, or as many as the input still holds.
pub open spec fn spec_read_string(s: Seq<u8>, pos: int) -> Result<(Seq<char>, int), ParseError> {
    match spec_varuint(s, pos, 32) {
        Err(e) => Err(e),
        Ok((len, p)) => {
            let end = if p + len <= s.len() {
                p + len
            } else {
                s.len() as int
            };
            let bytes = s.subrange(p, end);
            if valid_utf8(bytes) {
                Ok((decode_utf8(bytes), end))
            } else {
                Err(ParseError::Io(ReadError::InvalidData))
            }
        },
    }
}

/// Skipping an expression: every byte up to and including the first `end` (0x0b).
pub open spec fn spec_swallow_expr(s: Seq<u8>, pos: int) -> Result<(i64, int), ParseError>
    decreases s.len() - pos,
{
    if pos < 0 || pos >= s.len() {
        Err(ParseError::Io(ReadError::UnexpectedEof))
    } else if s[pos] == 0x0b {
        Ok((0, pos + 1))
    } else {
        spec_swallow_expr(s, pos + 1)
    }
}

/// Calls `byteorder`'s `LittleEndian::read_u32`, which reads the first four bytes
/// of `buf` as a little-endian integer and panics on fewer than four bytes.
#[verifier::external_body]
pub(crate) fn le_read_u32(buf: &[u8]) -> (r: u32)
    requires
        buf@.len() == 4,
    ensures
        r as nat == le_value(buf@),
{
    LittleEndian::read_u32(buf)
}

/// Calls `byteorder`'s `LittleEndian::read_u64`, which reads the first eight bytes
/// of `buf` as a little-endian integer and panics on fewer than eight bytes.
#[verifier::external_body]
pub(crate) fn le_read_u64(buf: &[u8]) -> (r: u64)
    requires
        buf@.len() == 8,
    ensures
        r as nat == le_value(buf@),
{
    LittleEndian::read_u64(buf)
}

/// Calls std's `String::from_utf8`, which accepts exactly the bytes that are valid
/// UTF-8 and then holds the text they encode.
#[verifier::external_body]
pub(crate) fn utf8_string(bytes: &[u8]) -> (r: Option<String>)
    ensures
        r is Some <==> valid_utf8(bytes@),
        r matches Some(t) ==> t@ == decode_utf8(bytes@),
{
    String::from_utf8(bytes.to_vec()).ok()
}

/// Reads one byte.
pub fn read_byte(input: &[u8], pos: usize) -> (res: Result<(u8, usize), ParseError>)
    ensures
        outcome(res) == spec_byte(input@, pos as int),
{
    if pos < input.len() {
        Ok((input[pos], pos + 1))
    } else {
        Err(ParseError::Io(ReadError::UnexpectedEof))
    }
}

/// Reads an unsigned LEB128 integer of at most `bits` bits.
pub fn read_varuint(input: &[u8], pos: usize, bits: i8) -> (res: Result<(u64, usize), ParseError>)
    requires
        !varuint_overflows(input@, pos as int, bits as int),
    ensures
        outcome(res) == spec_varuint(input@, pos as int, bits as int),
{
    match read_varuint_at(input, pos, bits) {
        Ok((v, p)) => Ok((v, p)),
        Err((e, _)) => Err(ParseError::Io(e)),
    }
}

/// Reads a signed LEB128 integer of at most `bits` bits.
pub fn read_varint(input: &[u8], pos: usize, bits: i8) -> (res: Result<(i64, usize), ParseError>)
    requires
        !varint_overflows(input@, pos as int, bits as int),
    ensures
        outcome(res) == spec_varint(input@, pos as int, bits as int),
{
    match read_varint_at(input, pos, bits) {
        Ok((v, p)) => Ok((v, p)),
        Err((e, _)) => Err(ParseError::Io(e)),
    }
}

/// Reads four bytes as a little-endian integer.
pub fn read_u32_le(input: &[u8], pos: usize) -> (res: Result<(u32, usize), ParseError>)
    ensures
        outcome(res) == spec_u32_le(input@, pos as int),
{
    if input.len() >= 4 && pos <= input.len() - 4 {
        let v: u32 = le_read_u32(vstd::slice::slice_subrange(input, pos, pos + 4));
        Ok((v, pos + 4))
    } else {
        Err(ParseError::Io(ReadError::UnexpectedEof))
    }
}

/// Reads eight bytes as a little-endian integer.
pub fn read_u64_le(input: &[u8], pos: usize) -> (res: Result<(u64, usize), ParseError>)
    ensures
        outcome(res) == spec_u64_le(input@, pos as int),
{
    if input.len() >= 8 && pos <= input.len() - 8 {
        let v: u64 = le_read_u64(vstd::slice::slice_subrange(input, pos, pos + 8));
        Ok((v, pos + 8))
    } else {
        Err(ParseError::Io(ReadError::UnexpectedEof))
    }
}

/// Reads a string: a `varuint32` length, then that many bytes of UTF-8 text, or
/// as many as the input still holds.
pub fn read_string(input: &[u8], pos: usize) -> (res: Result<(String, usize), ParseError>)
    ensures
        outcome(res) == spec_read_string(input@, pos as int),
{
    let (len, p) = match read_varuint(input, pos, 32) {
        Ok(r) => r,
        Err(e) => return Err(e),
    };
    proof {
        lemma_varuint_facts(input@, pos as int, 32);
        lemma2_to64();
    }
    let end: usize = if (len as usize) <= input.len() - p {
        p + len as usize
    } else {
        input.len()
    };
    let bytes = vstd::slice::slice_subrange(input, p, end);
    match utf8_string(bytes) {
        Some(t) => Ok((t, end)),
        None => Err(ParseError::Io(ReadError::InvalidData)),
    }
}

/// Skips an expression: every byte up to and including the first `end` (0x0b).
/// The value is always 0.
pub fn swallow_expr(input: &[u8], pos: usize) -> (res: Result<(i64, usize), ParseError>)
    ensures
        outcome(res) == spec_swallow_expr(input@, pos as int),
{
    let mut p: usize = pos;
    while p < input.len()
        invariant
            pos <= p,
            spec_swallow_expr(input@, pos as int) == spec_swallow_expr(input@, p as int),
        decreases input.len() - p,
    {
        if input[p] == 0x0b {
            return Ok((0, p + 1));
        }
        p = p + 1;
    }
    Err(ParseError::Io(ReadError::UnexpectedEof))
}

/// Reading a `varuint` moves forward and stays within the input.
pub proof fn lemma_varuint_advances(s: Seq<u8>, pos: int, bits: int)
    ensures
        advances(spec_varuint(s, pos, bits), s, pos),
{
    lemma_varuint_facts(s, pos, bits);
}

/// Reading a `varint` moves forward and stays within the input.
pub proof fn lemma_varint_advances(s: Seq<u8>, pos: int, bits: int)
    ensures
        advances(spec_varint(s, pos, bits), s, pos),
{
    lemma_varuint_facts(s, pos, bits);
}

/// Reading a string moves forward and stays within the input.
pub proof fn lemma_string_advances(s: Seq<u8>, pos: int)
    ensures
        advances(spec_read_string(s, pos), s, pos),
{
    lemma_varuint_facts(s, pos, 32);
}

/// Skipping an expression moves forward and stays within the input.
pub proof fn lemma_swallow_advances(s: Seq<u8>, pos: int)
    ensures
        advances(spec_swallow_expr(s, pos), s, pos),
    decreases s.len() - pos,
{
    if 0 <= pos < s.len() && s[pos] != 0x0b {
        lemma_swallow_advances(s, pos + 1);
    }
}

/// A `varuint` of at most 32 bits is below 2^32.
pub proof fn lemma_varuint32_bound(s: Seq<u8>, pos: int)
    ensures
        spec_varuint(s, pos, 32) matches Ok((v, _)) ==> v < 0x1_0000_0000,
{
    lemma_varuint_facts(s, pos, 32);
    lemma2_to64();
}

} // verus!
