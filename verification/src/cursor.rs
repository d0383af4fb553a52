//! Reading big-endian fields off the front of a byte buffer.
//!
//! Each reader takes the buffer, and gives the field it read together with the
//! bytes that follow it, or `UnexpectedEndOfData` if the buffer is too short
//! for the field.

use vstd::prelude::*;
use vstd::slice::slice_subrange;
use vstd::utf8::decode_utf8;
use vstd::utf8::valid_utf8;
use crate::binary32::Binary32;
use crate::error::ParseError;

verus! {

/// What a reader gives: the field, then the rest of the buffer.
pub type ParseResult<'a, T> = Result<(T, &'a [u8]), ParseError>;

/// The unsigned number that the first two bytes of `s` spell, high byte first.
pub open spec fn be_u16(s: Seq<u8>) -> int
    recommends
        s.len() >= 2,
{
    s[0] * 0x100 + s[1]
}

/// The unsigned number that the first four bytes of `s` spell, high byte first.
pub open spec fn be_u32(s: Seq<u8>) -> int
    recommends
        s.len() >= 4,
{
    s[0] * 0x100_0000 + s[1] * 0x1_0000 + s[2] * 0x100 + s[3]
}

/// The first four bytes of `s` as a two's complement number, high byte first.
pub open spec fn be_i32(s: Seq<u8>) -> int
    recommends
        s.len() >= 4,
{
    if be_u32(s) < 0x8000_0000 {
        be_u32(s)
    } else {
        be_u32(s) - 0x1_0000_0000
    }
}

/// Where a length-prefixed string at the front of `s` ends: behind its
/// four-byte unsigned length and as many bytes as that length says.
pub open spec fn string_end(s: Seq<u8>) -> int
    recommends
        s.len() >= 4,
{
    4 + be_u32(s)
}

/// The text that `String::from_utf8_lossy` makes of `bytes`: their decoding
/// where they are well-formed UTF-8, and otherwise a text in which U+FFFD
/// stands for each ill-formed part.
pub uninterp spec fn utf8_lossy(bytes: Seq<u8>) -> Seq<char>;

/// Calls `String::from_utf8_lossy` and takes ownership of what it gives.
/// Believed, not proved: the text is `utf8_lossy` of the bytes, so it depends
/// on nothing else, and bytes that are well-formed UTF-8 are decoded as they
/// stand.
#[verifier::external_body]
fn lossy_text(bytes: &[u8]) -> (text: String)
    ensures
        text@ == utf8_lossy(bytes@),
        valid_utf8(bytes@) ==> text@ == decode_utf8(bytes@),
{
    String::from_utf8_lossy(bytes).into_owned()
}

/// Splits off the first `n` bytes.
pub fn take_bytes<'a>(input: &'a [u8], n: usize) -> (res: ParseResult<'a, &'a [u8]>)
    ensures
        match res {
            Ok((head, tail)) => {
                &&& n <= input@.len()
                &&& head@ == input@.take(n as int)
                &&& tail@ == input@.skip(n as int)
            },
            Err(e) => n > input@.len() && e is UnexpectedEndOfData,
        },
{
    if input.len() < n {
        return Err(ParseError::UnexpectedEndOfData);
    }
    let head = slice_subrange(input, 0, n);
    let tail = slice_subrange(input, n, input.len());
    Ok((head, tail))
}

/// The 16-bit unsigned integer that stands `at` bytes into `bytes`.
pub fn u16_at(bytes: &[u8], at: usize) -> (value: u16)
    requires
        at + 2 <= bytes@.len(),
    ensures
        value == be_u16(bytes@.skip(at as int)),
{
    (bytes[at] as u16) * 0x100 + (bytes[at + 1] as u16)
}

/// Reads a 32-bit unsigned integer.
pub fn take_u32<'a>(input: &'a [u8]) -> (res: ParseResult<'a, u32>)
    ensures
        match res {
            Ok((value, tail)) => {
                &&& input@.len() >= 4
                &&& value == be_u32(input@)
                &&& tail@ == input@.skip(4)
            },
            Err(e) => input@.len() < 4 && e is UnexpectedEndOfData,
        },
{
    let (head, tail) = take_bytes(input, 4)?;
    let value: u32 = (head[0] as u32) * 0x100_0000 + (head[1] as u32) * 0x1_0000 + (head[2] as u32)
        * 0x100 + (head[3] as u32);
    Ok((value, tail))
}

/// Reads a 32-bit signed integer.
pub fn take_i32<'a>(input: &'a [u8]) -> (res: ParseResult<'a, i32>)
    ensures
        match res {
            Ok((value, tail)) => {
                &&& input@.len() >= 4
                &&& value == be_i32(input@)
                &&& tail@ == input@.skip(4)
            },
            Err(e) => input@.len() < 4 && e is UnexpectedEndOfData,
        },
{
    let (raw, tail) = take_u32(input)?;
    let value: i32 = if raw < 0x8000_0000 {
        raw as i32
    } else {
        ((raw - 0x8000_0000) as i32) + i32::MIN
    };
    Ok((value, tail))
}

/// Reads a 32-bit IEEE 754 number.
pub fn take_float<'a>(input: &'a [u8]) -> (res: ParseResult<'a, Binary32>)
    ensures
        match res {
            Ok((value, tail)) => {
                &&& input@.len() >= 4
                &&& value.bits == be_u32(input@)
                &&& tail@ == input@.skip(4)
            },
            Err(e) => input@.len() < 4 && e is UnexpectedEndOfData,
        },
{
    let (raw, tail) = take_u32(input)?;
    Ok((Binary32::from_bits(raw), tail))
}

/// Reads a string: a 32-bit unsigned length, then that many bytes of text.
/// Bytes that are not UTF-8 do not fail the read; U+FFFD stands for them in
/// the text.
pub fn take_string<'a>(input: &'a [u8]) -> (res: ParseResult<'a, String>)
    ensures
        match res {
            Ok((text, tail)) => {
                let bytes = input@.subrange(4, string_end(input@));
                &&& 4 <= string_end(input@) <= input@.len()
                &&& text@ == utf8_lossy(bytes)
                &&& valid_utf8(bytes) ==> text@ == decode_utf8(bytes)
                &&& tail@ == input@.skip(string_end(input@))
            },
            Err(e) => {
                &&& input@.len() < 4 || input@.len() < string_end(input@)
                &&& e is UnexpectedEndOfData
            },
        },
{
    let (length, tail) = take_u32(input)?;
    let (bytes, tail) = take_bytes(tail, length as usize)?;
    let text = lossy_text(bytes);
    assert(bytes@ =~= input@.subrange(4, string_end(input@)));
    assert(tail@ =~= input@.skip(string_end(input@)));
    Ok((text, tail))
}

} // verus!
