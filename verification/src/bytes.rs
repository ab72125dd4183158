//! Little-endian integers and zero-terminated strings in a byte buffer.

use crate::amxmod::plugin::CELLSIZE;
use crate::error::Error;
use byteorder::{ByteOrder, LittleEndian};
use vstd::prelude::*;
use vstd::slice::slice_subrange;

verus! {

/// The value of the two bytes at the front of `s`, least significant first.
pub open spec fn le_u16(s: Seq<u8>) -> int {
    s[0] + 256 * s[1]
}

/// The value of the four bytes at the front of `s`, least significant first.
pub open spec fn le_u32(s: Seq<u8>) -> int {
    s[0] + 256 * s[1] + 65536 * s[2] + 16777216 * s[3]
}

/// The 16-bit value at `at` in `s`.
pub open spec fn u16_at(s: Seq<u8>, at: int) -> int {
    le_u16(s.subrange(at, at + 2))
}

/// The 32-bit value at `at` in `s`.
pub open spec fn u32_at(s: Seq<u8>, at: int) -> int {
    le_u32(s.subrange(at, at + 4))
}

/// Calls `byteorder::LittleEndian::read_u16`, which panics on fewer than two
/// bytes and otherwise combines the first two, least significant first.
#[verifier::external_body]
fn le_read_u16(buf: &[u8]) -> (v: u16)
    requires
        buf@.len() >= 2,
    ensures
        v == le_u16(buf@),
{
    LittleEndian::read_u16(buf)
}

/// Calls `byteorder::LittleEndian::read_u32`, which panics on fewer than four
/// bytes and otherwise combines the first four, least significant first.
#[verifier::external_body]
fn le_read_u32(buf: &[u8]) -> (v: u32)
    requires
        buf@.len() >= 4,
    ensures
        v == le_u32(buf@),
{
    LittleEndian::read_u32(buf)
}

/// Reads the byte at `at`, if the buffer reaches that far.
pub fn read_u8(bytes: &[u8], at: usize) -> (r: Option<u8>)
    ensures
        r is Some <==> at < bytes@.len(),
        r matches Some(v) ==> v == bytes@[at as int],
{
    if at < bytes.len() {
        Some(bytes[at])
    } else {
        None
    }
}

/// Reads the little-endian 16-bit value at `at`, if the buffer holds both bytes.
pub fn read_u16(bytes: &[u8], at: usize) -> (r: Option<u16>)
    ensures
        r is Some <==> at + 2 <= bytes@.len(),
        r matches Some(v) ==> v == u16_at(bytes@, at as int),
{
    if bytes.len() >= 2 && at <= bytes.len() - 2 {
        Some(le_read_u16(slice_subrange(bytes, at, at + 2)))
    } else {
        None
    }
}

/// Reads the little-endian 32-bit value at `at`, if the buffer holds all four bytes.
pub fn read_u32(bytes: &[u8], at: usize) -> (r: Option<u32>)
    ensures
        r is Some <==> at + 4 <= bytes@.len(),
        r matches Some(v) ==> v == u32_at(bytes@, at as int),
{
    if bytes.len() >= 4 && at <= bytes.len() - 4 {
        Some(le_read_u32(slice_subrange(bytes, at, at + 4)))
    } else {
        None
    }
}

/// Whether `end` is the place of the first zero byte of `s` at or after
/// `start`.
pub open spec fn is_string_end(s: Seq<u8>, start: int, end: int) -> bool {
    &&& 0 <= start <= end < s.len()
    &&& s[end] == 0
    &&& forall|i: int| start <= i < end ==> s[i] != 0
}

/// Whether `s` holds a zero byte at or after `start`.
pub open spec fn is_terminated(s: Seq<u8>, start: int) -> bool {
    exists|end: int| is_string_end(s, start, end)
}

/// The place of the first zero byte of `s` at or after `start`, where there
/// is one.
pub open spec fn string_end(s: Seq<u8>, start: int) -> int {
    choose|end: int| is_string_end(s, start, end)
}

/// The bytes of `s` from `start` up to the first zero byte, without it, or
/// `None` where no zero byte follows.
pub open spec fn string_at(s: Seq<u8>, start: int) -> Option<Seq<u8>> {
    if is_terminated(s, start) {
        Some(s.subrange(start, string_end(s, start)))
    } else {
        None
    }
}

/// A string has one end only: the first zero byte.
pub proof fn lemma_string_end_unique(s: Seq<u8>, start: int, end: int)
    requires
        is_string_end(s, start, end),
    ensures
        is_terminated(s, start),
        string_end(s, start) == end,
        string_at(s, start) == Some(s.subrange(start, end)),
{
    let chosen = string_end(s, start);
    assert(is_string_end(s, start, chosen));
    if chosen < end {
        assert(s[chosen] != 0);
    }
    if end < chosen {
        assert(s[end] != 0);
    }
}

/// Copies the zero-terminated string that starts at `start`, without its
/// terminator. A `start` at or past the end of the buffer has no terminator
/// after it.
pub fn read_string_zero(bytes: &[u8], start: usize) -> (r: Result<Vec<u8>, Error>)
    ensures
        r matches Ok(v) ==> string_at(bytes@, start as int) == Some(v@),
        r matches Err(e) ==> e == Error::UnterminatedString && string_at(bytes@, start as int)
            is None,
{
    let mut name: Vec<u8> = Vec::new();
    let mut at: usize = start;
    while at < bytes.len()
        invariant
            start <= at,
            at <= bytes@.len() || at == start,
            name@.len() == at - start,
            start < bytes@.len() ==> name@ == bytes@.subrange(start as int, at as int),
            forall|i: int| start <= i < at ==> bytes@[i] != 0,
        decreases bytes@.len() - at,
    {
        let byte = bytes[at];
        if byte == 0 {
            proof {
                lemma_string_end_unique(bytes@, start as int, at as int);
            }
            return Ok(name);
        }
        name.push(byte);
        at = at + 1;
        assert(name@ == bytes@.subrange(start as int, at as int));
    }
    assert forall|end: int| !is_string_end(bytes@, start as int, end) by {
        if is_string_end(bytes@, start as int, end) {
            assert(bytes@[end] != 0);
        }
    }
    Err(Error::UnterminatedString)
}

/// The first byte of cell `index`, counted from the cell at `addr`, where a
/// cell is four bytes wide.
pub open spec fn cell_byte(s: Seq<u8>, addr: int, index: int) -> u8 {
    s[addr + 4 * index]
}

/// Whether `text` is the string stored one character to a cell from `addr`
/// on: the first bytes of the cells up to the first cell that starts with a
/// zero byte, which lies inside `s`.
pub open spec fn is_cell_string(s: Seq<u8>, addr: int, text: Seq<u8>) -> bool {
    &&& 0 <= addr
    &&& addr + 4 * text.len() < s.len()
    &&& cell_byte(s, addr, text.len() as int) == 0
    &&& forall|i: int|
        0 <= i < text.len() ==> #[trigger] cell_byte(s, addr, i) == text[i] && text[i] != 0
}

/// Whether no cell from `addr` on starts with a zero byte.
pub open spec fn is_cell_string_open(s: Seq<u8>, addr: int) -> bool {
    forall|i: int| 0 <= i && addr + 4 * i < s.len() ==> #[trigger] cell_byte(s, addr, i) != 0
}

/// Copies the string stored one character to a cell from `addr` on, without
/// its terminator.
pub fn read_cell_string(bytes: &[u8], addr: usize) -> (r: Result<Vec<u8>, Error>)
    ensures
        r matches Ok(v) ==> is_cell_string(bytes@, addr as int, v@),
        r matches Err(e) ==> e == Error::UnterminatedString && is_cell_string_open(
            bytes@,
            addr as int,
        ),
{
    let mut text: Vec<u8> = Vec::new();
    let mut at: usize = addr;
    while at < bytes.len()
        invariant
            at == addr + 4 * text@.len(),
            forall|i: int|
                0 <= i < text@.len() ==> #[trigger] cell_byte(bytes@, addr as int, i) == text@[i]
                    && text@[i] != 0,
        decreases bytes@.len() - at,
    {
        let byte = bytes[at];
        if byte == 0 {
            return Ok(text);
        }
        text.push(byte);
        if bytes.len() - at < CELLSIZE {
            assert forall|i: int| 0 <= i && addr + 4 * i < bytes@.len() implies #[trigger] cell_byte(
                bytes@,
                addr as int,
                i,
            ) != 0 by {
                assert(i < text@.len());
            }
            return Err(Error::UnterminatedString);
        }
        at = at + CELLSIZE;
    }
    assert forall|i: int| 0 <= i && addr + 4 * i < bytes@.len() implies #[trigger] cell_byte(
        bytes@,
        addr as int,
        i,
    ) != 0 by {
        assert(i < text@.len());
    }
    Err(Error::UnterminatedString)
}

} // verus!
