//! Fixed-width big-endian field readers.
//!
//! Every multi-byte quantity in the meter's files is a big-endian unsigned
//! integer at a fixed offset. Tariff rates use a different convention:
//! each of four bytes is one decimal digit place (ones, tenths, hundredths,
//! thousandths), so the decoded rate in thousandths is a positional sum.

use vstd::prelude::*;

verus! {

/// The big-endian 16-bit unsigned integer at offset `i` of `s`.
pub open spec fn be16(s: Seq<u8>, i: int) -> int {
    s[i] * 256 + s[i + 1]
}

/// The big-endian 24-bit unsigned integer at offset `i` of `s`.
pub open spec fn be24(s: Seq<u8>, i: int) -> int {
    s[i] * 65536 + s[i + 1] * 256 + s[i + 2]
}

/// The positional-digit value of the four bytes at offset `i` of `s`, in
/// thousandths: byte 0 counts ones, byte 1 tenths, byte 2 hundredths,
/// byte 3 thousandths.
pub open spec fn positional4(s: Seq<u8>, i: int) -> int {
    s[i] * 1000 + s[i + 1] * 100 + s[i + 2] * 10 + s[i + 3]
}

/// Reads the big-endian 16-bit unsigned integer at offset `i`.
pub fn read_be16(buffer: &[u8], i: usize) -> (r: u16)
    requires
        i + 2 <= buffer@.len(),
    ensures
        r == be16(buffer@, i as int),
{
    (buffer[i] as u16) * 256 + (buffer[i + 1] as u16)
}

/// Reads the big-endian 24-bit unsigned integer at offset `i`.
pub fn read_be24(buffer: &[u8], i: usize) -> (r: u32)
    requires
        i + 3 <= buffer@.len(),
    ensures
        r == be24(buffer@, i as int),
{
    (buffer[i] as u32) * 65536 + (buffer[i + 1] as u32) * 256 + (buffer[i + 2] as u32)
}

/// Reads the four bytes at offset `i` as positional decimal digit places,
/// returning the value in thousandths.
pub fn read_positional4(buffer: &[u8], i: usize) -> (r: u32)
    requires
        i + 4 <= buffer@.len(),
    ensures
        r == positional4(buffer@, i as int),
{
    (buffer[i] as u32) * 1000 + (buffer[i + 1] as u32) * 100 + (buffer[i + 2] as u32) * 10 + (
    buffer[i + 3] as u32)
}

} // verus!
