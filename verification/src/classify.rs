//! Format classifier.
//!
//! A buffer is routed by its exact length first and its magic prefix
//! second: exactly 102 bytes starting with the ASCII literal `INFO:` go to
//! the info decoder, any other length starting with the three signature
//! bytes `0xE0 0xC5 0xEA` goes to the data decoder, and everything else is
//! left alone. There is no fallback between the branches: a 102-byte buffer
//! without the `INFO:` prefix is unrecognized even if it carries the data
//! signature.

use vstd::prelude::*;

verus! {

/// Which decoder, if any, applies to a buffer.
#[derive(Clone, Copy, Debug, PartialEq, Eq, Structural)]
pub enum FileKind {
    /// The 102-byte `INFO` snapshot format.
    Info,
    /// The variable-length `DATA` time-series format.
    Data,
    /// Neither format; the buffer is ignored, which is not an error.
    Unrecognized,
}

/// The buffer starts with the five ASCII bytes `INFO:`.
pub open spec fn has_info_magic(s: Seq<u8>) -> bool {
    &&& s.len() >= 5
    &&& s[0] == 0x49
    &&& s[1] == 0x4e
    &&& s[2] == 0x46
    &&& s[3] == 0x4f
    &&& s[4] == 0x3a
}

/// The buffer starts with the three `DATA` signature bytes `0xE0 0xC5 0xEA`.
pub open spec fn has_data_magic(s: Seq<u8>) -> bool {
    &&& s.len() >= 3
    &&& s[0] == 0xe0
    &&& s[1] == 0xc5
    &&& s[2] == 0xea
}

/// The routing rule: length first, magic prefix second, no fallback.
pub open spec fn spec_classify(s: Seq<u8>) -> FileKind {
    if s.len() == 102 && has_info_magic(s) {
        FileKind::Info
    } else if s.len() != 102 && has_data_magic(s) {
        FileKind::Data
    } else {
        FileKind::Unrecognized
    }
}

/// Decides which decoder applies to `buffer`.
pub fn classify(buffer: &[u8]) -> (k: FileKind)
    ensures
        k == spec_classify(buffer@),
{
    if buffer.len() == 102 {
        if buffer[0] == 0x49 && buffer[1] == 0x4e && buffer[2] == 0x46 && buffer[3] == 0x4f
            && buffer[4] == 0x3a {
            FileKind::Info
        } else {
            FileKind::Unrecognized
        }
    } else {
        if buffer.len() >= 3 && buffer[0] == 0xe0 && buffer[1] == 0xc5 && buffer[2] == 0xea {
            FileKind::Data
        } else {
            FileKind::Unrecognized
        }
    }
}

/// Routing is guarded: a buffer is sent to the info decoder only if it is
/// exactly 102 bytes long and starts with `INFO:`, and to the data decoder
/// only if its length differs from 102 and it starts with the data
/// signature bytes.
pub proof fn lemma_routing_guarded(s: Seq<u8>)
    ensures
        spec_classify(s) == FileKind::Info ==> s.len() == 102 && has_info_magic(s),
        spec_classify(s) == FileKind::Data ==> s.len() != 102 && has_data_magic(s),
{
}

} // verus!
