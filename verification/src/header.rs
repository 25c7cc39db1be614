//! Fixed-layout binary header of an application image, and its validation.
//!
//! The header is 19 little-endian 32-bit fields (76 bytes). The final field
//! is a checksum that must equal the XOR of all preceding fields, and the
//! format version must be 1. A header failing either check is rejected
//! before any other field is trusted; no bounds or semantic validation of
//! the offset/size fields happens here, callers must bound-check them.

use vstd::prelude::*;

use crate::word::le_word;
use crate::word::read_word;

verus! {

/// Size of the fixed-layout header in bytes: 19 fields of 4 bytes.
pub const HEADER_BYTES: usize = 76;

/// The fixed-layout metadata prefixed to a flash-resident application image.
#[derive(Clone, Copy, PartialEq, Eq, Structural)]
pub struct Header {
    pub version: u32,
    pub total_size: u32,
    pub entry_offset: u32,
    pub rel_data_offset: u32,
    pub rel_data_size: u32,
    pub text_offset: u32,
    pub text_size: u32,
    pub got_offset: u32,
    pub got_size: u32,
    pub data_offset: u32,
    pub data_size: u32,
    pub bss_mem_offset: u32,
    pub bss_size: u32,
    pub min_stack_len: u32,
    pub min_app_heap_len: u32,
    pub min_kernel_heap_len: u32,
    pub pkg_name_offset: u32,
    pub pkg_name_size: u32,
    pub checksum: u32,
}

/// The header described by the first `HEADER_BYTES` bytes of `s`.
pub open spec fn header_of(s: Seq<u8>) -> Header {
    Header {
        version: le_word(s, 0),
        total_size: le_word(s, 4),
        entry_offset: le_word(s, 8),
        rel_data_offset: le_word(s, 12),
        rel_data_size: le_word(s, 16),
        text_offset: le_word(s, 20),
        text_size: le_word(s, 24),
        got_offset: le_word(s, 28),
        got_size: le_word(s, 32),
        data_offset: le_word(s, 36),
        data_size: le_word(s, 40),
        bss_mem_offset: le_word(s, 44),
        bss_size: le_word(s, 48),
        min_stack_len: le_word(s, 52),
        min_app_heap_len: le_word(s, 56),
        min_kernel_heap_len: le_word(s, 60),
        pkg_name_offset: le_word(s, 64),
        pkg_name_size: le_word(s, 68),
        checksum: le_word(s, 72),
    }
}

/// XOR of every header field that precedes the checksum field.
pub open spec fn checksum_of(h: Header) -> u32 {
    h.version ^ h.total_size ^ h.entry_offset ^ h.rel_data_offset ^ h.rel_data_size ^ h.text_offset
        ^ h.text_size ^ h.got_offset ^ h.got_size ^ h.data_offset ^ h.data_size ^ h.bss_mem_offset
        ^ h.bss_size ^ h.min_stack_len ^ h.min_app_heap_len ^ h.min_kernel_heap_len
        ^ h.pkg_name_offset ^ h.pkg_name_size
}

/// A header is valid when its format version is 1 and its checksum field
/// equals the XOR of all preceding fields.
pub open spec fn header_valid(h: Header) -> bool {
    h.version == 1 && h.checksum == checksum_of(h)
}

/// Whether the first bytes of `s` form a parseable header.
pub open spec fn parse_ok(s: Seq<u8>) -> bool {
    s.len() >= HEADER_BYTES && header_valid(header_of(s))
}

impl Header {
    /// Interprets the first `HEADER_BYTES` bytes of `bytes` as the fixed
    /// layout; rejects a short buffer, a version other than 1, and a
    /// mismatched XOR checksum, and nothing else.
    pub fn parse(bytes: &[u8]) -> (r: Option<Header>)
        ensures
            r is Some <==> parse_ok(bytes@),
            r is Some ==> r == Some(header_of(bytes@)),
    {
        if bytes.len() < HEADER_BYTES {
            return None;
        }
        let h = Header {
            version: read_word(bytes, 0),
            total_size: read_word(bytes, 4),
            entry_offset: read_word(bytes, 8),
            rel_data_offset: read_word(bytes, 12),
            rel_data_size: read_word(bytes, 16),
            text_offset: read_word(bytes, 20),
            text_size: read_word(bytes, 24),
            got_offset: read_word(bytes, 28),
            got_size: read_word(bytes, 32),
            data_offset: read_word(bytes, 36),
            data_size: read_word(bytes, 40),
            bss_mem_offset: read_word(bytes, 44),
            bss_size: read_word(bytes, 48),
            min_stack_len: read_word(bytes, 52),
            min_app_heap_len: read_word(bytes, 56),
            min_kernel_heap_len: read_word(bytes, 60),
            pkg_name_offset: read_word(bytes, 64),
            pkg_name_size: read_word(bytes, 68),
            checksum: read_word(bytes, 72),
        };
        if h.version != 1 {
            return None;
        }
        let checksum = h.version ^ h.total_size ^ h.entry_offset ^ h.rel_data_offset
            ^ h.rel_data_size ^ h.text_offset ^ h.text_size ^ h.got_offset ^ h.got_size
            ^ h.data_offset ^ h.data_size ^ h.bss_mem_offset ^ h.bss_size ^ h.min_stack_len
            ^ h.min_app_heap_len ^ h.min_kernel_heap_len ^ h.pkg_name_offset ^ h.pkg_name_size;
        if checksum != h.checksum {
            return None;
        }
        Some(h)
    }
}

/// Flipping any single bit of the checksum field of a parseable header makes
/// parsing fail: `s2` agrees with a parseable `s1` on every field before the
/// checksum but has one checksum bit flipped, so `s2` does not parse.
pub proof fn lemma_checksum_bit_flip(s1: Seq<u8>, s2: Seq<u8>, bit: u32)
    requires
        parse_ok(s1),
        s2.len() >= HEADER_BYTES,
        bit < 32,
        forall|off: int| 0 <= off < 72 && off % 4 == 0 ==> le_word(s2, off) == le_word(s1, off),
        le_word(s2, 72) == le_word(s1, 72) ^ (1u32 << bit),
    ensures
        !parse_ok(s2),
{
    let h1 = header_of(s1);
    let h2 = header_of(s2);
    assert(h2.version == le_word(s2, 0) && h1.version == le_word(s1, 0));
    assert(h2.total_size == le_word(s2, 4) && h1.total_size == le_word(s1, 4));
    assert(h2.entry_offset == le_word(s2, 8) && h1.entry_offset == le_word(s1, 8));
    assert(h2.rel_data_offset == le_word(s2, 12) && h1.rel_data_offset == le_word(s1, 12));
    assert(h2.rel_data_size == le_word(s2, 16) && h1.rel_data_size == le_word(s1, 16));
    assert(h2.text_offset == le_word(s2, 20) && h1.text_offset == le_word(s1, 20));
    assert(h2.text_size == le_word(s2, 24) && h1.text_size == le_word(s1, 24));
    assert(h2.got_offset == le_word(s2, 28) && h1.got_offset == le_word(s1, 28));
    assert(h2.got_size == le_word(s2, 32) && h1.got_size == le_word(s1, 32));
    assert(h2.data_offset == le_word(s2, 36) && h1.data_offset == le_word(s1, 36));
    assert(h2.data_size == le_word(s2, 40) && h1.data_size == le_word(s1, 40));
    assert(h2.bss_mem_offset == le_word(s2, 44) && h1.bss_mem_offset == le_word(s1, 44));
    assert(h2.bss_size == le_word(s2, 48) && h1.bss_size == le_word(s1, 48));
    assert(h2.min_stack_len == le_word(s2, 52) && h1.min_stack_len == le_word(s1, 52));
    assert(h2.min_app_heap_len == le_word(s2, 56) && h1.min_app_heap_len == le_word(s1, 56));
    assert(h2.min_kernel_heap_len == le_word(s2, 60) && h1.min_kernel_heap_len == le_word(s1, 60));
    assert(h2.pkg_name_offset == le_word(s2, 64) && h1.pkg_name_offset == le_word(s1, 64));
    assert(h2.pkg_name_size == le_word(s2, 68) && h1.pkg_name_size == le_word(s1, 68));
    assert(checksum_of(h2) == checksum_of(h1));
    let c = h1.checksum;
    let b = bit;
    assert((c ^ (1u32 << b)) != c) by (bit_vector)
        requires
            b < 32,
    ;
}

} // verus!
