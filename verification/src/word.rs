//! Little-endian 32-bit words stored in byte buffers.
//!
//! The machine modeled here is a 32-bit platform: every header field, every
//! global-offset-table entry and every exception-frame slot is a 32-bit word
//! laid out least-significant byte first.

use vstd::prelude::*;

verus! {

/// Number of bytes in one machine word.
pub const WORD_BYTES: usize = 4;

/// The 32-bit word stored little-endian at byte offset `i` of `s`.
pub open spec fn le_word(s: Seq<u8>, i: int) -> u32 {
    (s[i] + s[i + 1] * 0x100 + s[i + 2] * 0x10000 + s[i + 3] * 0x1000000) as u32
}

/// Reads the little-endian word at byte offset `i`.
pub fn read_word(mem: &[u8], i: usize) -> (r: u32)
    requires
        i + 4 <= mem.len(),
    ensures
        r == le_word(mem@, i as int),
{
    (mem[i] as u32) + (mem[i + 1] as u32) * 0x100 + (mem[i + 2] as u32) * 0x10000 + (mem[i + 3]
        as u32) * 0x1000000
}

/// Reads the little-endian word at byte offset `i` of a vector.
pub fn read_word_vec(mem: &Vec<u8>, i: usize) -> (r: u32)
    requires
        i + 4 <= mem.len(),
    ensures
        r == le_word(mem@, i as int),
{
    (mem[i] as u32) + (mem[i + 1] as u32) * 0x100 + (mem[i + 2] as u32) * 0x10000 + (mem[i + 3]
        as u32) * 0x1000000
}

/// The four little-endian bytes of `w`, in memory order.
pub open spec fn word_bytes(w: u32) -> Seq<u8> {
    seq![
        (w % 0x100) as u8,
        ((w / 0x100) % 0x100) as u8,
        ((w / 0x10000) % 0x100) as u8,
        ((w / 0x1000000) % 0x100) as u8,
    ]
}

/// Reassembling the little-endian bytes of a word gives the word back.
pub proof fn lemma_word_bytes_roundtrip(w: u32)
    ensures
        forall|s: Seq<u8>, i: int|
            0 <= i && i + 4 <= s.len() && s.subrange(i, i + 4) == word_bytes(w) ==> le_word(s, i)
                == w,
{
    assert forall|s: Seq<u8>, i: int|
        0 <= i && i + 4 <= s.len() && s.subrange(i, i + 4) == word_bytes(w) implies le_word(s, i)
        == w by {
        assert(s[i] == s.subrange(i, i + 4)[0]);
        assert(s[i + 1] == s.subrange(i, i + 4)[1]);
        assert(s[i + 2] == s.subrange(i, i + 4)[2]);
        assert(s[i + 3] == s.subrange(i, i + 4)[3]);
        lemma_word_decomposition(w);
    }
}

/// A 32-bit word equals the weighted sum of its little-endian bytes.
pub proof fn lemma_word_decomposition(w: u32)
    ensures
        w == (w % 0x100) + ((w / 0x100) % 0x100) * 0x100 + ((w / 0x10000) % 0x100) * 0x10000 + ((w
            / 0x1000000) % 0x100) * 0x1000000,
{
    assert(w == (w % 0x100) + ((w / 0x100) % 0x100) * 0x100 + ((w / 0x10000) % 0x100) * 0x10000 + (
    (w / 0x1000000) % 0x100) * 0x1000000) by (bit_vector);
}

/// `s` with the word `w` stored little-endian at byte offset `off`.
pub open spec fn store_word(s: Seq<u8>, off: int, w: u32) -> Seq<u8> {
    s.update(off, word_bytes(w)[0]).update(off + 1, word_bytes(w)[1]).update(
        off + 2,
        word_bytes(w)[2],
    ).update(off + 3, word_bytes(w)[3])
}

/// Writes `w` little-endian at byte offset `i`, leaving all other bytes
/// unchanged.
pub fn write_word(mem: &mut Vec<u8>, i: usize, w: u32)
    requires
        i + 4 <= old(mem).len(),
    ensures
        final(mem)@.len() == old(mem)@.len(),
        le_word(final(mem)@, i as int) == w,
        final(mem)@.subrange(i as int, i + 4) == word_bytes(w),
        final(mem)@ == store_word(old(mem)@, i as int, w),
        forall|j: int| 0 <= j < old(mem)@.len() && !(i <= j < i + 4) ==> final(mem)@[j] == old(
            mem,
        )@[j],
{
    let b0: u8 = (w % 0x100) as u8;
    let b1: u8 = ((w / 0x100) % 0x100) as u8;
    let b2: u8 = ((w / 0x10000) % 0x100) as u8;
    let b3: u8 = ((w / 0x1000000) % 0x100) as u8;
    mem.set(i, b0);
    mem.set(i + 1, b1);
    mem.set(i + 2, b2);
    mem.set(i + 3, b3);
    proof {
        assert(mem@.subrange(i as int, i + 4) =~= word_bytes(w));
        lemma_word_bytes_roundtrip(w);
        assert(mem@ =~= store_word(old(mem)@, i as int, w));
    }
}

} // verus!
