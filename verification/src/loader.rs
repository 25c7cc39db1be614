//! Binary loader and relocator: copies a flash image's static data into
//! RAM, zero-fills its uninitialized data, and applies position-independent
//! fixups so one flash image can run from an arbitrary RAM address.
//!
//! A pointer-sized word with its high bit clear is a RAM-relative offset
//! and gets the RAM base added; one with its high bit set is code-relative,
//! the bit is cleared and the text segment's base address added. Fixups are
//! applied to every word of the copied global offset table and to every
//! even-indexed entry of the relocation table (odd entries are not
//! addresses and are skipped).

use vstd::prelude::*;

use crate::header::Header;
use crate::word::le_word;
use crate::word::read_word;
use crate::word::read_word_vec;
use crate::word::store_word;
use crate::word::write_word;

verus! {

/// Why a load failed. All load failures are recoverable: the affected
/// process is simply never created.
#[derive(Clone, Copy, PartialEq, Eq, Structural, Debug)]
pub enum LoadError {
    /// The static data and global offset table exceed the assigned memory.
    InsufficientMemory,
    /// The zero-fill region overruns the assigned memory.
    Overflow,
    /// A relocation entry names a word outside the copied image.
    RelocationOutOfBounds,
}

/// Metadata about a successfully loaded process.
pub struct LoadResult {
    /// Absolute address of the process entry point.
    pub init_fn: u32,
    /// Lowest free address in process memory after the loaded and
    /// zero-filled static data, rounded up to 8 bytes.
    pub app_mem_start: u32,
    /// Length of the loaded static data segment, including zero fill and
    /// alignment.
    pub data_len: u32,
    /// Address of process code in flash after the header and relocation
    /// sections.
    pub app_flash_code_start: u32,
    /// The process's package name, copied from flash.
    pub package_name: Vec<u8>,
}

/// `x` rounded up to the next multiple of 8.
pub open spec fn align8(x: int) -> int {
    x + ((8 - (x % 8)) % 8)
}

/// Rounds `x` up to the next multiple of 8.
pub fn align8_up(x: u32) -> (r: u32)
    requires
        x + 7 <= u32::MAX,
    ensures
        r == align8(x as int),
{
    x + ((8 - (x % 8)) % 8)
}

/// The position-independent fixup of one word: a word with the high bit
/// clear is memory-relative and gets `mem_base` added; one with the high
/// bit set is code-relative, the bit is cleared and `text_start` added.
/// Additions wrap as the 32-bit hardware would.
pub open spec fn fixup_word(entry: u32, mem_base: u32, text_start: u32) -> u32 {
    if entry < 0x80000000 {
        if entry + mem_base > u32::MAX {
            (entry + mem_base - 0x100000000) as u32
        } else {
            (entry + mem_base) as u32
        }
    } else {
        if entry - 0x80000000 + text_start > u32::MAX {
            (entry - 0x80000000 + text_start - 0x100000000) as u32
        } else {
            (entry - 0x80000000 + text_start) as u32
        }
    }
}

/// Applies the position-independent fixup to one word.
pub fn fixup(entry: u32, mem_base: u32, text_start: u32) -> (r: u32)
    ensures
        r == fixup_word(entry, mem_base, text_start),
{
    if entry & 0x80000000 == 0 {
        proof {
            assert(entry & 0x80000000 == 0 ==> entry < 0x80000000) by (bit_vector);
        }
        entry.wrapping_add(mem_base)
    } else {
        proof {
            assert(entry & 0x80000000 != 0 ==> entry >= 0x80000000 && (entry ^ 0x80000000) == entry
                - 0x80000000) by (bit_vector);
        }
        (entry ^ 0x80000000).wrapping_add(text_start)
    }
}

/// The RAM image straight after copying: the global offset table and data
/// segment copied from flash to the bottom, the zero-fill region zeroed,
/// everything else zero.
pub open spec fn base_image(h: Header, flash: Seq<u8>, mem_size: int) -> Seq<u8> {
    Seq::new(
        mem_size as nat,
        |j: int|
            if h.bss_mem_offset <= j < h.bss_mem_offset + h.bss_size {
                0u8
            } else if j < h.got_size {
                flash[h.got_offset + j]
            } else if j < h.got_size + h.data_size {
                flash[h.data_offset + (j - h.got_size)]
            } else {
                0u8
            },
    )
}

/// The image after fixing up the first `n` words of the copied global
/// offset table.
pub open spec fn got_fixed(s: Seq<u8>, n: int, mem_base: u32, text_start: u32) -> Seq<u8>
    decreases n,
{
    if n <= 0 {
        s
    } else {
        let prev = got_fixed(s, n - 1, mem_base, text_start);
        store_word(
            prev,
            4 * (n - 1),
            fixup_word(le_word(prev, 4 * (n - 1)), mem_base, text_start),
        )
    }
}

/// The image after processing the first `n` relocation-table entries: each
/// even-indexed entry names a word of the image to fix up, odd entries are
/// skipped.
pub open spec fn rel_fixed(
    s: Seq<u8>,
    flash: Seq<u8>,
    rel_off: int,
    n: int,
    mem_base: u32,
    text_start: u32,
) -> Seq<u8>
    decreases n,
{
    if n <= 0 {
        s
    } else {
        let prev = rel_fixed(s, flash, rel_off, n - 1, mem_base, text_start);
        if (n - 1) % 2 == 0 {
            let target = le_word(flash, rel_off + 4 * (n - 1));
            store_word(prev, target as int, fixup_word(le_word(prev, target as int), mem_base, text_start))
        } else {
            prev
        }
    }
}

/// The fully loaded and relocated RAM image of `h`'s process.
pub open spec fn loaded_image(
    h: Header,
    flash: Seq<u8>,
    mem_size: int,
    mem_base: u32,
    text_start: u32,
) -> Seq<u8> {
    rel_fixed(
        got_fixed(base_image(h, flash, mem_size), h.got_size as int / 4, mem_base, text_start),
        flash,
        h.rel_data_offset as int,
        h.rel_data_size as int / 4,
        mem_base,
        text_start,
    )
}

/// The offsets and sizes of `h` that the loader dereferences all lie within
/// the flash image; callers must check them before loading, since header
/// validation does not.
pub open spec fn header_in_flash(h: Header, flash: Seq<u8>) -> bool {
    &&& h.got_offset + h.got_size <= flash.len()
    &&& h.data_offset + h.data_size <= flash.len()
    &&& h.rel_data_offset + h.rel_data_size <= flash.len()
    &&& h.pkg_name_offset + h.pkg_name_size <= flash.len()
    &&& h.text_offset <= flash.len()
    &&& h.entry_offset <= flash.len()
}

/// Whether some even-indexed entry among the first `n` of the relocation
/// table names a word beyond the copied image.
pub open spec fn rel_out_of_bounds(h: Header, flash: Seq<u8>, n: int) -> bool {
    exists|k: int|
        0 <= k < n && k % 2 == 0 && #[trigger] le_word(flash, h.rel_data_offset + 4 * k)
            + 4 > h.got_size + h.data_size
}

/// Loads the process described by `h`, whose image is the flash slice
/// `flash` living at address `flash_base`, into a fresh RAM image for the
/// region of `mem_size` bytes at address `mem_base`. Copies the global
/// offset table and data segment to the bottom of RAM, zero-fills the
/// uninitialized-data region, applies position-independent fixups, and
/// returns the image with the entry point, the first free address after the
/// static data, and the package name. Fails with `InsufficientMemory`
/// exactly when the copied segments exceed `mem_size`, with `Overflow`
/// exactly when the zero-fill region overruns it, and with
/// `RelocationOutOfBounds` exactly when a relocation entry names a word
/// outside the copied segments.
pub fn load(h: &Header, flash: &[u8], flash_base: u32, mem_base: u32, mem_size: u32) -> (r: Result<
    (Vec<u8>, LoadResult),
    LoadError,
>)
    requires
        header_in_flash(*h, flash@),
        flash_base + flash@.len() <= u32::MAX,
        mem_base + mem_size + 7 <= u32::MAX,
    ensures
        ({
            let insufficient = h.got_size + h.data_size > mem_size;
            let bss_overrun = h.bss_mem_offset + h.bss_size > mem_size;
            let rel_bad = rel_out_of_bounds(*h, flash@, h.rel_data_size as int / 4);
            match r {
                Err(LoadError::InsufficientMemory) => insufficient,
                Err(LoadError::Overflow) => !insufficient && bss_overrun,
                Err(LoadError::RelocationOutOfBounds) => !insufficient && !bss_overrun && rel_bad,
                Ok((ram, lr)) => {
                    &&& !insufficient
                    &&& !bss_overrun
                    &&& !rel_bad
                    &&& ram@ == loaded_image(
                        *h,
                        flash@,
                        mem_size as int,
                        mem_base,
                        (flash_base + h.text_offset) as u32,
                    )
                    &&& ram@.len() == mem_size
                    &&& lr.init_fn == flash_base + h.entry_offset
                    &&& lr.data_len == align8(h.bss_mem_offset + h.bss_size)
                    &&& lr.app_mem_start == mem_base + lr.data_len
                    &&& lr.app_flash_code_start == flash_base + h.text_offset
                    &&& lr.package_name@ == flash@.subrange(
                        h.pkg_name_offset as int,
                        h.pkg_name_offset + h.pkg_name_size,
                    )
                },
            }
        }),
{
    let flash_len: usize = flash.len();
    let mem_size_us: usize = mem_size as usize;
    if h.got_size as u64 + h.data_size as u64 > mem_size as u64 {
        return Err(LoadError::InsufficientMemory);
    }
    let got_size: usize = h.got_size as usize;
    let data_size: usize = h.data_size as usize;
    let target_len: usize = got_size + data_size;
    if h.bss_mem_offset as u64 + h.bss_size as u64 > mem_size as u64 {
        return Err(LoadError::Overflow);
    }
    let bss_off: usize = h.bss_mem_offset as usize;
    let bss_size: usize = h.bss_size as usize;

    // Copy the global offset table, then the data segment, then zero the
    // uninitialized-data region; everything else starts zero.
    let mut ram: Vec<u8> = Vec::new();
    let got_off: usize = h.got_offset as usize;
    let data_off: usize = h.data_offset as usize;
    while ram.len() < mem_size_us
        invariant
            ram@.len() <= mem_size_us,
            forall|j: int| 0 <= j < ram@.len() ==> ram@[j] == 0,
        decreases mem_size_us - ram@.len(),
    {
        ram.push(0u8);
    }
    let mut j: usize = 0;
    while j < got_size
        invariant
            j <= got_size,
            got_size == h.got_size,
            got_off == h.got_offset,
            header_in_flash(*h, flash@),
            flash@.len() <= usize::MAX,
            target_len == h.got_size + h.data_size <= mem_size_us == ram@.len() == mem_size,
            forall|k: int| 0 <= k < j ==> ram@[k] == flash@[got_off + k],
            forall|k: int| j <= k < ram@.len() ==> ram@[k] == 0,
        decreases got_size - j,
    {
        let b = flash[got_off + j];
        ram.set(j, b);
        j += 1;
    }
    let mut j: usize = 0;
    while j < data_size
        invariant
            j <= data_size,
            got_size == h.got_size,
            data_size == h.data_size,
            got_off == h.got_offset,
            data_off == h.data_offset,
            header_in_flash(*h, flash@),
            flash@.len() <= usize::MAX,
            target_len == h.got_size + h.data_size <= mem_size_us == ram@.len() == mem_size,
            forall|k: int| 0 <= k < got_size ==> ram@[k] == flash@[got_off + k],
            forall|k: int| 0 <= k < j ==> #[trigger] ram@[got_size + k] == flash@[data_off + k],
            forall|k: int| got_size + j <= k < ram@.len() ==> ram@[k] == 0,
        decreases data_size - j,
    {
        let b = flash[data_off + j];
        ram.set(got_size + j, b);
        j += 1;
    }
    proof {
        assert forall|k: int| 0 <= k < ram@.len() implies ram@[k] == old_base_at(*h, flash@, k) by {
            if k < got_size {
            } else if k < got_size + data_size {
                assert(ram@[got_size + (k - got_size)] == flash@[data_off + (k - got_size)]);
            } else {
            }
        }
    }
    let mut j: usize = 0;
    while j < bss_size
        invariant
            j <= bss_size,
            bss_size == h.bss_size,
            bss_off == h.bss_mem_offset,
            bss_off + bss_size <= mem_size_us == ram@.len() == mem_size,
            forall|k: int|
                0 <= k < ram@.len() && !(bss_off <= k < bss_off + j) ==> ram@[k] == old_base_at(
                    *h,
                    flash@,
                    k,
                ),
            forall|k: int| bss_off <= k < bss_off + j ==> ram@[k] == 0,
            got_size == h.got_size,
            data_size == h.data_size,
            got_off == h.got_offset,
            data_off == h.data_offset,
            header_in_flash(*h, flash@),
            target_len == h.got_size + h.data_size <= mem_size_us,
        decreases bss_size - j,
    {
        ram.set(bss_off + j, 0u8);
        j += 1;
    }
    proof {
        assert(ram@ =~= base_image(*h, flash@, mem_size as int));
    }

    // Fix up every word of the copied global offset table.
    let ghost base = base_image(*h, flash@, mem_size as int);
    let text_start: u32 = flash_base + h.text_offset;
    let got_words: usize = got_size / 4;
    let mut w: usize = 0;
    while w < got_words
        invariant
            w <= got_words,
            got_words == h.got_size as int / 4,
            4 * got_words <= h.got_size <= mem_size,
            ram@.len() == mem_size,
            ram@ == got_fixed(base, w as int, mem_base, text_start),
        decreases got_words - w,
    {
        let entry = read_word_vec(&ram, 4 * w);
        let fixed = fixup(entry, mem_base, text_start);
        write_word(&mut ram, 4 * w, fixed);
        w += 1;
    }

    // Fix up the image words named by even-indexed relocation entries.
    let ghost gfixed = got_fixed(base, h.got_size as int / 4, mem_base, text_start);
    let rel_off: usize = h.rel_data_offset as usize;
    let rel_count: usize = (h.rel_data_size as usize) / 4;
    let mut k: usize = 0;
    while k < rel_count
        invariant
            k <= rel_count,
            rel_count == h.rel_data_size as int / 4,
            4 * rel_count <= h.rel_data_size,
            rel_off == h.rel_data_offset,
            header_in_flash(*h, flash@),
            flash@.len() <= usize::MAX,
            target_len == h.got_size + h.data_size <= mem_size,
            h.bss_mem_offset + h.bss_size <= mem_size,
            ram@.len() == mem_size,
            ram@ == rel_fixed(gfixed, flash@, rel_off as int, k as int, mem_base, text_start),
            !rel_out_of_bounds(*h, flash@, k as int),
        decreases rel_count - k,
    {
        if k % 2 == 0 {
            assert(4 * k + 4 <= h.rel_data_size);
            let target = read_word(flash, rel_off + 4 * k);
            if target as u64 + 4 > target_len as u64 {
                proof {
                    assert(rel_out_of_bounds(*h, flash@, h.rel_data_size as int / 4));
                }
                return Err(LoadError::RelocationOutOfBounds);
            }
            let entry = read_word_vec(&ram, target as usize);
            let fixed = fixup(entry, mem_base, text_start);
            write_word(&mut ram, target as usize, fixed);
        }
        proof {
            assert forall|q: int| 0 <= q < k + 1 && q % 2 == 0 implies #[trigger] le_word(
                flash@,
                h.rel_data_offset + 4 * q,
            ) + 4 <= h.got_size + h.data_size by {
                assert(!rel_out_of_bounds(*h, flash@, k as int));
            }
        }
        k += 1;
    }

    // Entry point, first free RAM address after the static data, and the
    // package name sourced from flash.
    let init_fn: u32 = flash_base + h.entry_offset;
    let data_len: u32 = align8_up(h.bss_mem_offset + h.bss_size);
    let app_mem_start: u32 = mem_base + data_len;
    let pkg_off: usize = h.pkg_name_offset as usize;
    let pkg_size: usize = h.pkg_name_size as usize;
    let mut package_name: Vec<u8> = Vec::new();
    let mut j: usize = 0;
    while j < pkg_size
        invariant
            j <= pkg_size,
            pkg_off + pkg_size <= flash@.len() <= usize::MAX,
            package_name@.len() == j,
            forall|k: int| 0 <= k < j ==> package_name@[k] == flash@[pkg_off + k],
        decreases pkg_size - j,
    {
        let b = flash[pkg_off + j];
        package_name.push(b);
        j += 1;
    }
    proof {
        assert(package_name@ =~= flash@.subrange(
            h.pkg_name_offset as int,
            h.pkg_name_offset + h.pkg_name_size,
        ));
    }
    Ok(
        (
            ram,
            LoadResult {
                init_fn,
                app_mem_start,
                data_len,
                app_flash_code_start: text_start,
                package_name,
            },
        ),
    )
}

/// What the base image holds at offset `k`: helper naming one point of
/// [`base_image`] before the zero-fill pass has reached it.
pub open spec fn old_base_at(h: Header, flash: Seq<u8>, k: int) -> u8 {
    if k < h.got_size {
        flash[h.got_offset + k]
    } else if k < h.got_size + h.data_size {
        flash[h.data_offset + (k - h.got_size)]
    } else {
        0u8
    }
}

} // verus!
