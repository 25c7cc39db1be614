//! A process's memory manager: the contiguous RAM slice a process owns,
//! its movable partition boundaries, and the kernel-private grant arena.
//!
//! The slice is laid out low-to-high as static data, stack (growing down),
//! heap (growing up), an unallocated gap, and the kernel-private grant
//! region growing down from the top. All boundaries are 32-bit addresses
//! into the slice; the invariant `mem_base <= app_mem_start <=
//! stack_heap_boundary` and `mem_base <= app_memory_break <=
//! kernel_memory_break <= mem_end` always holds, and the top of the slice
//! reserves one word-sized grant slot per registered kernel container.

use vstd::prelude::*;

use crate::header::Header;
use crate::header::header_of;
use crate::header::parse_ok;
use crate::kernel::Kernel;
use crate::loader::align8;
use crate::loader::header_in_flash;
use crate::loader::load;
use crate::loader::loaded_image;
use crate::loader::rel_out_of_bounds;
use crate::task::FunctionCall;
use crate::task::Task;
use crate::task::TaskQueue;
use crate::task::TASK_QUEUE_CAPACITY;
use crate::word::le_word;
use crate::word::read_word_vec;
use crate::word::word_bytes;
use crate::word::write_word;
use crate::word::lemma_word_bytes_roundtrip;

verus! {

/// Recoverable, caller-visible errors of the memory-break operations, plus
/// the invalid-identity error reported to callers outside this core.
#[derive(Clone, Copy, PartialEq, Eq, Structural, Debug)]
pub enum Error {
    NoSuchApp,
    OutOfMemory,
    AddressOutOfBounds,
}

/// Run state of a process: executing (or runnable), or voluntarily
/// suspended.
#[derive(Clone, Copy, PartialEq, Eq, Structural, Debug)]
pub enum State {
    Running,
    Yielded,
}

/// Number of dynamically registered protection regions a process may hold.
pub const MPU_REGION_SLOTS: usize = 5;

/// Number of saved general-purpose registers in the register file.
pub const STORED_REG_COUNT: usize = 8;

/// Mathematical model of a process: the bytes of its RAM slice, the
/// addresses of its partition boundaries, its saved execution context, its
/// protection regions and its pending work.
#[verifier::ext_equal]
pub ghost struct ProcessModel {
    /// Bytes of the owned RAM slice.
    pub mem: Seq<u8>,
    /// Address of the first byte of the RAM slice; never address zero, which
    /// is the empty-slot sentinel.
    pub mem_base: u32,
    /// First address after the loaded static data; immutable.
    pub app_mem_start: u32,
    /// Fixed boundary between the stack and heap areas.
    pub stack_heap_boundary: u32,
    /// Current top of the application-visible heap.
    pub app_memory_break: u32,
    /// Current bottom of the kernel-private grant region.
    pub kernel_memory_break: u32,
    /// Current application stack pointer.
    pub cur_stack: u32,
    /// Bytes of the read-only code region in flash.
    pub text: Seq<u8>,
    /// Address of the first byte of the code region.
    pub text_base: u32,
    /// Address of process code after the header and relocation sections.
    pub app_flash_code_start: u32,
    /// Saved register file.
    pub stored_regs: Seq<u32>,
    /// Program counter to resume at after a yield.
    pub yield_pc: u32,
    /// Saved program status word.
    pub psr: u32,
    /// Run state.
    pub state: State,
    /// Dynamic protection regions, each `(base, size exponent)`; base zero
    /// marks an empty slot.
    pub mpu_regions: Seq<(u32, u32)>,
    /// Pending work, oldest first.
    pub tasks: Seq<Task>,
    /// Immutable package name, the process's identity.
    pub package_name: Seq<u8>,
    /// Number of word-sized grant slots reserved at the top of the slice.
    pub container_count: usize,
}

/// One past the highest address of the process's RAM slice.
pub open spec fn mem_end(m: ProcessModel) -> int {
    m.mem_base + m.mem.len()
}

/// Well-formedness of a process model: the boundary chain, the reserved
/// grant slots above the kernel break, and the fixed-size bookkeeping
/// arrays.
pub open spec fn wf_model(m: ProcessModel) -> bool {
    &&& 1 <= m.mem_base
    &&& mem_end(m) <= u32::MAX
    &&& m.mem_base <= m.app_mem_start <= m.stack_heap_boundary <= mem_end(m)
    &&& m.mem_base <= m.app_memory_break <= m.kernel_memory_break
    &&& m.kernel_memory_break + 4 * m.container_count <= mem_end(m)
    &&& m.mem_base <= m.cur_stack <= mem_end(m)
    &&& m.text_base + m.text.len() <= u32::MAX
    &&& m.stored_regs.len() == STORED_REG_COUNT
    &&& m.mpu_regions.len() == MPU_REGION_SLOTS
    &&& m.tasks.len() <= TASK_QUEUE_CAPACITY
}

/// A process: its exclusively owned RAM slice, partition boundaries, saved
/// execution context, protection regions, task queue and identity.
pub struct Process {
    pub memory: Vec<u8>,
    pub mem_base: u32,
    pub app_mem_start: u32,
    pub stack_heap_boundary: u32,
    pub app_memory_break: u32,
    pub kernel_memory_break: u32,
    pub cur_stack: u32,
    pub text: Vec<u8>,
    pub text_base: u32,
    pub app_flash_code_start: u32,
    pub stored_regs: Vec<u32>,
    pub yield_pc: u32,
    pub psr: u32,
    pub state: State,
    pub mpu_regions: Vec<(u32, u32)>,
    pub tasks: TaskQueue,
    pub package_name: Vec<u8>,
    pub container_count: usize,
}

impl View for Process {
    type V = ProcessModel;

    open spec fn view(&self) -> ProcessModel {
        ProcessModel {
            mem: self.memory@,
            mem_base: self.mem_base,
            app_mem_start: self.app_mem_start,
            stack_heap_boundary: self.stack_heap_boundary,
            app_memory_break: self.app_memory_break,
            kernel_memory_break: self.kernel_memory_break,
            cur_stack: self.cur_stack,
            text: self.text@,
            text_base: self.text_base,
            app_flash_code_start: self.app_flash_code_start,
            stored_regs: self.stored_regs@,
            yield_pc: self.yield_pc,
            psr: self.psr,
            state: self.state,
            mpu_regions: self.mpu_regions@,
            tasks: self.tasks@,
            package_name: self.package_name@,
            container_count: self.container_count,
        }
    }
}

/// What a break request returns: the previous break on success, or the
/// error naming which bound was violated.
pub open spec fn brk_result(m: ProcessModel, new_break: u32) -> Result<u32, Error> {
    if new_break < m.mem_base || new_break >= mem_end(m) {
        Err(Error::AddressOutOfBounds)
    } else if new_break > m.kernel_memory_break {
        Err(Error::OutOfMemory)
    } else {
        Ok(m.app_memory_break)
    }
}

/// The process after a break request: the break moves exactly when the
/// request is accepted.
pub open spec fn brk_next(m: ProcessModel, new_break: u32) -> ProcessModel {
    if m.mem_base <= new_break && new_break < mem_end(m) && new_break <= m.kernel_memory_break {
        ProcessModel { app_memory_break: new_break, ..m }
    } else {
        m
    }
}

/// Byte offset of grant slot `i` within the RAM slice: slots fill the top
/// of the slice, slot 0 highest.
pub open spec fn slot_offset(m: ProcessModel, i: int) -> int {
    m.mem.len() - 4 * (i + 1)
}

/// The word stored in grant slot `i`: the address of the allocated
/// container, or zero while the slot is empty.
pub open spec fn slot_word(m: ProcessModel, i: int) -> u32 {
    le_word(m.mem, slot_offset(m, i))
}

impl Process {
    /// The process invariant: see [`wf_model`].
    pub open spec fn wf(&self) -> bool {
        wf_model(self@)
    }

    /// Lowest address of the process's RAM slice.
    pub fn mem_start(&self) -> (r: u32)
        ensures
            r == self@.mem_base,
    {
        self.mem_base
    }

    /// One past the highest address of the process's RAM slice.
    pub fn mem_end(&self) -> (r: u32)
        requires
            self.wf(),
        ensures
            r == mem_end(self@),
    {
        self.mem_base + self.memory.len() as u32
    }

    /// Current run state.
    pub fn current_state(&self) -> (r: State)
        ensures
            r == self@.state,
    {
        self.state
    }

    /// Whether `[buf_start, buf_start + size)` lies within the process's
    /// RAM slice, so the application may legitimately expose it.
    pub fn in_exposed_bounds(&self, buf_start: u32, size: u32) -> (r: bool)
        requires
            self.wf(),
        ensures
            r <==> self@.mem_base <= buf_start && buf_start + size <= mem_end(self@),
    {
        let buf_end: u64 = buf_start as u64 + size as u64;
        buf_start >= self.mem_base && buf_end <= self.mem_base as u64 + self.memory.len() as u64
    }

    /// Moves the application memory break to `new_break`; on success
    /// returns the previous break. Fails with `AddressOutOfBounds` when the
    /// target is outside `[mem_start, mem_end)`, with `OutOfMemory` when it
    /// would cross into the grant region; a failed call changes nothing.
    pub fn brk(&mut self, new_break: u32) -> (r: Result<u32, Error>)
        requires
            old(self).wf(),
        ensures
            final(self).wf(),
            r == brk_result(old(self)@, new_break),
            final(self)@ == brk_next(old(self)@, new_break),
    {
        let end: u32 = self.mem_base + self.memory.len() as u32;
        if new_break < self.mem_base || new_break >= end {
            Err(Error::AddressOutOfBounds)
        } else if new_break > self.kernel_memory_break {
            Err(Error::OutOfMemory)
        } else {
            let old_break = self.app_memory_break;
            self.app_memory_break = new_break;
            proof {
                assert(self@ =~= brk_next(old(self)@, new_break));
            }
            Ok(old_break)
        }
    }

    /// Moves the application memory break by a signed byte distance, with
    /// the same result and failure rules as [`Process::brk`]. A distance
    /// that leaves 32-bit address space is out of bounds.
    pub fn sbrk(&mut self, increment: i32) -> (r: Result<u32, Error>)
        requires
            old(self).wf(),
        ensures
            final(self).wf(),
            ({
                let target = old(self)@.app_memory_break + increment;
                if target < 0 || target > u32::MAX {
                    r == Err::<u32, Error>(Error::AddressOutOfBounds) && final(self)@ == old(
                        self,
                    )@
                } else {
                    r == brk_result(old(self)@, target as u32) && final(self)@ == brk_next(
                        old(self)@,
                        target as u32,
                    )
                }
            }),
    {
        let target: i64 = self.app_memory_break as i64 + increment as i64;
        if target < 0 || target > u32::MAX as i64 {
            Err(Error::AddressOutOfBounds)
        } else {
            self.brk(target as u32)
        }
    }

    /// Bump-allocates `size` bytes downward from the kernel memory break
    /// for kernel-private per-process state, returning the base address of
    /// the new region; returns nothing, changing nothing, exactly when the
    /// region would cross the application memory break.
    pub fn grant_alloc(&mut self, size: u32) -> (r: Option<u32>)
        requires
            old(self).wf(),
        ensures
            final(self).wf(),
            ({
                let m = old(self)@;
                if m.app_memory_break + size <= m.kernel_memory_break {
                    r == Some((m.kernel_memory_break - size) as u32) && final(self)@
                        == (ProcessModel { kernel_memory_break: (m.kernel_memory_break - size) as u32, ..m })
                } else {
                    r is None && final(self)@ == m
                }
            }),
    {
        let avail: u32 = self.kernel_memory_break - self.app_memory_break;
        if size > avail {
            None
        } else {
            let new_break: u32 = self.kernel_memory_break - size;
            self.kernel_memory_break = new_break;
            Some(new_break)
        }
    }

    /// Grant memory is never individually reclaimed: freeing is a no-op by
    /// design, only wholesale process teardown would return it.
    pub fn free(&mut self, _addr: u32)
        ensures
            *final(self) == *old(self),
    {
    }

    /// Address of the reserved grant slot for container `container_num`,
    /// counted down from the top of the RAM slice.
    pub fn container_for(&self, container_num: usize) -> (r: u32)
        requires
            self.wf(),
            container_num < self@.container_count,
        ensures
            r == self@.mem_base + slot_offset(self@, container_num as int),
    {
        let end: u32 = self.mem_base + self.memory.len() as u32;
        end - 4 * (container_num as u32 + 1)
    }

    /// Looks up the grant slot for container `container_num`; if it is
    /// empty, bump-allocates `size` bytes of zero-initialized grant memory,
    /// records the location in the slot and returns it, else returns the
    /// previously recorded location unchanged. Returns nothing exactly when
    /// the slot is empty and the grant region is exhausted.
    pub fn container_for_or_alloc(&mut self, container_num: usize, size: u32) -> (r: Option<u32>)
        requires
            old(self).wf(),
            container_num < old(self)@.container_count,
        ensures
            final(self).wf(),
            r == container_result(old(self)@, container_num as int, size),
            final(self)@ == container_next(old(self)@, container_num as int, size),
    {
        let ghost m = old(self)@;
        let ghost i = container_num as int;
        let slot_addr = self.container_for(container_num);
        let slot_idx: usize = (slot_addr - self.mem_start()) as usize;
        assert(slot_idx == slot_offset(m, i));
        let cur = read_word_vec(&self.memory, slot_idx);
        if cur != 0 {
            return Some(cur);
        }
        let avail: u32 = self.kernel_memory_break - self.app_memory_break;
        if size > avail {
            return None;
        }
        let a: u32 = self.kernel_memory_break - size;
        self.kernel_memory_break = a;
        let start: usize = (a - self.mem_base) as usize;
        let size_us: usize = size as usize;
        let mut j: usize = 0;
        while j < size_us
            invariant
                j <= size_us,
                size_us == size,
                a == m.kernel_memory_break - size,
                start == a - m.mem_base,
                start + size_us <= m.mem.len(),
                self@ == (ProcessModel { kernel_memory_break: a, mem: self.memory@, ..m }),
                self.memory@.len() == m.mem.len(),
                forall|k: int|
                    0 <= k < m.mem.len() && !(start <= k < start + j) ==> self.memory@[k]
                        == m.mem[k],
                forall|k: int| start <= k < start + j ==> self.memory@[k] == 0,
            decreases size_us - j,
        {
            self.memory.set(start + j, 0u8);
            j += 1;
        }
        write_word(&mut self.memory, slot_idx, a);
        proof {
            let mn = container_next(m, i, size);
            lemma_word_bytes_roundtrip(a);
            assert forall|k: int| 0 <= k < m.mem.len() implies self.memory@[k] == mn.mem[k] by {
                let so = slot_offset(m, i);
                if so <= k < so + 4 {
                    assert(self.memory@[k] == self.memory@.subrange(so, so + 4)[k - so]);
                } else if start <= k < start + size {
                    assert(so >= start + size);
                } else {
                }
            }
            assert(self@.mem =~= mn.mem);
            assert(self@ =~= mn);
        }
        Some(a)
    }
}

/// What looking up or allocating the container at slot `i` with `size`
/// bytes returns: the recorded location when the slot is filled, the newly
/// allocated location when the grant region has room, nothing otherwise.
pub open spec fn container_result(m: ProcessModel, i: int, size: u32) -> Option<u32> {
    if slot_word(m, i) != 0 {
        Some(slot_word(m, i))
    } else if m.app_memory_break + size <= m.kernel_memory_break {
        Some((m.kernel_memory_break - size) as u32)
    } else {
        None
    }
}

/// The process after looking up or allocating the container at slot `i`: a
/// fresh allocation lowers the kernel break, zero-fills the new region and
/// records its address in the slot; otherwise nothing changes.
pub open spec fn container_next(m: ProcessModel, i: int, size: u32) -> ProcessModel {
    if slot_word(m, i) != 0 {
        m
    } else if m.app_memory_break + size <= m.kernel_memory_break {
        ProcessModel {
            kernel_memory_break: (m.kernel_memory_break - size) as u32,
            mem: m.mem.map(
                |j: int, b: u8|
                    if slot_offset(m, i) <= j < slot_offset(m, i) + 4 {
                        word_bytes((m.kernel_memory_break - size) as u32)[j - slot_offset(m, i)]
                    } else if m.kernel_memory_break - size - m.mem_base <= j < m.kernel_memory_break
                        - m.mem_base {
                        0u8
                    } else {
                        b
                    },
            ),
            ..m
        }
    } else {
        m
    }
}

/// Container lookup is idempotent: once a lookup of slot `i` has returned a
/// location, looking the same slot up again — with any requested size —
/// returns the identical location and leaves the process unchanged.
pub proof fn lemma_container_idempotent(m: ProcessModel, i: int, size: u32, size2: u32)
    requires
        wf_model(m),
        0 <= i < m.container_count,
        container_result(m, i, size) is Some,
    ensures
        container_result(container_next(m, i, size), i, size2) == container_result(m, i, size),
        container_next(container_next(m, i, size), i, size2) == container_next(m, i, size),
{
    if slot_word(m, i) == 0 {
        let a = (m.kernel_memory_break - size) as u32;
        let m2 = container_next(m, i, size);
        let so = slot_offset(m, i);
        assert(m2.mem.len() == m.mem.len());
        assert(m2.mem.subrange(so, so + 4) =~= word_bytes(a));
        lemma_word_bytes_roundtrip(a);
        assert(slot_word(m2, i) == a);
        assert(a != 0);
    }
}

/// Containers allocated for distinct indices occupy disjoint memory: after
/// a fresh allocation of `s1` bytes for slot `i`, a fresh allocation of
/// `s2` bytes for a different slot `j` succeeds on a location whose region
/// lies entirely below the first.
pub proof fn lemma_container_distinct(m: ProcessModel, i: int, j: int, s1: u32, s2: u32)
    requires
        wf_model(m),
        0 <= i < m.container_count,
        0 <= j < m.container_count,
        i != j,
        slot_word(m, i) == 0,
        slot_word(m, j) == 0,
        m.app_memory_break + s1 + s2 <= m.kernel_memory_break,
    ensures
        ({
            let a1 = (m.kernel_memory_break - s1) as u32;
            let a2 = (m.kernel_memory_break - s1 - s2) as u32;
            &&& container_result(m, i, s1) == Some(a1)
            &&& container_result(container_next(m, i, s1), j, s2) == Some(a2)
            &&& a2 + s2 <= a1
        }),
{
    let a1 = (m.kernel_memory_break - s1) as u32;
    let m2 = container_next(m, i, s1);
    let so_i = slot_offset(m, i);
    let so_j = slot_offset(m, j);
    assert(m2.mem.len() == m.mem.len());
    assert(so_j + 4 <= so_i || so_i + 4 <= so_j);
    assert(m.kernel_memory_break - m.mem_base <= so_j);
    assert forall|k: int| so_j <= k < so_j + 4 implies m2.mem[k] == m.mem[k] by {}
    assert(slot_word(m2, j) == slot_word(m, j));
}

/// Bytes reserved at the top of the grant region for the fixed task-queue
/// storage: `TASK_QUEUE_CAPACITY` entries of 24 bytes each.
pub const TASK_QUEUE_BYTES: u32 = 240;

/// Aligned length of the loaded static data segment of `h`, zero fill
/// included.
pub open spec fn data_len_of(h: Header) -> int {
    align8(h.bss_mem_offset + h.bss_size)
}

/// Aligned stack reservation of `h`.
pub open spec fn stack_len_of(h: Header) -> int {
    align8(h.min_stack_len as int)
}

/// Aligned application-heap reservation of `h`.
pub open spec fn app_heap_len_of(h: Header) -> int {
    align8(h.min_app_heap_len as int)
}

/// Aligned kernel-heap reservation of `h`.
pub open spec fn kernel_heap_len_of(h: Header) -> int {
    align8(h.min_kernel_heap_len as int)
}

/// Total memory a process of `h` needs: static data plus the three aligned
/// reservations.
pub open spec fn app_slice_size_of(h: Header) -> int {
    data_len_of(h) + stack_len_of(h) + app_heap_len_of(h) + kernel_heap_len_of(h)
}

/// Whether process creation succeeds on this flash image, assigned memory
/// size and container count: the header parses, every segment it names lies
/// within the image, loading succeeds, the required memory fits, the grant
/// bookkeeping fits under the heap reservations, and the entry point is
/// tagged for the hardware's Thumb instruction-set mode (odd address).
pub open spec fn create_ok(
    flash: Seq<u8>,
    flash_base: u32,
    mem_size: u32,
    container_count: usize,
) -> bool {
    let h = header_of(flash);
    &&& parse_ok(flash)
    &&& h.total_size <= flash.len()
    &&& header_in_flash(h, flash)
    &&& h.got_size + h.data_size <= mem_size
    &&& h.bss_mem_offset + h.bss_size <= mem_size
    &&& !rel_out_of_bounds(h, flash, h.rel_data_size as int / 4)
    &&& app_slice_size_of(h) <= mem_size
    &&& app_heap_len_of(h) + kernel_heap_len_of(h) >= 4 * container_count + TASK_QUEUE_BYTES
    &&& (flash_base + h.entry_offset) % 2 == 1
}

/// Zeroes the top `count` words of `ram`, leaving the rest unchanged: the
/// reserved grant slots all start empty.
fn clear_top_words(ram: &mut Vec<u8>, count: usize)
    requires
        4 * count <= old(ram)@.len(),
    ensures
        final(ram)@.len() == old(ram)@.len(),
        forall|j: int| 0 <= j < old(ram)@.len() - 4 * count ==> final(ram)@[j] == old(ram)@[j],
        forall|j: int| old(ram)@.len() - 4 * count <= j < old(ram)@.len() ==> final(ram)@[j] == 0,
{
    let len: usize = ram.len();
    let mut i: usize = 0;
    while i < count
        invariant
            i <= count,
            4 * count <= len == ram@.len() == old(ram)@.len(),
            forall|j: int| 0 <= j < len - 4 * i ==> ram@[j] == old(ram)@[j],
            forall|j: int| len - 4 * i <= j < len ==> ram@[j] == 0,
        decreases count - i,
    {
        write_word(ram, len - 4 * (i + 1), 0);
        i += 1;
    }
}

/// Copies the first `n` bytes of `flash`: the process keeps its own copy of
/// the read-only code region.
fn copy_prefix(flash: &[u8], n: usize) -> (r: Vec<u8>)
    requires
        n <= flash@.len(),
    ensures
        r@ == flash@.subrange(0, n as int),
{
    let mut v: Vec<u8> = Vec::new();
    let mut j: usize = 0;
    while j < n
        invariant
            j <= n <= flash@.len(),
            v@.len() == j,
            forall|k: int| 0 <= k < j ==> v@[k] == flash@[k],
        decreases n - j,
    {
        let b = flash[j];
        v.push(b);
        j += 1;
    }
    proof {
        assert(v@ =~= flash@.subrange(0, n as int));
    }
    v
}

/// A register file of `n` zeroed registers.
fn zero_words(n: usize) -> (r: Vec<u32>)
    ensures
        r@.len() == n,
        forall|k: int| 0 <= k < n ==> r@[k] == 0,
{
    let mut v: Vec<u32> = Vec::new();
    while v.len() < n
        invariant
            v@.len() <= n,
            forall|k: int| 0 <= k < v@.len() ==> v@[k] == 0,
        decreases n - v@.len(),
    {
        v.push(0);
    }
    v
}

/// A protection-region table of `n` empty slots.
fn empty_regions(n: usize) -> (r: Vec<(u32, u32)>)
    ensures
        r@.len() == n,
        forall|k: int| 0 <= k < n ==> r@[k] == (0u32, 0u32),
{
    let mut v: Vec<(u32, u32)> = Vec::new();
    while v.len() < n
        invariant
            v@.len() <= n,
            forall|k: int| 0 <= k < v@.len() ==> v@[k] == (0u32, 0u32),
        decreases n - v@.len(),
    {
        v.push((0, 0));
    }
    v
}

/// The size and bound checks of process creation that do not depend on the
/// relocation table: every segment the header names lies within the flash
/// image, the required memory fits the assigned region, the grant
/// bookkeeping fits under the heap reservations, and the entry point is
/// Thumb-tagged.
fn creation_allowed(
    h: &Header,
    flash_len: usize,
    flash_base: u32,
    mem_size: u32,
    container_count: usize,
) -> (r: bool)
    requires
        flash_base + flash_len <= u32::MAX,
        4 * container_count + TASK_QUEUE_BYTES <= u32::MAX,
    ensures
        r <==> ({
            &&& h.total_size <= flash_len
            &&& h.got_offset + h.got_size <= flash_len
            &&& h.data_offset + h.data_size <= flash_len
            &&& h.rel_data_offset + h.rel_data_size <= flash_len
            &&& h.pkg_name_offset + h.pkg_name_size <= flash_len
            &&& h.text_offset <= flash_len
            &&& h.entry_offset <= flash_len
            &&& h.got_size + h.data_size <= mem_size
            &&& h.bss_mem_offset + h.bss_size <= mem_size
            &&& app_slice_size_of(*h) <= mem_size
            &&& app_heap_len_of(*h) + kernel_heap_len_of(*h) >= 4 * container_count
                + TASK_QUEUE_BYTES
            &&& (flash_base + h.entry_offset) % 2 == 1
        }),
{
    if h.total_size as usize > flash_len {
        return false;
    }
    if h.got_offset as u64 + h.got_size as u64 > flash_len as u64 {
        return false;
    }
    if h.data_offset as u64 + h.data_size as u64 > flash_len as u64 {
        return false;
    }
    if h.rel_data_offset as u64 + h.rel_data_size as u64 > flash_len as u64 {
        return false;
    }
    if h.pkg_name_offset as u64 + h.pkg_name_size as u64 > flash_len as u64 {
        return false;
    }
    if h.text_offset as usize > flash_len || h.entry_offset as usize > flash_len {
        return false;
    }
    if h.got_size as u64 + h.data_size as u64 > mem_size as u64 {
        return false;
    }
    if h.bss_mem_offset as u64 + h.bss_size as u64 > mem_size as u64 {
        return false;
    }
    let dx: u64 = h.bss_mem_offset as u64 + h.bss_size as u64;
    let data_len: u64 = dx + ((8 - (dx % 8)) % 8);
    let sx: u64 = h.min_stack_len as u64;
    let stack_len: u64 = sx + ((8 - (sx % 8)) % 8);
    let ax: u64 = h.min_app_heap_len as u64;
    let app_heap_len: u64 = ax + ((8 - (ax % 8)) % 8);
    let kx: u64 = h.min_kernel_heap_len as u64;
    let kernel_heap_len: u64 = kx + ((8 - (kx % 8)) % 8);
    let app_slice: u64 = data_len + stack_len + app_heap_len + kernel_heap_len;
    if app_slice > mem_size as u64 {
        return false;
    }
    let reserved: u64 = 4 * (container_count as u64) + TASK_QUEUE_BYTES as u64;
    if app_heap_len + kernel_heap_len < reserved {
        return false;
    }
    let init_fn: u32 = flash_base + h.entry_offset;
    proof {
        assert((init_fn & 0x1 == 1) <==> (init_fn % 2 == 1)) by (bit_vector);
    }
    init_fn & 0x1 == 1
}

impl Process {
    /// Creates a process from the flash image `flash` living at address
    /// `flash_base` and the assigned RAM region of `mem_size` bytes at
    /// address `mem_base`: parses and bound-checks the header, loads and
    /// relocates the image, partitions the region into data, stack, heap
    /// and grant areas, reserves and empties one grant slot per registered
    /// container plus the task-queue storage, and enqueues the initial
    /// entry-point call. Returns the process with the flash and RAM sizes
    /// consumed, or no process — and nothing consumed — when any load-time
    /// check fails.
    #[verifier::rlimit(100)]
    pub fn create(
        flash: &[u8],
        flash_base: u32,
        mem_base: u32,
        mem_size: u32,
        container_count: usize,
        kernel: &mut Kernel,
    ) -> (r: (Option<Process>, u32, u32))
        requires
            1 <= mem_base,
            mem_base + mem_size + 7 <= u32::MAX,
            flash_base + flash@.len() <= u32::MAX,
            4 * container_count + TASK_QUEUE_BYTES <= u32::MAX,
            old(kernel)@ < usize::MAX,
        ensures
            r.0 is Some <==> create_ok(flash@, flash_base, mem_size, container_count),
            r.0 is None ==> r.1 == 0 && r.2 == 0 && final(kernel)@ == old(kernel)@,
            r.0 matches Some(p) ==> ({
                let h = header_of(flash@);
                let image = loaded_image(
                    h,
                    flash@,
                    mem_size as int,
                    mem_base,
                    (flash_base + h.text_offset) as u32,
                );
                &&& final(kernel)@ == old(kernel)@ + 1
                &&& r.1 == h.total_size
                &&& r.2 == app_slice_size_of(h)
                &&& p.wf()
                &&& p@.mem_base == mem_base
                &&& p@.mem.len() == app_slice_size_of(h)
                &&& p@.app_mem_start == mem_base + data_len_of(h)
                &&& p@.stack_heap_boundary == mem_base + data_len_of(h) + stack_len_of(h)
                &&& p@.app_memory_break == p@.stack_heap_boundary
                &&& p@.cur_stack == p@.stack_heap_boundary
                &&& p@.kernel_memory_break == mem_base + app_slice_size_of(h) - 4
                    * container_count - TASK_QUEUE_BYTES
                &&& p@.text == flash@.subrange(0, h.total_size as int)
                &&& p@.text_base == flash_base
                &&& p@.app_flash_code_start == flash_base + h.text_offset
                &&& p@.yield_pc == flash_base + h.entry_offset
                &&& p@.psr == 0x01000000
                &&& p@.state == State::Yielded
                &&& forall|i: int| 0 <= i < STORED_REG_COUNT ==> p@.stored_regs[i] == 0
                &&& forall|i: int|
                    0 <= i < MPU_REGION_SLOTS ==> p@.mpu_regions[i] == (0u32, 0u32)
                &&& p@.tasks == seq![
                    Task::FunctionCall(
                        FunctionCall {
                            r0: p@.app_mem_start,
                            r1: p@.app_memory_break,
                            r2: p@.kernel_memory_break,
                            r3: 0,
                            pc: p@.yield_pc,
                        },
                    ),
                ]
                &&& p@.package_name == flash@.subrange(
                    h.pkg_name_offset as int,
                    h.pkg_name_offset + h.pkg_name_size,
                )
                &&& p@.container_count == container_count
                &&& forall|i: int| 0 <= i < container_count ==> slot_word(p@, i) == 0
                &&& forall|j: int|
                    0 <= j < p@.mem.len() - 4 * container_count ==> p@.mem[j] == image[j]
            }),
    {
        let flash_len: usize = flash.len();
        let h = match Header::parse(flash) {
            None => { return (None, 0, 0) },
            Some(h) => h,
        };
        if !creation_allowed(&h, flash_len, flash_base, mem_size, container_count) {
            return (None, 0, 0);
        }
        let (mut ram, lr) = match load(&h, flash, flash_base, mem_base, mem_size) {
            Err(e) => {
                assert(e is RelocationOutOfBounds);
                return (None, 0, 0);
            },
            Ok(x) => x,
        };

        // Aligned reservations and the total slice the process needs.
        let sx: u64 = h.min_stack_len as u64;
        let stack_len: u64 = sx + ((8 - (sx % 8)) % 8);
        let ax: u64 = h.min_app_heap_len as u64;
        let app_heap_len: u64 = ax + ((8 - (ax % 8)) % 8);
        let kx: u64 = h.min_kernel_heap_len as u64;
        let kernel_heap_len: u64 = kx + ((8 - (kx % 8)) % 8);
        let app_slice: u64 = lr.data_len as u64 + stack_len + app_heap_len + kernel_heap_len;
        let reserved: u64 = 4 * (container_count as u64) + TASK_QUEUE_BYTES as u64;
        let init_fn: u32 = lr.init_fn;
        assert(app_slice == app_slice_size_of(header_of(flash@)) <= mem_size);
        assert(app_heap_len + kernel_heap_len >= reserved);

        // The process owns exactly its slice; empty every grant slot.
        let app_slice_us: usize = app_slice as usize;
        ram.truncate(app_slice_us);
        let ghost trunc = ram@;
        clear_top_words(&mut ram, container_count);

        let amb: u32 = (mem_base as u64 + lr.data_len as u64 + stack_len) as u32;
        let kmb: u32 = (mem_base as u64 + app_slice - reserved) as u32;

        let text = copy_prefix(flash, h.total_size as usize);
        let stored_regs = zero_words(STORED_REG_COUNT);
        let mpu_regions = empty_regions(MPU_REGION_SLOTS);

        // The initial task: call the entry point with the memory layout in
        // the argument registers.
        let mut tasks = TaskQueue::new();
        let enqueued = tasks.enqueue(
            Task::FunctionCall(
                FunctionCall { r0: lr.app_mem_start, r1: amb, r2: kmb, r3: 0, pc: init_fn },
            ),
        );
        assert(enqueued);
        kernel.add_work();

        let process = Process {
            memory: ram,
            mem_base,
            app_mem_start: lr.app_mem_start,
            stack_heap_boundary: amb,
            app_memory_break: amb,
            kernel_memory_break: kmb,
            cur_stack: amb,
            text,
            text_base: flash_base,
            app_flash_code_start: lr.app_flash_code_start,
            stored_regs,
            yield_pc: init_fn,
            psr: 0x01000000,
            state: State::Yielded,
            mpu_regions,
            tasks,
            package_name: lr.package_name,
            container_count,
        };
        proof {
            let m = process@;
            let h2 = header_of(flash@);
            assert(process.text@ =~= flash@.subrange(0, h2.total_size as int));
            assert(m.tasks =~= seq![
                Task::FunctionCall(
                    FunctionCall {
                        r0: m.app_mem_start,
                        r1: m.app_memory_break,
                        r2: m.kernel_memory_break,
                        r3: 0,
                        pc: m.yield_pc,
                    },
                ),
            ]);
            assert forall|q: int| 0 <= q < container_count implies slot_word(m, q) == 0 by {
                let so = slot_offset(m, q);
                assert(m.mem[so] == 0 && m.mem[so + 1] == 0 && m.mem[so + 2] == 0 && m.mem[so + 3]
                    == 0);
            }
        }
        (Some(process), h.total_size, app_slice as u32)
    }
}

/// The process after a whole sequence of break requests, applied oldest
/// first.
pub open spec fn apply_brks(m: ProcessModel, reqs: Seq<u32>) -> ProcessModel
    decreases reqs.len(),
{
    if reqs.len() == 0 {
        m
    } else {
        apply_brks(brk_next(m, reqs[0]), reqs.drop_first())
    }
}

/// For any sequence of break requests that all stay within
/// `[mem_base, kernel_memory_break)`, every request is accepted and returns
/// the break current when it was made, and afterwards the break equals the
/// last request while nothing else about the process has changed.
pub proof fn lemma_brk_run(m: ProcessModel, reqs: Seq<u32>)
    requires
        wf_model(m),
        forall|k: int| 0 <= k < reqs.len() ==> m.mem_base <= #[trigger] reqs[k] < m.kernel_memory_break,
    ensures
        reqs.len() > 0 ==> apply_brks(m, reqs) == (ProcessModel {
            app_memory_break: reqs.last(),
            ..m
        }),
        forall|k: int|
            0 <= k < reqs.len() ==> brk_result(apply_brks(m, reqs.take(k)), reqs[k]) == Ok::<
                u32,
                Error,
            >(apply_brks(m, reqs.take(k)).app_memory_break),
    decreases reqs.len(),
{
    if reqs.len() > 0 {
        let m1 = brk_next(m, reqs[0]);
        assert(m1 == (ProcessModel { app_memory_break: reqs[0], ..m }));
        assert(wf_model(m1));
        lemma_brk_run(m1, reqs.drop_first());
        if reqs.len() > 1 {
            assert(reqs.drop_first().last() == reqs.last());
        }
        assert forall|k: int|
            0 <= k < reqs.len() implies brk_result(apply_brks(m, reqs.take(k)), reqs[k]) == Ok::<
            u32,
            Error,
        >(apply_brks(m, reqs.take(k)).app_memory_break) by {
            if k == 0 {
                assert(reqs.take(0) =~= Seq::<u32>::empty());
                assert(apply_brks(m, reqs.take(0)) == m);
            } else {
                let t = reqs.take(k);
                assert(t[0] == reqs[0]);
                assert(t.drop_first() =~= reqs.drop_first().take(k - 1));
                assert(apply_brks(m, t) == apply_brks(m1, reqs.drop_first().take(k - 1)));
                assert(reqs.drop_first()[k - 1] == reqs[k]);
            }
        }
    }
}

} // verus!
