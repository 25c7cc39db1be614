//! Context switch engine: builds and reads the exception frame used to
//! enter and resume application code, and decodes system-call requests from
//! it.
//!
//! The frame is eight 32-bit words below the recorded stack pointer, low to
//! high: the argument registers r0 to r3, a scratch register, the saved
//! return address, the saved program counter and the saved status register.
//! The architecture-specific transfer of control itself is outside this
//! library; [`Process::record_resumed_stack`] records the stack pointer it
//! hands back.

use vstd::prelude::*;

use crate::kernel::Kernel;
use crate::process::mem_end;
use crate::process::Process;
use crate::process::ProcessModel;
use crate::process::State;
use crate::task::FunctionCall;
use crate::word::le_word;
use crate::word::read_word_vec;
use crate::word::store_word;
use crate::word::write_word;

verus! {

/// The 32-bit word in slot `i` of the exception frame at the current stack
/// pointer.
pub open spec fn frame_word(m: ProcessModel, i: int) -> u32 {
    le_word(m.mem, m.cur_stack - m.mem_base + 4 * i)
}

/// The eight-word exception frame at the current stack pointer lies within
/// the process's RAM slice.
pub open spec fn frame_readable(m: ProcessModel) -> bool {
    m.mem_base <= m.cur_stack && m.cur_stack + 32 <= mem_end(m)
}

/// Whether the frame names a decodable system call: the saved program
/// counter points just past a 16-bit instruction word inside the text
/// segment.
pub open spec fn svc_decodable(m: ProcessModel) -> bool {
    &&& frame_readable(m)
    &&& m.text_base + 2 <= frame_word(m, 6)
    &&& frame_word(m, 6) <= m.text_base + m.text.len()
}

/// The data shown in a process's human-readable memory-map report: the run
/// state, queued-task count, the boundary address and byte size of each
/// layout region from the grant at the top down to the text segment, and
/// the current and flash-relative program counter.
#[derive(Clone, Copy, PartialEq, Eq, Structural, Debug)]
pub struct ProcessStatistics {
    pub state: State,
    pub events_queued: usize,
    pub mem_end: u32,
    pub mem_start: u32,
    pub grant_start: u32,
    pub grant_size: u32,
    pub heap_top: u32,
    pub unallocated_size: u32,
    pub stack_bottom: u32,
    pub heapstack_size: u32,
    pub data_end: u32,
    pub stack_remaining_size: u32,
    pub static_data_size: u32,
    pub text_start: u32,
    pub text_end: u32,
    pub text_size: u32,
    pub pc: u32,
    pub pc_relative: u32,
}

impl Process {
    /// Builds the register frame for injecting `callback` directly below
    /// the current stack pointer: its four arguments, a program counter
    /// Thumb-tagged to `callback.pc`, and a return address Thumb-tagged to
    /// the saved yield program counter, so that when the injected call
    /// returns, control resumes where the process last suspended. Marks the
    /// process running and counts the new work.
    #[verifier::rlimit(100)]
    pub fn push_function_call(&mut self, callback: FunctionCall, kernel: &mut Kernel)
        requires
            old(self).wf(),
            old(self)@.mem_base + 32 <= old(self)@.cur_stack,
            old(kernel)@ < usize::MAX,
        ensures
            final(self).wf(),
            final(kernel)@ == old(kernel)@ + 1,
            ({
                let m = old(self)@;
                let m2 = final(self)@;
                let f = m2.cur_stack - m.mem_base;
                &&& m2 == (ProcessModel {
                    mem: m2.mem,
                    cur_stack: (m.cur_stack - 32) as u32,
                    state: State::Running,
                    ..m
                })
                &&& m2.mem.len() == m.mem.len()
                &&& frame_word(m2, 0) == callback.r0
                &&& frame_word(m2, 1) == callback.r1
                &&& frame_word(m2, 2) == callback.r2
                &&& frame_word(m2, 3) == callback.r3
                &&& frame_word(m2, 5) == m.yield_pc | 1
                &&& frame_word(m2, 6) == callback.pc | 1
                &&& frame_word(m2, 7) == m.psr
                &&& forall|j: int|
                    0 <= j < m.mem.len() && !(f <= j < f + 16) && !(f + 20 <= j < f + 32)
                        ==> m2.mem[j] == m.mem[j]
            }),
    {
        let base_idx: usize = (self.cur_stack - self.mem_base) as usize - 32;
        write_word(&mut self.memory, base_idx + 28, self.psr);
        write_word(&mut self.memory, base_idx + 24, callback.pc | 1);
        write_word(&mut self.memory, base_idx + 20, self.yield_pc | 1);
        write_word(&mut self.memory, base_idx, callback.r0);
        write_word(&mut self.memory, base_idx + 4, callback.r1);
        write_word(&mut self.memory, base_idx + 8, callback.r2);
        write_word(&mut self.memory, base_idx + 12, callback.r3);
        self.cur_stack = self.cur_stack - 32;
        self.state = State::Running;
        kernel.add_work();
    }

    /// Reads the saved program counter and status back from the frame and
    /// advances the recorded stack pointer past it.
    pub fn pop_syscall_stack(&mut self)
        requires
            old(self).wf(),
            frame_readable(old(self)@),
        ensures
            final(self).wf(),
            final(self)@ == (ProcessModel {
                yield_pc: frame_word(old(self)@, 6),
                psr: frame_word(old(self)@, 7),
                cur_stack: (old(self)@.cur_stack + 32) as u32,
                ..old(self)@
            }),
    {
        let idx: usize = (self.cur_stack - self.mem_base) as usize;
        self.yield_pc = read_word_vec(&self.memory, idx + 24);
        self.psr = read_word_vec(&self.memory, idx + 28);
        self.cur_stack = self.cur_stack + 32;
    }

    /// Records the application stack pointer observed when control
    /// re-entered the kernel after a switch to the process; a pointer
    /// outside the process's memory is refused and changes nothing.
    pub fn record_resumed_stack(&mut self, psp: u32) -> (r: bool)
        requires
            old(self).wf(),
        ensures
            final(self).wf(),
            r <==> old(self)@.mem_base <= psp <= mem_end(old(self)@),
            r ==> final(self)@ == (ProcessModel { cur_stack: psp, ..old(self)@ }),
            !r ==> final(self)@ == old(self)@,
    {
        let end: u32 = self.mem_end();
        if self.mem_base <= psp && psp <= end {
            self.cur_stack = psp;
            true
        } else {
            false
        }
    }

    /// The saved return address (link register) of the frame.
    pub fn lr(&self) -> (r: u32)
        requires
            self.wf(),
            frame_readable(self@),
        ensures
            r == frame_word(self@, 5),
    {
        let idx: usize = (self.cur_stack - self.mem_base) as usize;
        read_word_vec(&self.memory, idx + 20)
    }

    /// The first argument register of the frame.
    pub fn r0(&self) -> (r: u32)
        requires
            self.wf(),
            frame_readable(self@),
        ensures
            r == frame_word(self@, 0),
    {
        let idx: usize = (self.cur_stack - self.mem_base) as usize;
        read_word_vec(&self.memory, idx)
    }

    /// The second argument register of the frame.
    pub fn r1(&self) -> (r: u32)
        requires
            self.wf(),
            frame_readable(self@),
        ensures
            r == frame_word(self@, 1),
    {
        let idx: usize = (self.cur_stack - self.mem_base) as usize;
        read_word_vec(&self.memory, idx + 4)
    }

    /// The third argument register of the frame.
    pub fn r2(&self) -> (r: u32)
        requires
            self.wf(),
            frame_readable(self@),
        ensures
            r == frame_word(self@, 2),
    {
        let idx: usize = (self.cur_stack - self.mem_base) as usize;
        read_word_vec(&self.memory, idx + 8)
    }

    /// The fourth argument register of the frame.
    pub fn r3(&self) -> (r: u32)
        requires
            self.wf(),
            frame_readable(self@),
        ensures
            r == frame_word(self@, 3),
    {
        let idx: usize = (self.cur_stack - self.mem_base) as usize;
        read_word_vec(&self.memory, idx + 12)
    }

    /// Writes the system call's return value into the frame's first
    /// argument register, where the application reads results.
    pub fn set_r0(&mut self, val: u32)
        requires
            old(self).wf(),
            frame_readable(old(self)@),
        ensures
            final(self).wf(),
            final(self)@ == (ProcessModel {
                mem: store_word(
                    old(self)@.mem,
                    old(self)@.cur_stack - old(self)@.mem_base,
                    val,
                ),
                ..old(self)@
            }),
            frame_word(final(self)@, 0) == val,
    {
        let idx: usize = (self.cur_stack - self.mem_base) as usize;
        write_word(&mut self.memory, idx, val);
    }

    /// The data of the diagnostic memory-map report: every size is the
    /// difference of the two boundaries beside it, wrapping as the 32-bit
    /// hardware would where the layout does not order them.
    pub fn statistics(&self) -> (r: ProcessStatistics)
        requires
            self.wf(),
            self@.state == State::Running ==> frame_readable(self@),
        ensures
            ({
                let m = self@;
                let pc = if m.state == State::Running {
                    frame_word(m, 5)
                } else {
                    m.yield_pc
                };
                &&& r.state == m.state
                &&& r.events_queued == m.tasks.len()
                &&& r.mem_end == mem_end(m)
                &&& r.mem_start == m.mem_base
                &&& r.grant_start == m.kernel_memory_break
                &&& r.grant_size == mem_end(m) - m.kernel_memory_break
                &&& r.heap_top == m.app_memory_break
                &&& r.unallocated_size == m.kernel_memory_break - m.app_memory_break
                &&& r.stack_bottom == m.cur_stack
                &&& r.heapstack_size == m.app_memory_break.wrapping_sub(m.cur_stack)
                &&& r.data_end == m.app_mem_start
                &&& r.stack_remaining_size == m.cur_stack.wrapping_sub(m.app_mem_start)
                &&& r.static_data_size == m.app_mem_start - m.mem_base
                &&& r.text_start == m.text_base
                &&& r.text_end == m.text_base + m.text.len()
                &&& r.text_size == m.text.len()
                &&& r.pc == pc
                &&& r.pc_relative == 0x80000000u32 | (0xFFFFFFFEu32 & pc.wrapping_sub(
                    m.app_flash_code_start,
                ))
            }),
    {
        let pc: u32 = if self.current_state() == State::Running {
            self.lr()
        } else {
            self.yield_pc
        };
        let end: u32 = self.mem_end();
        ProcessStatistics {
            state: self.current_state(),
            events_queued: self.tasks.len(),
            mem_end: end,
            mem_start: self.mem_base,
            grant_start: self.kernel_memory_break,
            grant_size: end - self.kernel_memory_break,
            heap_top: self.app_memory_break,
            unallocated_size: self.kernel_memory_break - self.app_memory_break,
            stack_bottom: self.cur_stack,
            heapstack_size: self.app_memory_break.wrapping_sub(self.cur_stack),
            data_end: self.app_mem_start,
            stack_remaining_size: self.cur_stack.wrapping_sub(self.app_mem_start),
            static_data_size: self.app_mem_start - self.mem_base,
            text_start: self.text_base,
            text_end: self.text_base + self.text.len() as u32,
            text_size: self.text.len() as u32,
            pc,
            pc_relative: 0x80000000u32 | (0xFFFFFFFEu32 & pc.wrapping_sub(
                self.app_flash_code_start,
            )),
        }
    }

    /// Decodes the system-call identifier: the low byte of the 16-bit
    /// instruction word immediately preceding the saved program counter,
    /// read from the text segment. Returns nothing when the frame or the
    /// saved program counter does not point at decodable text.
    pub fn svc_number(&self) -> (r: Option<u8>)
        requires
            self.wf(),
        ensures
            r is Some <==> svc_decodable(self@),
            svc_decodable(self@) ==> r == Some(
                self@.text[frame_word(self@, 6) - 2 - self@.text_base],
            ),
    {
        let end: u32 = self.mem_end();
        if self.cur_stack as u64 + 32 > end as u64 {
            return None;
        }
        let idx: usize = (self.cur_stack - self.mem_base) as usize;
        let pc = read_word_vec(&self.memory, idx + 24);
        if pc as u64 >= self.text_base as u64 + 2 && pc as u64 <= self.text_base as u64
            + self.text.len() as u64 {
            let off: usize = (pc - 2 - self.text_base) as usize;
            Some(self.text[off])
        } else {
            None
        }
    }
}

} // verus!
