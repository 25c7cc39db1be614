use proc_core::kernel::processes_blocked;
use proc_core::kernel::schedule;
use proc_core::kernel::Kernel;
use proc_core::mpu::closest_power_of_two;
use proc_core::process::Error;
use proc_core::process::Process;
use proc_core::process::State;
use proc_core::task::AppId;
use proc_core::task::FunctionCall;
use proc_core::task::IPCType;
use proc_core::task::Task;

const FLASH_BASE: u32 = 0x00010000;
const MEM_BASE: u32 = 0x20000000;
const POOL: u32 = 4096;
const CONTAINERS: usize = 4;

fn word_into(b: &mut Vec<u8>, off: usize, v: u32) {
    let bytes = v.to_le_bytes();
    for i in 0..4 {
        b[off + i] = bytes[i];
    }
}

/// A minimal valid 76-byte image: no segments, no relocations, entry offset
/// 41 (odd, so Thumb-tagged from an even flash base), minimum stack 256,
/// application heap 256, kernel heap 128.
fn minimal_image() -> Vec<u8> {
    let fields: [u32; 18] = [1, 76, 41, 0, 0, 0, 0, 0, 0, 0, 0, 0, 0, 256, 256, 128, 0, 0];
    let mut v = vec![0u8; 76];
    let mut ck = 0u32;
    for (i, f) in fields.iter().enumerate() {
        word_into(&mut v, i * 4, *f);
        ck ^= *f;
    }
    word_into(&mut v, 72, ck);
    v
}

fn fresh_process(kernel: &mut Kernel) -> Process {
    let flash = minimal_image();
    let (p, flash_used, ram_used) =
        Process::create(&flash, FLASH_BASE, MEM_BASE, POOL, CONTAINERS, kernel);
    assert_eq!(flash_used, 76);
    // data 0 + stack 256 + app heap 256 + kernel heap 128.
    assert_eq!(ram_used, 640);
    p.expect("the minimal image must produce a process")
}

#[test]
fn create_end_to_end_queues_entry_call() {
    let mut kernel = Kernel::new();
    assert!(processes_blocked(&kernel));
    let mut p = fresh_process(&mut kernel);
    assert!(!processes_blocked(&kernel));

    assert_eq!(p.mem_start(), MEM_BASE);
    assert_eq!(p.mem_end(), MEM_BASE + 640);
    assert_eq!(p.current_state(), State::Yielded);

    let stats = p.statistics();
    assert_eq!(stats.events_queued, 1);
    // Grant bookkeeping: 4 slots of 4 bytes plus 240 queue bytes.
    assert_eq!(stats.grant_start, MEM_BASE + 640 - 256);
    assert_eq!(stats.heap_top, MEM_BASE + 256);

    let task = p.dequeue_task(&mut kernel).expect("one task is queued");
    match task {
        Task::FunctionCall(call) => {
            assert_eq!(call.pc, FLASH_BASE + 41);
            assert_eq!(call.r0, MEM_BASE);
            assert_eq!(call.r1, MEM_BASE + 256);
            assert_eq!(call.r2, MEM_BASE + 640 - 256);
            assert_eq!(call.r3, 0);
        },
        Task::IPC(_, _) => panic!("the initial task is a function call"),
    }
    assert!(processes_blocked(&kernel));
}

#[test]
fn create_rejects_oversized_image() {
    let mut kernel = Kernel::new();
    let flash = minimal_image();
    // data 0 + 256 + 256 + 128 = 640 bytes needed; 639 are not enough.
    let (p, flash_used, ram_used) =
        Process::create(&flash, FLASH_BASE, MEM_BASE, 639, CONTAINERS, &mut kernel);
    assert!(p.is_none());
    assert_eq!(flash_used, 0);
    assert_eq!(ram_used, 0);
    assert!(processes_blocked(&kernel));
}

#[test]
fn create_rejects_even_entry_point() {
    let mut kernel = Kernel::new();
    let fields: [u32; 18] = [1, 76, 40, 0, 0, 0, 0, 0, 0, 0, 0, 0, 0, 256, 256, 128, 0, 0];
    let mut flash = vec![0u8; 76];
    let mut ck = 0u32;
    for (i, f) in fields.iter().enumerate() {
        word_into(&mut flash, i * 4, *f);
        ck ^= *f;
    }
    word_into(&mut flash, 72, ck);
    let (p, _, _) = Process::create(&flash, FLASH_BASE, MEM_BASE, POOL, CONTAINERS, &mut kernel);
    assert!(p.is_none());
}

#[test]
fn brk_tracks_last_accepted_value_and_returns_prior() {
    let mut kernel = Kernel::new();
    let mut p = fresh_process(&mut kernel);
    let initial = MEM_BASE + 256;
    let grant_bottom = MEM_BASE + 384;

    assert_eq!(p.brk(MEM_BASE + 300), Ok(initial));
    assert_eq!(p.brk(MEM_BASE + 20), Ok(MEM_BASE + 300));
    assert_eq!(p.brk(grant_bottom), Ok(MEM_BASE + 20));
    assert_eq!(p.statistics().heap_top, grant_bottom);

    // Outside the memory slice: out of bounds, break unchanged.
    assert_eq!(p.brk(MEM_BASE - 1), Err(Error::AddressOutOfBounds));
    assert_eq!(p.brk(MEM_BASE + 640), Err(Error::AddressOutOfBounds));
    assert_eq!(p.statistics().heap_top, grant_bottom);

    // Above the grant bottom: out of memory, break unchanged.
    assert_eq!(p.brk(grant_bottom + 1), Err(Error::OutOfMemory));
    assert_eq!(p.statistics().heap_top, grant_bottom);
}

#[test]
fn sbrk_moves_break_by_signed_distance() {
    let mut kernel = Kernel::new();
    let mut p = fresh_process(&mut kernel);
    let initial = MEM_BASE + 256;
    assert_eq!(p.sbrk(16), Ok(initial));
    assert_eq!(p.sbrk(-8), Ok(initial + 16));
    assert_eq!(p.statistics().heap_top, initial + 8);
    assert_eq!(p.sbrk(100000), Err(Error::AddressOutOfBounds));
}

#[test]
fn grant_alloc_bumps_down_and_exhausts_to_none() {
    let mut kernel = Kernel::new();
    let mut p = fresh_process(&mut kernel);
    let grant_bottom = MEM_BASE + 384;
    assert_eq!(p.grant_alloc(64), Some(grant_bottom - 64));
    assert_eq!(p.grant_alloc(32), Some(grant_bottom - 96));
    // Only 32 of the 128 grant bytes remain above the application break.
    assert_eq!(p.grant_alloc(64), None);
    // Freeing reclaims nothing by design.
    p.free(grant_bottom - 64);
    assert_eq!(p.grant_alloc(16), Some(grant_bottom - 112));
}

#[test]
fn container_for_or_alloc_is_idempotent() {
    let mut kernel = Kernel::new();
    let mut p = fresh_process(&mut kernel);
    let first = p.container_for_or_alloc(0, 8).expect("grant has room");
    let again = p.container_for_or_alloc(0, 8).expect("slot is filled");
    assert_eq!(first, again);
    let third = p.container_for_or_alloc(0, 16).expect("slot is filled");
    assert_eq!(first, third);
}

#[test]
fn container_for_or_alloc_distinct_indices_disjoint() {
    let mut kernel = Kernel::new();
    let mut p = fresh_process(&mut kernel);
    let a = p.container_for_or_alloc(0, 8).unwrap();
    let b = p.container_for_or_alloc(1, 8).unwrap();
    assert_ne!(a, b);
    assert!(b + 8 <= a || a + 8 <= b);
}

#[test]
fn container_for_names_reserved_slots() {
    let mut kernel = Kernel::new();
    let p = fresh_process(&mut kernel);
    let end = MEM_BASE + 640;
    assert_eq!(p.container_for(0), end - 4);
    assert_eq!(p.container_for(3), end - 16);
}

#[test]
fn in_exposed_bounds_checks_the_slice() {
    let mut kernel = Kernel::new();
    let p = fresh_process(&mut kernel);
    assert!(p.in_exposed_bounds(MEM_BASE, 640));
    assert!(p.in_exposed_bounds(MEM_BASE + 100, 1));
    assert!(!p.in_exposed_bounds(MEM_BASE - 1, 1));
    assert!(!p.in_exposed_bounds(MEM_BASE + 640, 1));
    assert!(!p.in_exposed_bounds(MEM_BASE, 641));
}

#[test]
fn task_queue_is_fifo_and_counter_tracks_work() {
    let mut kernel = Kernel::new();
    let p = fresh_process(&mut kernel);
    let mut procs: Vec<Option<Process>> = vec![Some(p)];
    let id = AppId::new(0);

    let a = FunctionCall { r0: 1, r1: 0, r2: 0, r3: 0, pc: 0x11 };
    let b = FunctionCall { r0: 2, r1: 0, r2: 0, r3: 0, pc: 0x22 };
    let c = FunctionCall { r0: 3, r1: 0, r2: 0, r3: 0, pc: 0x33 };
    assert!(schedule(&mut procs, &mut kernel, a, id));
    assert!(schedule(&mut procs, &mut kernel, b, id));
    assert!(schedule(&mut procs, &mut kernel, c, id));
    assert!(!schedule(&mut procs, &mut kernel, a, AppId::new(1)));

    // Counter: one initial task plus three scheduled, no running process.
    let p = procs[0].as_mut().unwrap();
    assert_eq!(p.statistics().events_queued, 4);
    assert!(!processes_blocked(&kernel));

    // The initial entry call comes out first, then A, B, C in order.
    let _ = p.dequeue_task(&mut kernel).unwrap();
    assert_eq!(p.dequeue_task(&mut kernel), Some(Task::FunctionCall(a)));
    assert_eq!(p.dequeue_task(&mut kernel), Some(Task::FunctionCall(b)));
    assert_eq!(p.dequeue_task(&mut kernel), Some(Task::FunctionCall(c)));
    assert_eq!(p.dequeue_task(&mut kernel), None);
    assert!(processes_blocked(&kernel));
}

#[test]
fn schedule_fails_observably_on_a_full_queue() {
    let mut kernel = Kernel::new();
    let p = fresh_process(&mut kernel);
    let mut procs: Vec<Option<Process>> = vec![Some(p), None];
    let id = AppId::new(0);
    let call = FunctionCall { r0: 7, r1: 0, r2: 0, r3: 0, pc: 0x11 };

    // One initial task is queued; nine more fill the queue of ten.
    for _ in 0..9 {
        assert!(schedule(&mut procs, &mut kernel, call, id));
    }
    assert!(!schedule(&mut procs, &mut kernel, call, id));
    assert!(!schedule(&mut procs, &mut kernel, call, AppId::new(1)));
    assert_eq!(procs[0].as_ref().unwrap().statistics().events_queued, 10);
}

#[test]
fn schedule_ipc_enqueues_request() {
    let mut kernel = Kernel::new();
    let mut p = fresh_process(&mut kernel);
    assert!(p.schedule_ipc(AppId::new(3), IPCType::Service, &mut kernel));
    let _ = p.dequeue_task(&mut kernel);
    match p.dequeue_task(&mut kernel) {
        Some(Task::IPC(from, IPCType::Service)) => assert_eq!(from.idx(), 3),
        other => panic!("expected the queued request, got {:?}", other),
    }
}

#[test]
fn yield_state_suspends_and_counts_work_done() {
    let mut kernel = Kernel::new();
    let mut p = fresh_process(&mut kernel);
    let call = match p.dequeue_task(&mut kernel).unwrap() {
        Task::FunctionCall(c) => c,
        Task::IPC(_, _) => panic!("the initial task is a function call"),
    };
    assert!(processes_blocked(&kernel));

    p.push_function_call(call, &mut kernel);
    assert_eq!(p.current_state(), State::Running);
    assert!(!processes_blocked(&kernel));

    p.yield_state(&mut kernel);
    assert_eq!(p.current_state(), State::Yielded);
    assert!(processes_blocked(&kernel));

    // Yielding twice is idempotent.
    p.yield_state(&mut kernel);
    assert_eq!(p.current_state(), State::Yielded);
    assert!(processes_blocked(&kernel));
}

#[test]
fn push_function_call_builds_the_frame() {
    let mut kernel = Kernel::new();
    let mut p = fresh_process(&mut kernel);
    let stack_before = p.statistics().stack_bottom;
    let call = FunctionCall { r0: 5, r1: 6, r2: 7, r3: 8, pc: FLASH_BASE + 100 };
    p.push_function_call(call, &mut kernel);

    assert_eq!(p.statistics().stack_bottom, stack_before - 32);
    assert_eq!(p.r0(), 5);
    assert_eq!(p.r1(), 6);
    assert_eq!(p.r2(), 7);
    assert_eq!(p.r3(), 8);
    // The return address resumes where the process last suspended,
    // Thumb-tagged; the initial yield program counter is the entry point.
    assert_eq!(p.lr(), (FLASH_BASE + 41) | 1);
}

#[test]
fn pop_syscall_stack_restores_saved_context() {
    let mut kernel = Kernel::new();
    let mut p = fresh_process(&mut kernel);
    let stack_before = p.statistics().stack_bottom;
    let call = FunctionCall { r0: 0, r1: 0, r2: 0, r3: 0, pc: FLASH_BASE + 100 };
    p.push_function_call(call, &mut kernel);
    p.pop_syscall_stack();
    let stats = p.statistics();
    assert_eq!(stats.stack_bottom, stack_before);
    // The saved program counter was the injected, Thumb-tagged callback.
    p.yield_state(&mut kernel);
    assert_eq!(p.statistics().pc, (FLASH_BASE + 100) | 1);
}

#[test]
fn set_r0_overwrites_the_return_slot() {
    let mut kernel = Kernel::new();
    let mut p = fresh_process(&mut kernel);
    let call = FunctionCall { r0: 1, r1: 2, r2: 3, r3: 4, pc: FLASH_BASE + 100 };
    p.push_function_call(call, &mut kernel);
    p.set_r0(0xDEAD);
    assert_eq!(p.r0(), 0xDEAD);
    assert_eq!(p.r1(), 2);
}

#[test]
fn svc_number_reads_instruction_before_saved_pc() {
    let mut kernel = Kernel::new();
    let mut p = fresh_process(&mut kernel);
    // The fresh frame holds zeroed words, which point at no text.
    assert_eq!(p.svc_number(), None);
    // The frame will hold the Thumb-tagged program counter text + 55; the
    // instruction word before it starts at image offset 53, the second byte
    // of the minimum-stack field (256), so the call number reads as 1.
    let call = FunctionCall { r0: 0, r1: 0, r2: 0, r3: 0, pc: FLASH_BASE + 54 };
    p.push_function_call(call, &mut kernel);
    assert_eq!(p.svc_number(), Some(1));
}

#[test]
fn record_resumed_stack_validates_the_pointer() {
    let mut kernel = Kernel::new();
    let mut p = fresh_process(&mut kernel);
    assert!(p.record_resumed_stack(MEM_BASE + 100));
    assert_eq!(p.statistics().stack_bottom, MEM_BASE + 100);
    assert!(!p.record_resumed_stack(MEM_BASE - 4));
    assert_eq!(p.statistics().stack_bottom, MEM_BASE + 100);
}

#[test]
fn statistics_reports_the_memory_map() {
    let mut kernel = Kernel::new();
    let p = fresh_process(&mut kernel);
    let s = p.statistics();
    assert_eq!(s.state, State::Yielded);
    assert_eq!(s.mem_start, MEM_BASE);
    assert_eq!(s.mem_end, MEM_BASE + 640);
    assert_eq!(s.grant_start, MEM_BASE + 384);
    assert_eq!(s.grant_size, 256);
    assert_eq!(s.heap_top, MEM_BASE + 256);
    assert_eq!(s.unallocated_size, 128);
    assert_eq!(s.stack_bottom, MEM_BASE + 256);
    assert_eq!(s.heapstack_size, 0);
    assert_eq!(s.data_end, MEM_BASE);
    assert_eq!(s.static_data_size, 0);
    assert_eq!(s.text_start, FLASH_BASE);
    assert_eq!(s.text_size, 76);
    assert_eq!(s.pc, FLASH_BASE + 41);
    assert_eq!(
        s.pc_relative,
        0x80000000 | (0xFFFFFFFE & (FLASH_BASE + 41 - FLASH_BASE))
    );
}

#[test]
fn add_mpu_region_rejects_bad_size_and_alignment() {
    let mut kernel = Kernel::new();
    let mut p = fresh_process(&mut kernel);
    // 12 is not a power of two.
    assert!(!p.add_mpu_region(0x2000, 12));
    // 0x1003 is not 16-byte aligned.
    assert!(!p.add_mpu_region(0x1003, 16));
    // 8 is a power of two but below the 16-byte hardware minimum.
    assert!(!p.add_mpu_region(0x2000, 8));
    assert_eq!(p.mpu_regions[0], (0, 0));
}

#[test]
fn add_mpu_region_fills_grows_and_caps_slots() {
    let mut kernel = Kernel::new();
    let mut p = fresh_process(&mut kernel);
    // First acceptance fills the first empty slot: 32 = 2^(4+1).
    assert!(p.add_mpu_region(0x2000, 32));
    assert_eq!(p.mpu_regions[0], (0x2000, 4));
    // The same base with a larger size grows the entry in place.
    assert!(p.add_mpu_region(0x2000, 64));
    assert_eq!(p.mpu_regions[0], (0x2000, 5));
    // A smaller size never shrinks it.
    assert!(p.add_mpu_region(0x2000, 32));
    assert_eq!(p.mpu_regions[0], (0x2000, 5));
    // Four more distinct regions fill the remaining slots.
    assert!(p.add_mpu_region(0x4000, 32));
    assert!(p.add_mpu_region(0x6000, 32));
    assert!(p.add_mpu_region(0x8000, 32));
    assert!(p.add_mpu_region(0xA000, 32));
    // A sixth distinct region is rejected: capacity is fixed at five.
    assert!(!p.add_mpu_region(0xC000, 32));
}

#[test]
fn setup_mpu_programs_the_three_builtin_regions() {
    let mut kernel = Kernel::new();
    let p = fresh_process(&mut kernel);
    let regions = p.setup_mpu();
    assert_eq!(regions.len(), 8);

    // Region 0: the whole 640-byte data segment, bit length 10.
    assert_eq!(regions[0].index, 0);
    assert_eq!(regions[0].base_address, MEM_BASE);
    assert_eq!(regions[0].size_exponent, 10);
    assert!(regions[0].enabled);
    assert_eq!(regions[0].permission_bits, 0b011);

    // Region 1: the 76-byte text segment, bit length 7 minus 2.
    assert_eq!(regions[1].index, 1);
    assert_eq!(regions[1].base_address, FLASH_BASE);
    assert_eq!(regions[1].size_exponent, 5);
    assert!(regions[1].enabled);
    assert_eq!(regions[1].permission_bits, 0b111);

    // Region 2: the 256-byte grant region, disabled for the application,
    // 256 = 2^(7+1) counted down from the memory end.
    assert_eq!(regions[2].index, 2);
    assert_eq!(regions[2].base_address, MEM_BASE + 640 - 256);
    assert_eq!(regions[2].size_exponent, 7);
    assert!(!regions[2].enabled);
    assert_eq!(regions[2].permission_bits, 0b001);

    // Regions 3 to 7 mirror the (empty) dynamic slots.
    for i in 0..5 {
        assert_eq!(regions[3 + i].index, 3 + i as u32);
        assert_eq!(regions[3 + i].base_address, 0);
        assert_eq!(regions[3 + i].size_exponent, 0);
        assert!(regions[3 + i].enabled);
        assert_eq!(regions[3 + i].permission_bits, 0b011);
    }
}

#[test]
fn setup_mpu_covers_registered_regions() {
    let mut kernel = Kernel::new();
    let mut p = fresh_process(&mut kernel);
    assert!(p.add_mpu_region(0x2000, 32));
    let regions = p.setup_mpu();
    assert_eq!(regions[3].base_address, 0x2000);
    assert_eq!(regions[3].size_exponent, 4);
}

#[test]
fn closest_power_of_two_rounds_up() {
    assert_eq!(closest_power_of_two(1), 1);
    assert_eq!(closest_power_of_two(12), 16);
    assert_eq!(closest_power_of_two(16), 16);
    assert_eq!(closest_power_of_two(240), 256);
    assert_eq!(closest_power_of_two(0x80000000), 0x80000000);
    assert_eq!(closest_power_of_two(0), 0);
}
