//! Queued units of work awaiting delivery to a process.
//!
//! A task is either a function call to inject as a callback or an
//! inter-process request. Each process holds a bounded FIFO of tasks;
//! enqueueing on a full queue fails observably rather than dropping
//! silently.

use vstd::prelude::*;

verus! {

/// Identity of an application process: its index in the process table.
#[derive(Clone, Copy, PartialEq, Eq, Structural, Debug)]
pub struct AppId {
    pub index: usize,
}

impl AppId {
    /// An identity naming the process-table entry at `index`.
    pub fn new(index: usize) -> (r: AppId)
        ensures
            r.index == index,
    {
        AppId { index }
    }

    /// The process-table index this identity names.
    pub fn idx(&self) -> (r: usize)
        ensures
            r == self.index,
    {
        self.index
    }
}

/// Direction of an inter-process request.
#[derive(Clone, Copy, PartialEq, Eq, Structural, Debug)]
pub enum IPCType {
    Service,
    Client,
}

/// A function call to be injected into a process as a callback: the four
/// argument registers and the program counter to start at.
#[derive(Clone, Copy, PartialEq, Eq, Structural, Debug)]
pub struct FunctionCall {
    pub r0: u32,
    pub r1: u32,
    pub r2: u32,
    pub r3: u32,
    pub pc: u32,
}

/// A queued unit of work, consumed exactly once by the context switch
/// engine.
#[derive(Clone, Copy, PartialEq, Eq, Structural, Debug)]
pub enum Task {
    FunctionCall(FunctionCall),
    IPC(AppId, IPCType),
}

/// Fixed capacity of every per-process task queue.
pub const TASK_QUEUE_CAPACITY: usize = 10;

/// A bounded FIFO of pending tasks for one process.
pub struct TaskQueue {
    items: Vec<Task>,
}

impl View for TaskQueue {
    type V = Seq<Task>;

    closed spec fn view(&self) -> Seq<Task> {
        self.items@
    }
}

impl TaskQueue {
    /// The queue never holds more than its fixed capacity.
    pub open spec fn inv(&self) -> bool {
        self@.len() <= TASK_QUEUE_CAPACITY
    }

    /// An empty queue.
    pub fn new() -> (r: TaskQueue)
        ensures
            r.inv(),
            r@ == Seq::<Task>::empty(),
    {
        let q = TaskQueue { items: Vec::new() };
        proof {
            assert(q@ =~= Seq::<Task>::empty());
        }
        q
    }

    /// Number of queued tasks.
    pub fn len(&self) -> (r: usize)
        ensures
            r == self@.len(),
    {
        self.items.len()
    }

    /// Appends `t` at the back; fails, changing nothing, exactly when the
    /// queue is full.
    pub fn enqueue(&mut self, t: Task) -> (r: bool)
        requires
            old(self).inv(),
        ensures
            final(self).inv(),
            r <==> old(self)@.len() < TASK_QUEUE_CAPACITY,
            r ==> final(self)@ == old(self)@.push(t),
            !r ==> *final(self) == *old(self),
    {
        if self.items.len() < TASK_QUEUE_CAPACITY {
            self.items.push(t);
            true
        } else {
            false
        }
    }

    /// Pops the oldest task, or returns nothing from an empty queue.
    pub fn dequeue(&mut self) -> (r: Option<Task>)
        requires
            old(self).inv(),
        ensures
            final(self).inv(),
            old(self)@.len() == 0 ==> r is None && *final(self) == *old(self),
            old(self)@.len() > 0 ==> r == Some(old(self)@[0]) && final(self)@ == old(
                self,
            )@.subrange(1, old(self)@.len() as int),
    {
        if self.items.len() == 0 {
            None
        } else {
            let t = self.items.remove(0);
            proof {
                assert(self@ =~= old(self)@.subrange(1, old(self)@.len() as int));
            }
            Some(t)
        }
    }
}

} // verus!
