//! Kernel-wide scheduling state: the outstanding-work counter, scheduling a
//! callback onto a process, and the run/suspend transitions that keep the
//! counter in step with every process's queue length and run state.
//!
//! The counter counts queued tasks plus processes in the `Running` state;
//! the scheduler may let the device enter a low-power wait exactly when it
//! is zero. The kernel is single-threaded, so the counter and the queues
//! need no locking here; a multi-threaded port must serialize them.

use vstd::prelude::*;

use crate::process::Process;
use crate::process::ProcessModel;
use crate::process::State;
use crate::task::AppId;
use crate::task::FunctionCall;
use crate::task::IPCType;
use crate::task::Task;
use crate::task::TASK_QUEUE_CAPACITY;

verus! {

/// The scheduler context owned by the top-level run loop: the current
/// number of enqueued callbacks plus processes in the `Running` state.
pub struct Kernel {
    have_work: usize,
}

impl View for Kernel {
    type V = nat;

    closed spec fn view(&self) -> nat {
        self.have_work as nat
    }
}

impl Kernel {
    /// A kernel with no outstanding work.
    pub fn new() -> (r: Kernel)
        ensures
            r@ == 0,
    {
        Kernel { have_work: 0 }
    }

    /// Records one more outstanding unit of work.
    pub(crate) fn add_work(&mut self)
        requires
            old(self)@ < usize::MAX,
        ensures
            final(self)@ == old(self)@ + 1,
    {
        self.have_work = self.have_work + 1;
    }

    /// Records one unit of work as done.
    pub(crate) fn remove_work(&mut self)
        requires
            old(self)@ >= 1,
        ensures
            final(self)@ == (old(self)@ - 1) as nat,
    {
        self.have_work = self.have_work - 1;
    }
}

/// True iff no process has queued work and none is running, so the device
/// may enter a low-power wait state.
pub fn processes_blocked(kernel: &Kernel) -> (r: bool)
    ensures
        r <==> kernel@ == 0,
{
    kernel.have_work == 0
}

/// Work one process contributes to the outstanding-work counter: its queued
/// tasks, plus one while it is running.
pub open spec fn proc_work(p: Option<Process>) -> int {
    match p {
        None => 0,
        Some(p) => p@.tasks.len() + if p@.state == State::Running {
            1int
        } else {
            0int
        },
    }
}

/// Total work of a process table: the sum of all queue lengths plus the
/// number of `Running` processes.
pub open spec fn work_sum(procs: Seq<Option<Process>>) -> int
    decreases procs.len(),
{
    if procs.len() == 0 {
        0
    } else {
        work_sum(procs.drop_last()) + proc_work(procs.last())
    }
}

/// The kernel-wide accounting invariant: the outstanding-work counter
/// equals the sum of all processes' queue lengths plus the number of
/// processes in the `Running` state.
pub open spec fn work_invariant(procs: Seq<Option<Process>>, kernel: Kernel) -> bool {
    kernel@ == work_sum(procs)
}

/// Changing one process-table entry changes the work sum by exactly the
/// difference of that entry's contribution.
pub proof fn lemma_work_sum_update(procs: Seq<Option<Process>>, i: int, p2: Option<Process>)
    requires
        0 <= i < procs.len(),
    ensures
        work_sum(procs.update(i, p2)) == work_sum(procs) - proc_work(procs[i]) + proc_work(p2),
    decreases procs.len(),
{
    let upd = procs.update(i, p2);
    if i == procs.len() - 1 {
        assert(upd.drop_last() =~= procs.drop_last());
    } else {
        assert(upd.drop_last() =~= procs.drop_last().update(i, p2));
        lemma_work_sum_update(procs.drop_last(), i, p2);
    }
}

/// Every operation that pairs a queue or state change with the matching
/// counter change preserves the accounting invariant: if entry `i` is
/// replaced by `p2` and the counter moves by `p2`'s contribution minus the
/// old entry's, the invariant holds again.
pub proof fn lemma_work_invariant_step(
    procs: Seq<Option<Process>>,
    kernel: Kernel,
    procs2: Seq<Option<Process>>,
    kernel2: Kernel,
    i: int,
)
    requires
        work_invariant(procs, kernel),
        0 <= i < procs.len(),
        procs2 == procs.update(i, procs2[i]),
        kernel2@ == kernel@ + proc_work(procs2[i]) - proc_work(procs[i]),
    ensures
        work_invariant(procs2, kernel2),
{
    lemma_work_sum_update(procs, i, procs2[i]);
}

/// Schedules `callback` as a task for the process named by `appid`: fails,
/// changing nothing, when the identity names no live process or its queue
/// is full; otherwise enqueues the task and counts the new work.
pub fn schedule(
    procs: &mut Vec<Option<Process>>,
    kernel: &mut Kernel,
    callback: FunctionCall,
    appid: AppId,
) -> (r: bool)
    requires
        old(kernel)@ < usize::MAX,
        forall|i: int|
            0 <= i < old(procs)@.len() ==> ((#[trigger] old(procs)@[i]) matches Some(p)
                ==> p.wf()),
    ensures
        final(procs)@.len() == old(procs)@.len(),
        forall|i: int|
            0 <= i < final(procs)@.len() ==> ((#[trigger] final(procs)@[i]) matches Some(p)
                ==> p.wf()),
        ({
            let idx = appid.index as int;
            if idx >= old(procs)@.len() || old(procs)@[idx] is None {
                !r && final(procs)@ == old(procs)@ && final(kernel)@ == old(kernel)@
            } else {
                let p = old(procs)@[idx]->0;
                if p@.tasks.len() < TASK_QUEUE_CAPACITY {
                    &&& r
                    &&& final(kernel)@ == old(kernel)@ + 1
                    &&& final(procs)@[idx] matches Some(p2) && p2@ == (ProcessModel {
                        tasks: p@.tasks.push(Task::FunctionCall(callback)),
                        ..p@
                    })
                    &&& final(procs)@ == old(procs)@.update(idx, final(procs)@[idx])
                } else {
                    !r && final(procs)@ == old(procs)@ && final(kernel)@ == old(kernel)@
                }
            }
        }),
{
    let idx = appid.idx();
    if idx >= procs.len() {
        return false;
    }
    let p_opt = procs.remove(idx);
    match p_opt {
        None => {
            procs.insert(idx, None);
            proof {
                assert(procs@ =~= old(procs)@);
            }
            false
        },
        Some(mut p) => {
            let enqueued = p.tasks.enqueue(Task::FunctionCall(callback));
            if enqueued {
                kernel.add_work();
            }
            procs.insert(idx, Some(p));
            proof {
                if !enqueued {
                    assert(procs@ =~= old(procs)@);
                } else {
                    assert(procs@ =~= old(procs)@.update(idx as int, procs@[idx as int]));
                }
            }
            enqueued
        },
    }
}

impl Process {
    /// Enqueues an inter-process request from `from` and counts the new
    /// work; fails, changing nothing, when the queue is full.
    pub fn schedule_ipc(&mut self, from: AppId, cb_type: IPCType, kernel: &mut Kernel) -> (r: bool)
        requires
            old(self).wf(),
            old(kernel)@ < usize::MAX,
        ensures
            final(self).wf(),
            r <==> old(self)@.tasks.len() < TASK_QUEUE_CAPACITY,
            r ==> final(self)@ == (ProcessModel {
                tasks: old(self)@.tasks.push(Task::IPC(from, cb_type)),
                ..old(self)@
            }) && final(kernel)@ == old(kernel)@ + 1,
            !r ==> final(self)@ == old(self)@ && final(kernel)@ == old(kernel)@,
    {
        let enqueued = self.tasks.enqueue(Task::IPC(from, cb_type));
        if enqueued {
            kernel.add_work();
        }
        enqueued
    }

    /// Marks a running process as voluntarily suspended and counts its unit
    /// of work as done; does nothing to an already yielded process.
    pub fn yield_state(&mut self, kernel: &mut Kernel)
        requires
            old(self).wf(),
            old(self)@.state == State::Running ==> old(kernel)@ >= 1,
        ensures
            final(self).wf(),
            old(self)@.state == State::Running ==> final(self)@ == (ProcessModel {
                state: State::Yielded,
                ..old(self)@
            }) && final(kernel)@ == (old(kernel)@ - 1) as nat,
            old(self)@.state != State::Running ==> final(self)@ == old(self)@ && final(kernel)@
                == old(kernel)@,
    {
        if self.state == State::Running {
            self.state = State::Yielded;
            kernel.remove_work();
        }
    }

    /// Pops the oldest pending task, counting its unit of work as done;
    /// returns nothing, changing nothing, when the queue is empty.
    pub fn dequeue_task(&mut self, kernel: &mut Kernel) -> (r: Option<Task>)
        requires
            old(self).wf(),
            old(self)@.tasks.len() > 0 ==> old(kernel)@ >= 1,
        ensures
            final(self).wf(),
            old(self)@.tasks.len() == 0 ==> r is None && final(self)@ == old(self)@
                && final(kernel)@ == old(kernel)@,
            old(self)@.tasks.len() > 0 ==> r == Some(old(self)@.tasks[0]) && final(self)@
                == (ProcessModel {
                tasks: old(self)@.tasks.subrange(1, old(self)@.tasks.len() as int),
                ..old(self)@
            }) && final(kernel)@ == (old(kernel)@ - 1) as nat,
    {
        let t = self.tasks.dequeue();
        match t {
            None => None,
            Some(task) => {
                kernel.remove_work();
                Some(task)
            },
        }
    }
}

} // verus!
