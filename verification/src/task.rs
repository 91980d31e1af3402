//! Per-task record: lifecycle status, saved execution context, first-start
//! timestamp and per-syscall accounting.

use vstd::prelude::*;

verus! {

use crate::config::MAX_SYSCALL_NUM;
use vstd::pervasive::VecAdditionalExecFns;

/// Lifecycle state of a task slot. `UnInit` is the pre-load state, `Ready`
/// means loaded and eligible to run, `Running` means holding the
/// processor, `Exited` is terminal.
#[derive(Clone, Copy, Debug, PartialEq, Eq, Structural)]
pub enum TaskStatus {
    UnInit,
    Ready,
    Running,
    Exited,
}

/// Saved kernel-side execution context needed to resume a task: return
/// address and stack pointer, zeroed until the loader populates them.
#[derive(Clone, Copy, Debug, PartialEq, Eq, Structural)]
pub struct TaskContext {
    pub ra: usize,
    pub sp: usize,
}

impl TaskContext {
    /// The all-zero placeholder context of a task that was never started.
    pub fn zero_init() -> (r: Self)
        ensures
            r.ra == 0,
            r.sp == 0,
    {
        TaskContext { ra: 0, sp: 0 }
    }
}

/// A refused task operation; both conditions signal a programming error in
/// the caller, to be treated as fatal.
#[derive(Clone, Copy, Debug, PartialEq, Eq, Structural)]
pub enum TaskError {
    InvalidTransition,
    SyscallOutOfRange,
}

/// The status moves monotonically along UnInit, Ready, Running, Exited;
/// a running task may also yield back to Ready. Nothing leaves Exited.
pub open spec fn transition_allowed(from: TaskStatus, to: TaskStatus) -> bool {
    match (from, to) {
        (TaskStatus::UnInit, TaskStatus::Ready) => true,
        (TaskStatus::UnInit, TaskStatus::Running) => true,
        (TaskStatus::Ready, TaskStatus::Running) => true,
        (TaskStatus::Running, TaskStatus::Ready) => true,
        (TaskStatus::Running, TaskStatus::Exited) => true,
        _ => false,
    }
}

/// The first-start timestamp after a transition: set on the first entry
/// into Running, untouched by everything else.
pub open spec fn next_first_start_time(cur: Option<usize>, to: TaskStatus, now: usize) -> Option<
    usize,
> {
    if to == TaskStatus::Running && cur is None {
        Some(now)
    } else {
        cur
    }
}

/// Decides `transition_allowed` at run time.
fn transition_allowed_exec(from: TaskStatus, to: TaskStatus) -> (b: bool)
    ensures
        b == transition_allowed(from, to),
{
    match (from, to) {
        (TaskStatus::UnInit, TaskStatus::Ready) => true,
        (TaskStatus::UnInit, TaskStatus::Running) => true,
        (TaskStatus::Ready, TaskStatus::Running) => true,
        (TaskStatus::Running, TaskStatus::Ready) => true,
        (TaskStatus::Running, TaskStatus::Exited) => true,
        _ => false,
    }
}

/// One task slot's control block.
pub struct TaskControlBlock {
    pub task_status: TaskStatus,
    pub task_cx: TaskContext,
    pub first_start_time: Option<usize>,
    pub syscall_accounting: Vec<u32>,
}

impl TaskControlBlock {
    /// The accounting table covers every known syscall number.
    pub open spec fn wf(self) -> bool {
        self.syscall_accounting@.len() == MAX_SYSCALL_NUM
    }

    /// A freshly constructed control block: not yet loaded, a zeroed
    /// context, no first-start timestamp, and every syscall counter zero.
    pub fn new() -> (r: Self)
        ensures
            r.wf(),
            r.task_status == TaskStatus::UnInit,
            r.first_start_time is None,
            r.task_cx.ra == 0 && r.task_cx.sp == 0,
            forall|i: int| 0 <= i < MAX_SYSCALL_NUM ==> r.syscall_accounting@[i] == 0u32,
    {
        let mut acc: Vec<u32> = Vec::new();
        while acc.len() < MAX_SYSCALL_NUM
            invariant
                acc@.len() <= MAX_SYSCALL_NUM,
                forall|k: int| 0 <= k < acc@.len() ==> acc@[k] == 0u32,
            decreases MAX_SYSCALL_NUM - acc@.len(),
        {
            acc.push(0);
        }
        TaskControlBlock {
            task_status: TaskStatus::UnInit,
            task_cx: TaskContext::zero_init(),
            first_start_time: None,
            syscall_accounting: acc,
        }
    }

    /// Moves the task to status `to`, where the lifecycle allows it; `now`
    /// is the caller's clock reading, recorded as the first-start timestamp
    /// on the first entry into Running and never overwritten afterwards. A
    /// transition the lifecycle forbids is refused untouched.
    pub fn transition(&mut self, to: TaskStatus, now: usize) -> (r: Result<(), TaskError>)
        requires
            old(self).wf(),
        ensures
            final(self).wf(),
            r is Ok <==> transition_allowed(old(self).task_status, to),
            r is Err ==> *final(self) == *old(self) && r == Err::<(), TaskError>(
                TaskError::InvalidTransition,
            ),
            r is Ok ==> {
                &&& final(self).task_status == to
                &&& final(self).first_start_time == next_first_start_time(
                    old(self).first_start_time,
                    to,
                    now,
                )
                &&& final(self).task_cx == old(self).task_cx
                &&& final(self).syscall_accounting == old(self).syscall_accounting
            },
    {
        if !transition_allowed_exec(self.task_status, to) {
            return Err(TaskError::InvalidTransition);
        }
        if to == TaskStatus::Running && self.first_start_time.is_none() {
            self.first_start_time = Some(now);
        }
        self.task_status = to;
        Ok(())
    }

    /// Records one invocation of syscall number `n` against the block: its
    /// counter goes up by exactly one and every other counter is
    /// untouched. A number outside the known range is refused untouched.
    pub fn record_syscall(&mut self, n: usize) -> (r: Result<(), TaskError>)
        requires
            old(self).wf(),
            n < MAX_SYSCALL_NUM ==> old(self).syscall_accounting@[n as int] < u32::MAX,
        ensures
            final(self).wf(),
            r is Ok <==> n < MAX_SYSCALL_NUM,
            r is Err ==> *final(self) == *old(self) && r == Err::<(), TaskError>(
                TaskError::SyscallOutOfRange,
            ),
            r is Ok ==> {
                &&& final(self).syscall_accounting@[n as int] == old(self).syscall_accounting@[n
                    as int] + 1
                &&& forall|i: int|
                    0 <= i < MAX_SYSCALL_NUM && i != n
                        ==> final(self).syscall_accounting@[i] == old(self).syscall_accounting@[i]
                &&& final(self).task_status == old(self).task_status
                &&& final(self).first_start_time == old(self).first_start_time
                &&& final(self).task_cx == old(self).task_cx
            },
    {
        if n >= MAX_SYSCALL_NUM {
            return Err(TaskError::SyscallOutOfRange);
        }
        let c = self.syscall_accounting[n];
        self.syscall_accounting.set(n, c + 1);
        Ok(())
    }
}

/// Law: once the first-start timestamp is set it never changes again;
/// in particular a later Running to Ready to Running cycle leaves it as it
/// was.
pub proof fn lemma_first_start_time_stable(t: usize, to: TaskStatus, now: usize)
    ensures
        next_first_start_time(Some(t), to, now) == Some(t),
{
}

/// Law: `Exited` is absorbing — the lifecycle allows no transition out of
/// it.
pub proof fn lemma_exited_absorbing(to: TaskStatus)
    ensures
        !transition_allowed(TaskStatus::Exited, to),
{
}

/// Law: the lifecycle never rewinds — no status can transition back to
/// `UnInit`.
pub proof fn lemma_no_rewind(from: TaskStatus)
    ensures
        !transition_allowed(from, TaskStatus::UnInit),
{
}

} // verus!
