use kernel_core::config::MAX_SYSCALL_NUM;
use kernel_core::task::{TaskControlBlock, TaskError, TaskStatus};

#[test]
fn test_fresh_tcb() {
    let t = TaskControlBlock::new();
    assert_eq!(t.task_status, TaskStatus::UnInit);
    assert_eq!(t.first_start_time, None);
    assert_eq!(t.task_cx.ra, 0);
    assert_eq!(t.task_cx.sp, 0);
    assert_eq!(t.syscall_accounting.len(), MAX_SYSCALL_NUM);
    assert!(t.syscall_accounting.iter().all(|&c| c == 0));
}

#[test]
fn test_first_start_time_set_once() {
    let mut t = TaskControlBlock::new();
    assert_eq!(t.transition(TaskStatus::Ready, 5), Ok(()));
    assert_eq!(t.first_start_time, None);
    assert_eq!(t.transition(TaskStatus::Running, 10), Ok(()));
    assert_eq!(t.first_start_time, Some(10));
    // A later Running -> Ready -> Running cycle leaves the timestamp as
    // it was.
    assert_eq!(t.transition(TaskStatus::Ready, 20), Ok(()));
    assert_eq!(t.transition(TaskStatus::Running, 30), Ok(()));
    assert_eq!(t.first_start_time, Some(10));
}

#[test]
fn test_first_start_on_uninit_to_running() {
    let mut t = TaskControlBlock::new();
    assert_eq!(t.transition(TaskStatus::Running, 42), Ok(()));
    assert_eq!(t.first_start_time, Some(42));
}

#[test]
fn test_exited_is_absorbing() {
    let mut t = TaskControlBlock::new();
    assert_eq!(t.transition(TaskStatus::Ready, 0), Ok(()));
    assert_eq!(t.transition(TaskStatus::Running, 1), Ok(()));
    assert_eq!(t.transition(TaskStatus::Exited, 2), Ok(()));
    for to in [
        TaskStatus::UnInit,
        TaskStatus::Ready,
        TaskStatus::Running,
        TaskStatus::Exited,
    ] {
        assert_eq!(t.transition(to, 3), Err(TaskError::InvalidTransition));
        assert_eq!(t.task_status, TaskStatus::Exited);
    }
}

#[test]
fn test_invalid_transitions_refused_untouched() {
    let mut t = TaskControlBlock::new();
    assert_eq!(
        t.transition(TaskStatus::Exited, 0),
        Err(TaskError::InvalidTransition)
    );
    assert_eq!(t.task_status, TaskStatus::UnInit);
    assert_eq!(t.transition(TaskStatus::Ready, 0), Ok(()));
    assert_eq!(
        t.transition(TaskStatus::UnInit, 0),
        Err(TaskError::InvalidTransition)
    );
    assert_eq!(
        t.transition(TaskStatus::Exited, 0),
        Err(TaskError::InvalidTransition)
    );
    assert_eq!(t.task_status, TaskStatus::Ready);
}

#[test]
fn test_record_syscall_counts() {
    let mut t = TaskControlBlock::new();
    assert_eq!(t.record_syscall(3), Ok(()));
    assert_eq!(t.record_syscall(3), Ok(()));
    assert_eq!(t.record_syscall(MAX_SYSCALL_NUM - 1), Ok(()));
    assert_eq!(t.syscall_accounting[3], 2);
    assert_eq!(t.syscall_accounting[MAX_SYSCALL_NUM - 1], 1);
    assert_eq!(t.syscall_accounting[0], 0);
}

#[test]
fn test_record_syscall_out_of_range_is_fatal() {
    let mut t = TaskControlBlock::new();
    assert_eq!(
        t.record_syscall(MAX_SYSCALL_NUM),
        Err(TaskError::SyscallOutOfRange)
    );
    assert_eq!(
        t.record_syscall(MAX_SYSCALL_NUM + 7),
        Err(TaskError::SyscallOutOfRange)
    );
    assert!(t.syscall_accounting.iter().all(|&c| c == 0));
}
