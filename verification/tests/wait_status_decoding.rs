use rd::kernel_abi::{PTRACE_EVENT_CLONE, PTRACE_EVENT_EXIT};
use rd::wait_status::WaitStatus;

#[test]
fn a_stop_status_decodes_its_signal_and_event() {
    let st = WaitStatus::for_stop(5, PTRACE_EVENT_CLONE as u32);
    assert!(st.is_stopped());
    assert_eq!(st.maybe_stop_sig(), Some(5));
    assert_eq!(st.maybe_ptrace_event(), Some(PTRACE_EVENT_CLONE));
    assert!(!st.is_exited());
}

#[test]
fn a_plain_signal_stop_has_no_event() {
    let st = WaitStatus::for_stop(17, 0);
    assert!(st.is_stopped());
    assert_eq!(st.maybe_stop_sig(), Some(17));
    assert_eq!(st.maybe_ptrace_event(), None);
    assert!(!st.is_syscall_stop());
}

#[test]
fn an_exit_status_decodes_its_code() {
    let st = WaitStatus::for_exit(3);
    assert!(st.is_exited());
    assert_eq!(st.exit_code(), 3);
    assert!(!st.is_stopped());
    assert_eq!(st.maybe_stop_sig(), None);
}

#[test]
fn the_dying_task_stop_is_recognized() {
    let st = WaitStatus::for_stop(5, PTRACE_EVENT_EXIT as u32);
    assert!(st.is_ptrace_exit_event());
    let other = WaitStatus::for_stop(5, PTRACE_EVENT_CLONE as u32);
    assert!(!other.is_ptrace_exit_event());
}

#[test]
fn the_syscall_stop_marker_is_recognized() {
    let st = WaitStatus::for_stop(0x85, 0);
    assert!(st.is_syscall_stop());
    assert_eq!(st.raw(), 0x857f);
}

#[test]
fn a_raw_signaled_status_is_neither_stop_nor_exit() {
    let st = WaitStatus::new(9); // killed by SIGKILL
    assert!(st.is_signaled());
    assert!(!st.is_exited());
    assert!(!st.is_stopped());
}

#[test]
fn the_default_status_is_the_never_observed_one() {
    let st: WaitStatus = Default::default();
    assert_eq!(st.raw(), 0);
}
