//! Replaying a two-frame trace through the full clone path: a clone whose
//! recorded child id lives in a foreign pid namespace, followed by a
//! recorded memory write for that child.

use rd::kernel_abi::{
    SupportedArch, CLONE_UNTRACED, MAP_ANONYMOUS, MAP_FIXED, MAP_PRIVATE, PROT_READ, PROT_WRITE,
    PTRACE_EVENT_FORK, X64_FORK, X64_WRITE,
};
use rd::registers::{u64_of_i64, Registers, X64UserRegs};
use rd::replay_syscall::{clone_finish, clone_handle_exit_stop, clone_handle_stop,
    prepare_clone_start, CloneAction, ClonePhase};
use rd::session::Session;
use rd::trace::{
    KernelMapping, MappedData, MappedDataSource, MappedRegion, RawDataRecord, SyscallEvent,
    TraceFrame, TraceReader, TraceTaskEvent, TraceTaskEventKind,
};
use rd::wait_status::WaitStatus;

fn regs_with(f: impl FnOnce(&mut X64UserRegs)) -> Registers {
    let mut raw = X64UserRegs::zeroed();
    f(&mut raw);
    Registers::X64(raw)
}

#[test]
fn a_clone_event_naming_the_wrong_parent_is_fatal() {
    let clone_frame = TraceFrame {
        time: 1,
        tid: 10,
        ticks: 0,
        regs: regs_with(|r| r.orig_rax = X64_FORK as u64),
        ev: SyscallEvent {
            number: X64_FORK,
            arch: SupportedArch::X64,
            failed_during_preparation: false,
        },
    };
    let events = vec![TraceTaskEvent {
        time: 1,
        kind: TraceTaskEventKind::Clone,
        tid: 42,
        parent_tid: 99, // not the task being replayed
        clone_flags: 0,
    }];
    let trace = TraceReader::new(vec![clone_frame], events, Vec::new(), Vec::new());
    let mut session = Session::new(trace);
    let parent = session.create_initial_task(100, 10, SupportedArch::X64);
    let live_regs = regs_with(|r| {
        r.orig_rax = X64_FORK as u64;
        r.rip = 0x1000;
    });
    session.tasks[parent].set_regs(&live_regs);
    let frame = session.trace.current_frame();
    let mut m = prepare_clone_start(&mut session.tasks[parent], &frame).unwrap().unwrap();
    session.tasks[parent].flush_regs();
    session.tasks[parent].will_resume();
    let stop_regs = m.entry_regs;
    session.tasks[parent].did_waitpid(
        WaitStatus::for_stop(5, PTRACE_EVENT_FORK as u32),
        0,
        &stop_regs,
    );
    clone_handle_stop(&mut m, &mut session.tasks[parent], Some(777)).unwrap();
    session.tasks[parent].flush_regs();
    session.tasks[parent].will_resume();
    let exit_regs = regs_with(|r| {
        r.orig_rax = X64_FORK as u64;
        r.rax = 777;
    });
    session.tasks[parent].did_waitpid(WaitStatus::for_stop(0x85, 0), 0, &exit_regs);
    clone_handle_exit_stop(&mut m, &mut session.tasks[parent]).unwrap();
    let err = clone_finish(&mut session, parent, &m).unwrap_err();
    assert_eq!(err, rd::errors::ReplayError::WrongCloneParent { expected: 10, found: 99 });
}

#[test]
fn a_clone_is_replayed_with_a_reconciled_id_and_its_memory_write_applied() {
    // The recorded clone entry: the live argument carries a disallowed
    // flag, so the engine must mask it and hide the masking afterwards.
    let recorded_regs = regs_with(|r| {
        r.orig_rax = X64_FORK as u64;
        r.rip = 0x1000;
        r.rax = u64_of_i64(-38);
    });
    let clone_frame = TraceFrame {
        time: 1,
        tid: 10,
        ticks: 0,
        regs: recorded_regs,
        ev: SyscallEvent {
            number: X64_FORK,
            arch: SupportedArch::X64,
            failed_during_preparation: false,
        },
    };
    let later_frame = TraceFrame {
        time: 2,
        tid: 42,
        ticks: 0,
        regs: Registers::new(SupportedArch::X64),
        ev: SyscallEvent {
            number: X64_WRITE,
            arch: SupportedArch::X64,
            failed_during_preparation: false,
        },
    };
    // The recorded lifecycle event: the child is 42 in the recording's own
    // namespace, under parent 10; an unrelated exec event sits in between.
    let events = vec![
        TraceTaskEvent {
            time: 1,
            kind: TraceTaskEventKind::Exec,
            tid: 9,
            parent_tid: 0,
            clone_flags: 0,
        },
        TraceTaskEvent {
            time: 1,
            kind: TraceTaskEventKind::Clone,
            tid: 42,
            parent_tid: 10,
            clone_flags: 0,
        },
    ];
    // One recorded memory write for the child, within the clone frame.
    let records = vec![RawDataRecord { time: 1, rec_tid: 42, addr: 0x5000, data: vec![1, 2, 3] }];
    // The child's recorded scratch mapping.
    let regions = vec![MappedRegion {
        km: KernelMapping {
            start: 0x7000,
            size: 0x2000,
            prot: PROT_READ | PROT_WRITE,
            flags: MAP_PRIVATE | MAP_ANONYMOUS,
        },
        data: MappedData { time: 1, source: MappedDataSource::SourceZero },
    }];
    let trace = TraceReader::new(vec![clone_frame, later_frame], events, records, regions);
    let mut session = Session::new(trace);
    let parent = session.create_initial_task(100, 10, SupportedArch::X64);
    let live_regs = regs_with(|r| {
        r.orig_rax = X64_FORK as u64;
        r.rip = 0x1000;
    });
    session.tasks[parent].set_regs(&live_regs);
    session.tasks[parent].flush_regs();

    // Prepare: mask and rewind, then "issue" the syscall.
    let frame = session.trace.current_frame();
    let mut m = prepare_clone_start(&mut session.tasks[parent], &frame).unwrap().unwrap();
    assert_eq!(m.sys, X64_FORK);
    assert_eq!(m.entry_regs.clone_flags_arg() & CLONE_UNTRACED, 0);
    session.tasks[parent].flush_regs();
    session.tasks[parent].will_resume();

    // The kernel reports the new task under a live id from our namespace.
    let stop_regs = m.entry_regs;
    session.tasks[parent].did_waitpid(
        WaitStatus::for_stop(5, PTRACE_EVENT_FORK as u32),
        0,
        &stop_regs,
    );
    let action = clone_handle_stop(&mut m, &mut session.tasks[parent], Some(777)).unwrap();
    assert_eq!(action, CloneAction::ResumeSyscall);

    // The parent reaches the syscall exit.
    session.tasks[parent].flush_regs();
    session.tasks[parent].will_resume();
    let exit_regs = regs_with(|r| {
        r.orig_rax = X64_FORK as u64;
        r.rax = 777;
        r.rip = 0x1002;
    });
    session.tasks[parent].did_waitpid(WaitStatus::for_stop(0x85, 0), 0, &exit_regs);
    let action = clone_handle_exit_stop(&mut m, &mut session.tasks[parent]).unwrap();
    assert_eq!(action, CloneAction::Finish);
    assert_eq!(m.phase, ClonePhase::Completed);

    // Attach the child, reconciling ids against the recorded event.
    let (child, requests, scratch_req) = clone_finish(&mut session, parent, &m).unwrap();

    // A task exists with the reconciled recorded id 42 ...
    assert_eq!(session.tasks[child].rec_tid, 42);
    // ... under the kernel-reported live id ...
    assert_eq!(session.tasks[child].tid, 777);
    // ... and the session can find it by its recorded id.
    assert_eq!(session.find_task_from_rec_tid(42), Some(child));

    // The recorded memory write landed in the child's own address space
    // before any later frame was processed.
    assert_eq!(session.trace.frame_pos, 0);
    let child_vm = session.tasks[child].vm;
    assert_ne!(child_vm, session.tasks[parent].vm);
    assert_eq!(session.spaces[child_vm].writes.len(), 1);
    assert_eq!(session.spaces[child_vm].writes[0].addr, 0x5000);
    assert_eq!(session.spaces[child_vm].writes[0].data, vec![1, 2, 3]);

    // A fork child inherits no breakpoints or watchpoints.
    assert!(session.spaces[child_vm].breakpoints.is_empty());
    assert!(session.spaces[child_vm].watchpoints.is_empty());
    assert!(requests.is_empty());

    // Scratch memory was installed where the recording mapped it: exactly
    // one recorded mapping was consumed and the request reproduces it at a
    // fixed address.
    assert_eq!(session.tasks[child].scratch_ptr, 0x7000);
    assert_eq!(session.tasks[child].scratch_size, 0x2000);
    assert_eq!(scratch_req.start, 0x7000);
    assert_eq!(scratch_req.size, 0x2000);
    assert_ne!(scratch_req.flags & MAP_FIXED, 0);
    assert_eq!(session.trace.mapped_pos, 1);
    // every record of the clone frame was consumed before returning
    assert_eq!(session.trace.raw_pos, 1);

    // The child's visible registers show the recorded values.
    assert_eq!(
        session.tasks[child].registers.original_syscallno(),
        X64_FORK as i64
    );

    // The child group's ancestry names the parent's group.
    let child_tg = session.tasks[child].tg;
    assert_eq!(
        session.groups[child_tg].parent(),
        Some(session.tasks[parent].tg)
    );

    // Only now does the session move past the clone frame.
    session.trace.advance_frame();
    assert_eq!(session.trace.current_frame_time(), 2);
}
