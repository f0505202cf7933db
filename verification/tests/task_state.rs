use rd::address_space::{AddressSpace, Mapping};
use rd::errors::ReplayError;
use rd::kernel_abi::{
    SupportedArch, MAP_ANONYMOUS, MAP_PRIVATE, PROT_READ, PROT_WRITE, PTRACE_EVENT_EXIT,
    X64_WRITE,
};
use rd::registers::{Registers, X64UserRegs};
use rd::replay_syscall::{init_scratch_memory, shared_mappings_to_recreate};
use rd::replay_task::{ReplayTask, ReplayTaskIgnore};
use rd::session::Session;
use rd::trace::{
    KernelMapping, MappedData, MappedDataSource, SyscallEvent, TraceFrame, TraceReader,
};
use rd::wait_status::WaitStatus;

fn regs_with(f: impl FnOnce(&mut X64UserRegs)) -> Registers {
    let mut raw = X64UserRegs::zeroed();
    f(&mut raw);
    Registers::X64(raw)
}

#[test]
fn set_regs_is_lazy_and_flush_hands_out_the_native_layout() {
    let mut task = ReplayTask::new(100, 10, 1, SupportedArch::X64, 0, 0);
    assert!(!task.registers_dirty);
    let regs = regs_with(|r| r.rax = 7);
    task.set_regs(&regs);
    assert!(task.registers_dirty);
    let flushed = task.flush_regs().expect("a dirty cache owes a flush");
    assert_eq!(flushed.rax, 7);
    assert!(!task.registers_dirty);
    assert_eq!(task.flush_regs(), None);
}

#[test]
fn did_waitpid_absorbs_the_stop_exactly_once() {
    let mut task = ReplayTask::new(100, 10, 1, SupportedArch::X64, 0, 0);
    let regs = regs_with(|r| r.rax = 1);
    task.did_waitpid(WaitStatus::for_stop(5, 0), 42, &regs);
    assert!(task.is_stopped);
    assert_eq!(task.tick_count(), 42);
    assert_eq!(task.registers, regs);
    assert!(!task.registers_dirty);
    assert!(!task.seen_ptrace_exit_event);
    task.will_resume();
    assert!(!task.is_stopped);
    task.did_waitpid(WaitStatus::for_stop(5, PTRACE_EVENT_EXIT as u32), 43, &regs);
    assert!(task.seen_ptrace_exit_event);
    assert!(task.wait_unexpected_exit());
}

#[test]
fn validation_is_skipped_before_the_initial_exec() {
    let task = ReplayTask::new(100, 10, 1, SupportedArch::X64, 0, 0);
    let mut frame = TraceFrame {
        time: 1,
        tid: 10,
        ticks: 0,
        regs: regs_with(|r| r.rbx = 9),
        ev: SyscallEvent {
            number: X64_WRITE,
            arch: SupportedArch::X64,
            failed_during_preparation: false,
        },
    };
    assert!(task.validate_regs(&mut frame, ReplayTaskIgnore::IgnoreNone, false).is_ok());
    assert_eq!(
        task.validate_regs(&mut frame, ReplayTaskIgnore::IgnoreNone, true),
        Err(ReplayError::RegisterMismatch)
    );
}

#[test]
fn the_known_kernel_quirk_on_the_fourth_argument_is_papered_over() {
    let mut task = ReplayTask::new(100, 10, 1, SupportedArch::X64, 0, 0);
    let live = regs_with(|r| r.r10 = 0x1234);
    task.set_regs(&live);
    let mut frame = TraceFrame {
        time: 1,
        tid: 10,
        ticks: 0,
        regs: regs_with(|r| r.r10 = 0x9999),
        ev: SyscallEvent {
            number: X64_WRITE,
            arch: SupportedArch::X64,
            failed_during_preparation: false,
        },
    };
    assert!(task.validate_regs(&mut frame, ReplayTaskIgnore::IgnoreEsi, true).is_ok());
    // the recorded copy was fudged to the live value
    assert_eq!(frame.regs.arg4(), 0x1234);
}

#[test]
fn the_recorded_return_value_is_written_into_the_visible_registers() {
    let mut task = ReplayTask::new(100, 10, 1, SupportedArch::X64, 0, 0);
    let frame = TraceFrame {
        time: 1,
        tid: 10,
        ticks: 0,
        regs: regs_with(|r| {
            r.rax = 55;
            r.orig_rax = X64_WRITE as u64;
        }),
        ev: SyscallEvent {
            number: X64_WRITE,
            arch: SupportedArch::X64,
            failed_during_preparation: false,
        },
    };
    task.set_return_value_from_trace(&frame);
    assert_eq!(task.registers.syscall_result(), 55);
    assert_eq!(task.registers.original_syscallno(), X64_WRITE as i64);
    assert!(task.registers_dirty);
}

#[test]
fn scratch_memory_must_have_the_recorded_shape() {
    let tr = TraceReader::new(Vec::new(), Vec::new(), Vec::new(), Vec::new());
    let mut session = Session::new(tr);
    let t = session.create_initial_task(100, 10, SupportedArch::X64);
    let bad = KernelMapping { start: 0x7000, size: 0x2000, prot: PROT_READ, flags: MAP_PRIVATE };
    let data = MappedData { time: 1, source: MappedDataSource::SourceZero };
    assert_eq!(
        init_scratch_memory(&mut session, t, &bad, &data),
        Err(ReplayError::BadScratchMapping)
    );
    let good = KernelMapping {
        start: 0x7000,
        size: 0x2000,
        prot: PROT_READ | PROT_WRITE,
        flags: MAP_PRIVATE | MAP_ANONYMOUS,
    };
    let wrong_source = MappedData { time: 1, source: MappedDataSource::SourceTrace };
    assert_eq!(
        init_scratch_memory(&mut session, t, &good, &wrong_source),
        Err(ReplayError::BadScratchMapping)
    );
    let req = init_scratch_memory(&mut session, t, &good, &data).unwrap();
    assert_eq!(session.tasks[t].scratch_ptr, 0x7000);
    assert_eq!(session.tasks[t].scratch_size, 0x2000);
    assert_eq!(req.start, 0x7000);
    let vm = session.tasks[t].vm;
    assert_eq!(session.spaces[vm].maps.len(), 1);
}

#[test]
fn only_locally_viewed_non_buffer_mappings_are_recreated() {
    let mut space = AddressSpace::new();
    let km = KernelMapping { start: 0x1000, size: 0x1000, prot: 3, flags: 2 };
    space.add_mapping(Mapping {
        km,
        is_thread_locals: false,
        is_syscallbuf: false,
        has_local_addr: true,
    });
    space.add_mapping(Mapping {
        km,
        is_thread_locals: true,
        is_syscallbuf: false,
        has_local_addr: true,
    });
    space.add_mapping(Mapping {
        km,
        is_thread_locals: false,
        is_syscallbuf: true,
        has_local_addr: true,
    });
    space.add_mapping(Mapping {
        km,
        is_thread_locals: false,
        is_syscallbuf: false,
        has_local_addr: false,
    });
    let reqs = shared_mappings_to_recreate(&space);
    assert_eq!(reqs.len(), 1);
    assert!(reqs[0].has_local_addr && !reqs[0].is_thread_locals && !reqs[0].is_syscallbuf);
}

#[test]
fn error_descriptions_name_the_condition() {
    assert!(ReplayError::RegisterMismatch.describe().contains("diverged"));
    assert!(ReplayError::UnexpectedExit { tid: 1 }.describe().contains("died"));
    assert!(
        ReplayError::TraceTaskEventMissing { kind: rd::trace::TraceTaskEventKind::Clone }
            .describe()
            .contains("corrupt")
    );
}
