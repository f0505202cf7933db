use rd::flags::{init_flags, Checksum, DumpAt, DumpOn};
use rd::kernel_abi::{
    clone_number, is_clone_class_syscall, is_clone_syscall, is_fork_syscall, is_ignored_signal,
    is_rdcall_notify_syscall_hook_exit_syscall, is_restart_syscall_syscall, is_vfork_syscall,
    is_write_syscall, syscall_instruction_length, syscall_name, SupportedArch, CLONE_CHILD_CLEARTID,
    CLONE_NEWCGROUP, CLONE_NEWIPC, CLONE_NEWNET, CLONE_NEWNS, CLONE_NEWPID, CLONE_NEWUSER,
    CLONE_NEWUTS, CLONE_SETTLS, CLONE_SIGHAND, CLONE_THREAD, CLONE_UNTRACED, CLONE_VFORK, CLONE_VM,
    DISALLOWED_CLONE_FLAGS, RDCALL_NOTIFY_SYSCALL_HOOK_EXIT, X64_CLONE, X64_RESTART_SYSCALL,
    X86_CLONE, X86_RESTART_SYSCALL,
};
use rd::registers::Registers;
use rd::replay_syscall::{extract_clone_parameters, CloneParameters};
use rd::replay_task::{clone_flags_to_task_flags, ReplayTaskIgnore, ResumeRequest};
use rd::trace_info::{
    build_trace_header, ticks_semantics_name, CpuidRecord, TicksSemantics, TraceInfoCommand,
};

#[test]
fn the_disallowed_set_is_exactly_the_documented_union() {
    let expected = CLONE_UNTRACED
        | CLONE_CHILD_CLEARTID
        | CLONE_VFORK
        | CLONE_NEWIPC
        | CLONE_NEWNET
        | CLONE_NEWNS
        | CLONE_NEWPID
        | CLONE_NEWUSER
        | CLONE_NEWUTS
        | CLONE_NEWCGROUP;
    assert_eq!(DISALLOWED_CLONE_FLAGS, expected);
    // flags replay depends on are not in it
    assert_eq!(DISALLOWED_CLONE_FLAGS & CLONE_VM, 0);
    assert_eq!(DISALLOWED_CLONE_FLAGS & CLONE_THREAD, 0);
}

#[test]
fn syscall_classification_follows_the_architecture() {
    assert!(is_restart_syscall_syscall(X64_RESTART_SYSCALL, SupportedArch::X64));
    assert!(is_restart_syscall_syscall(X86_RESTART_SYSCALL, SupportedArch::X86));
    assert!(!is_restart_syscall_syscall(X64_RESTART_SYSCALL, SupportedArch::X86));
    assert!(is_clone_syscall(X64_CLONE, SupportedArch::X64));
    assert!(is_clone_syscall(X86_CLONE, SupportedArch::X86));
    assert!(is_fork_syscall(57, SupportedArch::X64));
    assert!(is_vfork_syscall(190, SupportedArch::X86));
    assert!(is_clone_class_syscall(58, SupportedArch::X64));
    assert!(!is_clone_class_syscall(1, SupportedArch::X64));
    assert!(is_write_syscall(1, SupportedArch::X64));
    assert!(is_write_syscall(4, SupportedArch::X86));
    assert!(is_rdcall_notify_syscall_hook_exit_syscall(
        RDCALL_NOTIFY_SYSCALL_HOOK_EXIT,
        SupportedArch::X64
    ));
    assert_eq!(clone_number(SupportedArch::X86), X86_CLONE);
    assert_eq!(syscall_instruction_length(SupportedArch::X86), 2);
    assert!(is_ignored_signal(17));
    assert!(!is_ignored_signal(11));
}

#[test]
fn syscall_names_cover_the_engines_own_calls() {
    assert_eq!(syscall_name(X64_CLONE, SupportedArch::X64), "clone");
    assert_eq!(syscall_name(X86_CLONE, SupportedArch::X86), "clone");
    assert_eq!(syscall_name(X64_RESTART_SYSCALL, SupportedArch::X64), "restart_syscall");
    assert_eq!(syscall_name(12345, SupportedArch::X64), "unknown");
}

#[test]
fn clone_flag_words_decode_into_task_properties() {
    let f = clone_flags_to_task_flags(CLONE_VM | CLONE_THREAD | CLONE_SIGHAND);
    assert!(f.share_vm);
    assert!(f.share_thread_group);
    assert!(f.share_sighandlers);
    assert!(!f.share_files);
    assert!(!f.cleartid);
    assert!(!f.set_tls);
    let fork = clone_flags_to_task_flags(0);
    assert!(!fork.share_vm && !fork.share_thread_group);
    let tls = clone_flags_to_task_flags(CLONE_SETTLS | CLONE_CHILD_CLEARTID);
    assert!(tls.set_tls && tls.cleartid);
}

#[test]
fn clone_parameters_follow_the_argument_order_of_each_layout() {
    let mut wide = Registers::new(SupportedArch::X64);
    wide.set_arg2(0x100);
    wide.set_arg4(0x400);
    let p = extract_clone_parameters(&wide);
    assert_eq!(p, CloneParameters { stack: 0x100, ptid: 0, ctid: 0x400, tls: 0 });
    let mut narrow = Registers::new(SupportedArch::X86);
    narrow.set_arg2(0x100);
    narrow.set_arg4(0x400);
    let q = extract_clone_parameters(&narrow);
    assert_eq!(q, CloneParameters { stack: 0x100, ptid: 0, tls: 0x400, ctid: 0 });
}

#[test]
fn resume_requests_carry_their_raw_values() {
    assert_eq!(ResumeRequest::ResumeCont.raw(), 7);
    assert_eq!(ResumeRequest::ResumeSinglestep.raw(), 9);
    assert_eq!(ResumeRequest::ResumeSyscall.raw(), 24);
    assert_eq!(ResumeRequest::ResumeSysemu.raw(), 31);
    assert_eq!(ResumeRequest::ResumeSysemuSinglestep.raw(), 32);
}

#[test]
fn the_starting_configuration_has_everything_off() {
    let f = init_flags();
    assert_eq!(f.checksum, Checksum::ChecksumNone);
    assert_eq!(f.dump_on, DumpOn::DumpOnNone);
    assert_eq!(f.dump_at, DumpAt::DumpAtNone);
    assert!(!f.force_things);
    assert!(!f.mark_stdio);
    assert!(!f.check_cached_maps);
    assert!(!f.fatal_errors_and_warnings);
    assert!(!f.disable_cpuid_faulting);
    assert!(!f.disable_ptrace_exit_events);
    assert!(f.forced_uarch.is_empty());
    assert!(f.resource_path.is_empty());
    assert_eq!(ReplayTaskIgnore::default(), ReplayTaskIgnore::IgnoreNone);
}

#[test]
fn the_trace_header_reports_what_the_recording_said() {
    let records = vec![CpuidRecord {
        eax_in: 1,
        ecx_in: 2,
        out_eax: 3,
        out_ebx: 4,
        out_ecx: 5,
        out_edx: 6,
    }];
    let header = build_trace_header(
        vec![0xab; 16],
        0x7,
        3,
        true,
        TicksSemantics::TicksRetiredConditionalBranches,
        &records,
        vec![String::from("A=1")],
    );
    assert_eq!(header.uuid.len(), 16);
    assert_eq!(header.xcr0, 0x7);
    assert_eq!(header.bind_to_cpu, 3);
    assert!(header.cpuid_faulting);
    assert_eq!(header.cpuid_records.len(), 1);
    let e = header.cpuid_records[0];
    assert_eq!((e.eax_in, e.ecx_in, e.eax, e.ebx, e.ecx, e.edx), (1, 2, 3, 4, 5, 6));
    assert_eq!(header.environ, vec![String::from("A=1")]);
    assert_eq!(
        ticks_semantics_name(TicksSemantics::TicksRetiredConditionalBranches),
        "rcb"
    );
    assert_eq!(ticks_semantics_name(TicksSemantics::TicksTakenBranches), "branches");
}

#[test]
fn the_trace_info_command_remembers_its_directory() {
    let cmd = TraceInfoCommand::new(Some(String::from("/tmp/trace")));
    assert_eq!(cmd.trace_dir.as_deref(), Some("/tmp/trace"));
    let none = TraceInfoCommand::new(None);
    assert!(none.trace_dir.is_none());
}
