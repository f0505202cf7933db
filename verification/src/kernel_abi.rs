//! Architecture tags, syscall numbers, and the kernel ABI constants the
//! replay engine decides over: clone flags, errno values, ptrace stop
//! encodings, and memory-protection bits.

use vstd::prelude::*;

verus! {

/// The two supported instruction-set widths.  Fixed per task except across
/// an exec that changes it.
#[derive(Copy, Clone, PartialEq, Eq, Structural, Debug)]
pub enum SupportedArch {
    X86,
    X64,
}

/// The architecture of the process doing the tracing.
pub const RD_NATIVE_ARCH: SupportedArch = SupportedArch::X64;

// Syscall numbers, per architecture.
pub const X64_WRITE: i32 = 1;
pub const X64_CLONE: i32 = 56;
pub const X64_FORK: i32 = 57;
pub const X64_VFORK: i32 = 58;
pub const X64_RESTART_SYSCALL: i32 = 219;

pub const X86_RESTART_SYSCALL: i32 = 0;
pub const X86_FORK: i32 = 2;
pub const X86_WRITE: i32 = 4;
pub const X86_CLONE: i32 = 120;
pub const X86_VFORK: i32 = 190;

// Pseudo-syscall numbers used by the in-tracee buffering shim.  These are
// not kernel syscalls; they share one numbering on both architectures.
pub const RDCALL_INIT_PRELOAD: i32 = 1000;
pub const RDCALL_INIT_BUFFERS: i32 = 1001;
pub const RDCALL_NOTIFY_SYSCALL_HOOK_EXIT: i32 = 1002;

// Clone flags (kernel ABI values).
pub const CLONE_VM: u64 = 0x100;
pub const CLONE_FS: u64 = 0x200;
pub const CLONE_FILES: u64 = 0x400;
pub const CLONE_SIGHAND: u64 = 0x800;
pub const CLONE_VFORK: u64 = 0x4000;
pub const CLONE_THREAD: u64 = 0x10000;
pub const CLONE_NEWNS: u64 = 0x20000;
pub const CLONE_SETTLS: u64 = 0x80000;
pub const CLONE_CHILD_CLEARTID: u64 = 0x200000;
pub const CLONE_UNTRACED: u64 = 0x800000;
pub const CLONE_CHILD_SETTID: u64 = 0x1000000;
pub const CLONE_NEWCGROUP: u64 = 0x2000000;
pub const CLONE_NEWUTS: u64 = 0x4000000;
pub const CLONE_NEWIPC: u64 = 0x8000000;
pub const CLONE_NEWUSER: u64 = 0x10000000;
pub const CLONE_NEWPID: u64 = 0x20000000;
pub const CLONE_NEWNET: u64 = 0x40000000;

/// Clone flags that must never reach the kernel during replay: flags that
/// would detach the child from the tracer, re-enter a namespace whose
/// effects were already recorded, clear a tid the engine emulates itself,
/// or block the parent the way a real vfork would.
pub const DISALLOWED_CLONE_FLAGS: u64 = 0x7ea24000;

/// The disallowed set is exactly the union of the individual flags.
pub proof fn lemma_disallowed_clone_flags_union()
    ensures
        DISALLOWED_CLONE_FLAGS == (CLONE_UNTRACED | CLONE_CHILD_CLEARTID | CLONE_VFORK
            | CLONE_NEWIPC | CLONE_NEWNET | CLONE_NEWNS | CLONE_NEWPID | CLONE_NEWUSER
            | CLONE_NEWUTS | CLONE_NEWCGROUP),
{
    assert(0x7ea24000u64 == (0x800000u64 | 0x200000 | 0x4000 | 0x8000000 | 0x40000000 | 0x20000
        | 0x20000000 | 0x10000000 | 0x4000000 | 0x2000000)) by (bit_vector);
}

// Errno values the engine distinguishes.
pub const EAGAIN: i64 = 11;
pub const ENOSYS: i64 = 38;

// Signals.
pub const SIGCHLD: i32 = 17;

// Ptrace stop-event codes, as found in the high byte of a wait status.
pub const PTRACE_EVENT_FORK: i32 = 1;
pub const PTRACE_EVENT_VFORK: i32 = 2;
pub const PTRACE_EVENT_CLONE: i32 = 3;
pub const PTRACE_EVENT_EXEC: i32 = 4;
pub const PTRACE_EVENT_EXIT: i32 = 6;

// Ptrace resume-request values.
pub const PTRACE_CONT: u32 = 7;
pub const PTRACE_SINGLESTEP: u32 = 9;
pub const PTRACE_SYSCALL: u32 = 24;
pub const PTRACE_SYSEMU: u32 = 31;
pub const PTRACE_SYSEMU_SINGLESTEP: u32 = 32;

// Memory protection and mapping bits.
pub const PROT_READ: u32 = 0x1;
pub const PROT_WRITE: u32 = 0x2;
pub const PROT_EXEC: u32 = 0x4;
pub const MAP_PRIVATE: u32 = 0x2;
pub const MAP_FIXED: u32 = 0x10;
pub const MAP_ANONYMOUS: u32 = 0x20;

/// Offset of the one-byte `notify_on_syscall_hook_exit` field inside the
/// syscall-buffer header mapped in the tracee.
pub const SYSCALLBUF_HDR_NOTIFY_OFFSET: u64 = 15;

/// Length in bytes of the syscall instruction, used to rewind the
/// instruction pointer so a syscall can be reissued.
pub fn syscall_instruction_length(arch: SupportedArch) -> (r: u64)
    ensures
        r == 2,
{
    match arch {
        SupportedArch::X86 => 2,
        SupportedArch::X64 => 2,
    }
}

pub open spec fn spec_is_restart_syscall_syscall(num: i32, arch: SupportedArch) -> bool {
    match arch {
        SupportedArch::X86 => num == X86_RESTART_SYSCALL,
        SupportedArch::X64 => num == X64_RESTART_SYSCALL,
    }
}

/// True exactly when `num` is the kernel's restart-syscall pseudo-call on
/// `arch`.
pub fn is_restart_syscall_syscall(num: i32, arch: SupportedArch) -> (r: bool)
    ensures
        r == spec_is_restart_syscall_syscall(num, arch),
{
    match arch {
        SupportedArch::X86 => num == X86_RESTART_SYSCALL,
        SupportedArch::X64 => num == X64_RESTART_SYSCALL,
    }
}

pub open spec fn spec_is_clone_syscall(num: i32, arch: SupportedArch) -> bool {
    match arch {
        SupportedArch::X86 => num == X86_CLONE,
        SupportedArch::X64 => num == X64_CLONE,
    }
}

pub fn is_clone_syscall(num: i32, arch: SupportedArch) -> (r: bool)
    ensures
        r == spec_is_clone_syscall(num, arch),
{
    match arch {
        SupportedArch::X86 => num == X86_CLONE,
        SupportedArch::X64 => num == X64_CLONE,
    }
}

pub open spec fn spec_clone_number(arch: SupportedArch) -> i32 {
    match arch {
        SupportedArch::X86 => X86_CLONE,
        SupportedArch::X64 => X64_CLONE,
    }
}

/// The clone syscall's number on `arch`; what a vfork is reissued as.
pub fn clone_number(arch: SupportedArch) -> (r: i32)
    ensures
        r == spec_clone_number(arch),
{
    match arch {
        SupportedArch::X86 => X86_CLONE,
        SupportedArch::X64 => X64_CLONE,
    }
}

pub open spec fn spec_is_fork_syscall(num: i32, arch: SupportedArch) -> bool {
    match arch {
        SupportedArch::X86 => num == X86_FORK,
        SupportedArch::X64 => num == X64_FORK,
    }
}

pub fn is_fork_syscall(num: i32, arch: SupportedArch) -> (r: bool)
    ensures
        r == spec_is_fork_syscall(num, arch),
{
    match arch {
        SupportedArch::X86 => num == X86_FORK,
        SupportedArch::X64 => num == X64_FORK,
    }
}

pub open spec fn spec_is_vfork_syscall(num: i32, arch: SupportedArch) -> bool {
    match arch {
        SupportedArch::X86 => num == X86_VFORK,
        SupportedArch::X64 => num == X64_VFORK,
    }
}

pub fn is_vfork_syscall(num: i32, arch: SupportedArch) -> (r: bool)
    ensures
        r == spec_is_vfork_syscall(num, arch),
{
    match arch {
        SupportedArch::X86 => num == X86_VFORK,
        SupportedArch::X64 => num == X64_VFORK,
    }
}

/// A clone-class syscall: one of clone, fork, or vfork.
pub open spec fn spec_is_clone_class_syscall(num: i32, arch: SupportedArch) -> bool {
    spec_is_clone_syscall(num, arch) || spec_is_fork_syscall(num, arch) || spec_is_vfork_syscall(
        num,
        arch,
    )
}

pub fn is_clone_class_syscall(num: i32, arch: SupportedArch) -> (r: bool)
    ensures
        r == spec_is_clone_class_syscall(num, arch),
{
    is_clone_syscall(num, arch) || is_fork_syscall(num, arch) || is_vfork_syscall(num, arch)
}

pub open spec fn spec_is_write_syscall(num: i32, arch: SupportedArch) -> bool {
    match arch {
        SupportedArch::X86 => num == X86_WRITE,
        SupportedArch::X64 => num == X64_WRITE,
    }
}

pub fn is_write_syscall(num: i32, arch: SupportedArch) -> (r: bool)
    ensures
        r == spec_is_write_syscall(num, arch),
{
    match arch {
        SupportedArch::X86 => num == X86_WRITE,
        SupportedArch::X64 => num == X64_WRITE,
    }
}

pub open spec fn spec_is_rdcall_notify_syscall_hook_exit_syscall(
    num: i32,
    arch: SupportedArch,
) -> bool {
    num == RDCALL_NOTIFY_SYSCALL_HOOK_EXIT
}

pub fn is_rdcall_notify_syscall_hook_exit_syscall(num: i32, arch: SupportedArch) -> (r: bool)
    ensures
        r == spec_is_rdcall_notify_syscall_hook_exit_syscall(num, arch),
{
    num == RDCALL_NOTIFY_SYSCALL_HOOK_EXIT
}

/// Signals the replayer expects to receive spuriously while driving a
/// tracee and therefore resumes past rather than reporting.
pub open spec fn spec_is_ignored_signal(sig: i32) -> bool {
    sig == SIGCHLD
}

pub fn is_ignored_signal(sig: i32) -> (r: bool)
    ensures
        r == spec_is_ignored_signal(sig),
{
    sig == SIGCHLD
}

/// Human-readable name for the syscalls the engine itself distinguishes;
/// used only in diagnostics for trace-divergence reports.
pub fn syscall_name(num: i32, arch: SupportedArch) -> (r: &'static str)
    ensures
        spec_is_restart_syscall_syscall(num, arch) ==> r@ == "restart_syscall"@,
        spec_is_fork_syscall(num, arch) ==> r@ == "fork"@,
        spec_is_write_syscall(num, arch) ==> r@ == "write"@,
        spec_is_clone_syscall(num, arch) ==> r@ == "clone"@,
        spec_is_vfork_syscall(num, arch) ==> r@ == "vfork"@,
        spec_is_rdcall_notify_syscall_hook_exit_syscall(num, arch) ==> r@
            == "rdcall_notify_syscall_hook_exit"@,
        !spec_is_restart_syscall_syscall(num, arch) && !spec_is_fork_syscall(num, arch)
            && !spec_is_write_syscall(num, arch) && !spec_is_clone_syscall(num, arch)
            && !spec_is_vfork_syscall(num, arch)
            && !spec_is_rdcall_notify_syscall_hook_exit_syscall(num, arch) ==> r@ == "unknown"@,
{
    match arch {
        SupportedArch::X86 => {
            if num == X86_RESTART_SYSCALL {
                "restart_syscall"
            } else if num == X86_FORK {
                "fork"
            } else if num == X86_WRITE {
                "write"
            } else if num == X86_CLONE {
                "clone"
            } else if num == X86_VFORK {
                "vfork"
            } else if num == RDCALL_NOTIFY_SYSCALL_HOOK_EXIT {
                "rdcall_notify_syscall_hook_exit"
            } else {
                "unknown"
            }
        },
        SupportedArch::X64 => {
            if num == X64_RESTART_SYSCALL {
                "restart_syscall"
            } else if num == X64_FORK {
                "fork"
            } else if num == X64_WRITE {
                "write"
            } else if num == X64_CLONE {
                "clone"
            } else if num == X64_VFORK {
                "vfork"
            } else if num == RDCALL_NOTIFY_SYSCALL_HOOK_EXIT {
                "rdcall_notify_syscall_hook_exit"
            } else {
                "unknown"
            }
        },
    }
}

} // verus!
