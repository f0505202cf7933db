//! Run-wide configuration.
//!
//! One `Flags` value is constructed at startup and passed by reference to
//! every consumer; nothing here is global state.

use vstd::prelude::*;

use crate::trace::FrameTime;

verus! {

/// When to generate or check memory checksums: never, at syscalls, at
/// every event, or from a given event time on.
#[derive(Copy, Clone, PartialEq, Eq, Structural, Debug)]
pub enum Checksum {
    ChecksumNone,
    ChecksumSyscall,
    ChecksumAll,
    ChecksumAt(FrameTime),
}

#[derive(Copy, Clone, PartialEq, Eq, Structural, Debug)]
pub enum DumpOn {
    DumpOnAll,
    DumpOnRdtsc,
    DumpOnNone,
}

#[derive(Copy, Clone, PartialEq, Eq, Structural, Debug)]
pub enum DumpAt {
    DumpAtNone,
    DumpAt(FrameTime),
}

#[derive(Clone, Debug)]
pub struct Flags {
    pub checksum: Checksum,
    pub dump_on: DumpOn,
    pub dump_at: DumpAt,
    /// Force the tool to do some things it otherwise wouldn't, such as
    /// launching an emergency debugger when the output is not a terminal.
    pub force_things: bool,
    /// Mark the trace global time along with tracee writes to stdio.
    pub mark_stdio: bool,
    /// Check that cached mappings match the OS view after each event.
    pub check_cached_maps: bool,
    /// Any warning or error that would be printed is treated as fatal.
    pub fatal_errors_and_warnings: bool,
    /// Pretend CPUID faulting support doesn't exist.
    pub disable_cpuid_faulting: bool,
    /// Don't listen for dying-task stop events, to exercise how the tool
    /// copes without them.
    pub disable_ptrace_exit_events: bool,
    /// User override for architecture detection.
    pub forced_uarch: String,
    /// User override for the path to page files and other resources.
    pub resource_path: String,
}

/// The configuration a run starts from before the front end applies any
/// overrides: everything off, no overrides.
pub fn init_flags() -> (r: Flags)
    ensures
        r.checksum == Checksum::ChecksumNone,
        r.dump_on == DumpOn::DumpOnNone,
        r.dump_at == DumpAt::DumpAtNone,
        !r.force_things,
        !r.mark_stdio,
        !r.check_cached_maps,
        !r.fatal_errors_and_warnings,
        !r.disable_cpuid_faulting,
        !r.disable_ptrace_exit_events,
        r.forced_uarch@.len() == 0,
        r.resource_path@.len() == 0,
{
    Flags {
        checksum: Checksum::ChecksumNone,
        dump_on: DumpOn::DumpOnNone,
        dump_at: DumpAt::DumpAtNone,
        force_things: false,
        mark_stdio: false,
        check_cached_maps: false,
        fatal_errors_and_warnings: false,
        disable_cpuid_faulting: false,
        disable_ptrace_exit_events: false,
        forced_uarch: String::new(),
        resource_path: String::new(),
    }
}

} // verus!
