//! Decoding of the raw status word the OS reports for a traced task.

use vstd::prelude::*;

use crate::kernel_abi::PTRACE_EVENT_EXIT;

verus! {

/// A raw wait status word, decoded on demand.
#[derive(Copy, Clone, PartialEq, Eq, Structural, Debug)]
pub struct WaitStatus {
    pub raw: u32,
}

impl WaitStatus {
    pub open spec fn spec_raw(self) -> u32 {
        self.raw
    }

    pub fn new(raw: u32) -> (r: WaitStatus)
        ensures
            r.spec_raw() == raw,
    {
        WaitStatus { raw }
    }

    pub fn raw(&self) -> (r: u32)
        ensures
            r == self.spec_raw(),
    {
        self.raw
    }

    /// The task is in a signal- or event-stop.
    pub open spec fn spec_is_stopped(self) -> bool {
        self.raw % 0x100 == 0x7f
    }

    pub fn is_stopped(&self) -> (r: bool)
        ensures
            r == self.spec_is_stopped(),
    {
        self.raw % 0x100 == 0x7f
    }

    /// The task exited normally.
    pub open spec fn spec_is_exited(self) -> bool {
        self.raw % 0x80 == 0
    }

    pub fn is_exited(&self) -> (r: bool)
        ensures
            r == self.spec_is_exited(),
    {
        self.raw % 0x80 == 0
    }

    pub open spec fn spec_exit_code(self) -> u32 {
        (self.raw / 0x100) % 0x100
    }

    pub fn exit_code(&self) -> (r: u32)
        requires
            self.spec_is_exited(),
        ensures
            r == self.spec_exit_code(),
    {
        (self.raw / 0x100) % 0x100
    }

    /// The task was terminated by a signal.
    pub open spec fn spec_is_signaled(self) -> bool {
        self.raw % 0x80 != 0 && self.raw % 0x100 != 0x7f
    }

    pub fn is_signaled(&self) -> (r: bool)
        ensures
            r == self.spec_is_signaled(),
    {
        self.raw % 0x80 != 0 && self.raw % 0x100 != 0x7f
    }

    pub open spec fn spec_stop_sig(self) -> u32 {
        (self.raw / 0x100) % 0x100
    }

    /// The signal of a signal-stop, or `None` when the task is not stopped.
    pub fn maybe_stop_sig(&self) -> (r: Option<i32>)
        ensures
            self.spec_is_stopped() ==> r == Some(self.spec_stop_sig() as i32),
            !self.spec_is_stopped() ==> r is None,
    {
        if self.is_stopped() {
            Some(((self.raw / 0x100) % 0x100) as i32)
        } else {
            None
        }
    }

    pub open spec fn spec_ptrace_event_code(self) -> u32 {
        (self.raw / 0x10000) % 0x100
    }

    pub open spec fn spec_has_ptrace_event(self) -> bool {
        self.spec_is_stopped() && self.spec_ptrace_event_code() != 0
    }

    /// The tracing-event code carried by an event-stop, or `None` when the
    /// status is not an event-stop.
    pub fn maybe_ptrace_event(&self) -> (r: Option<i32>)
        ensures
            self.spec_has_ptrace_event() ==> r == Some(self.spec_ptrace_event_code() as i32),
            !self.spec_has_ptrace_event() ==> r is None,
    {
        if self.is_stopped() {
            let code = (self.raw / 0x10000) % 0x100;
            if code != 0 {
                Some(code as i32)
            } else {
                None
            }
        } else {
            None
        }
    }

    /// The stop a traced syscall boundary reports: the trap signal with
    /// the tracer's syscall-stop marker bit.
    pub open spec fn spec_is_syscall_stop(self) -> bool {
        self.spec_is_stopped() && !self.spec_has_ptrace_event() && self.spec_stop_sig() == 0x85
    }

    pub fn is_syscall_stop(&self) -> (r: bool)
        ensures
            r == self.spec_is_syscall_stop(),
    {
        if self.is_stopped() {
            let code = (self.raw / 0x10000) % 0x100;
            code == 0 && (self.raw / 0x100) % 0x100 == 0x85
        } else {
            false
        }
    }

    pub open spec fn spec_is_ptrace_exit_event(self) -> bool {
        self.spec_has_ptrace_event() && self.spec_ptrace_event_code() == PTRACE_EVENT_EXIT
    }

    /// True when the status is the stop the OS delivers as a task begins
    /// to die.
    pub fn is_ptrace_exit_event(&self) -> (r: bool)
        ensures
            r == self.spec_is_ptrace_exit_event(),
    {
        match self.maybe_ptrace_event() {
            Some(code) => code == PTRACE_EVENT_EXIT,
            None => false,
        }
    }

    /// Encode a stop status: a stop signal in the second byte, an optional
    /// tracing-event code in the third.
    pub fn for_stop(sig: u32, event: u32) -> (r: WaitStatus)
        requires
            sig < 0x100,
            event < 0x100,
        ensures
            r.spec_is_stopped(),
            r.spec_stop_sig() == sig,
            r.spec_ptrace_event_code() == event,
    {
        let raw: u32 = 0x7f + sig * 0x100 + event * 0x10000;
        let st = WaitStatus { raw };
        proof {
            assert(st.spec_is_stopped()) by {
                assert((0x7f + sig * 0x100 + event * 0x10000) % 0x100 == 0x7f) by (nonlinear_arith)
                    requires
                        sig < 0x100 && event < 0x100,
                ;
            }
            assert(st.spec_stop_sig() == sig) by {
                assert(((0x7f + sig * 0x100 + event * 0x10000) / 0x100) % 0x100 == sig)
                    by (nonlinear_arith)
                    requires
                        sig < 0x100 && event < 0x100,
                ;
            }
            assert(st.spec_ptrace_event_code() == event) by {
                assert(((0x7f + sig * 0x100 + event * 0x10000) / 0x10000) % 0x100 == event)
                    by (nonlinear_arith)
                    requires
                        sig < 0x100 && event < 0x100,
                ;
            }
        }
        st
    }

    /// Encode a normal exit with the given code.
    pub fn for_exit(code: u32) -> (r: WaitStatus)
        requires
            code < 0x100,
        ensures
            r.spec_is_exited(),
            r.spec_exit_code() == code,
            !r.spec_is_stopped(),
    {
        let raw: u32 = code * 0x100;
        let st = WaitStatus { raw };
        proof {
            assert((code * 0x100) % 0x80 == 0 && (code * 0x100) % 0x100 == 0 && ((code * 0x100)
                / 0x100) % 0x100 == code) by (nonlinear_arith)
                requires
                    code < 0x100,
            ;
        }
        st
    }
}

impl Default for WaitStatus {
    /// The status of a task for which nothing has been observed yet.
    fn default() -> (r: WaitStatus)
        ensures
            r.spec_raw() == 0,
    {
        WaitStatus { raw: 0 }
    }
}

} // verus!
