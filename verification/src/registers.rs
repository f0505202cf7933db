//! Architecture-tagged register snapshots.
//!
//! A register set is a tagged variant over two fixed-width hardware layouts.
//! Every accessor dispatches on the tag, so the inactive layout is never
//! read.  When a narrow recorded architecture runs under the wide native
//! one, the narrow layout widens into the wide one; every general field
//! zero-extends except the accumulator, which sign-extends because it may
//! carry a negative error code.

use vstd::prelude::*;

use crate::kernel_abi::SupportedArch;

verus! {

/// How a register comparison against the recording should treat mismatches.
#[derive(Copy, Clone, PartialEq, Eq, Structural, Debug)]
pub enum MismatchBehavior {
    ExpectMismatches,
    LogMismatches,
    BailOnMismatch,
}

/// The narrow hardware layout.  Raw storage is unsigned; accessors define
/// signedness.
#[derive(Copy, Clone, PartialEq, Eq, Structural, Debug)]
pub struct X86UserRegs {
    pub ebx: u32,
    pub ecx: u32,
    pub edx: u32,
    pub esi: u32,
    pub edi: u32,
    pub ebp: u32,
    pub eax: u32,
    pub xds: u32,
    pub xes: u32,
    pub xfs: u32,
    pub xgs: u32,
    pub orig_eax: u32,
    pub eip: u32,
    pub xcs: u32,
    pub eflags: u32,
    pub esp: u32,
    pub xss: u32,
}

/// The wide hardware layout; also the exact layout the OS control
/// primitive expects from the native-width tracer.
#[derive(Copy, Clone, PartialEq, Eq, Structural, Debug)]
pub struct X64UserRegs {
    pub r15: u64,
    pub r14: u64,
    pub r13: u64,
    pub r12: u64,
    pub rbp: u64,
    pub rbx: u64,
    pub r11: u64,
    pub r10: u64,
    pub r9: u64,
    pub r8: u64,
    pub rax: u64,
    pub rcx: u64,
    pub rdx: u64,
    pub rsi: u64,
    pub rdi: u64,
    pub orig_rax: u64,
    pub rip: u64,
    pub cs: u64,
    pub eflags: u64,
    pub rsp: u64,
    pub ss: u64,
    pub fs_base: u64,
    pub gs_base: u64,
    pub ds: u64,
    pub es: u64,
    pub fs: u64,
    pub gs: u64,
}

impl X86UserRegs {
    pub fn zeroed() -> (r: X86UserRegs)
        ensures
            r == X86UserRegs::spec_zeroed(),
    {
        X86UserRegs {
            ebx: 0,
            ecx: 0,
            edx: 0,
            esi: 0,
            edi: 0,
            ebp: 0,
            eax: 0,
            xds: 0,
            xes: 0,
            xfs: 0,
            xgs: 0,
            orig_eax: 0,
            eip: 0,
            xcs: 0,
            eflags: 0,
            esp: 0,
            xss: 0,
        }
    }

    pub open spec fn spec_zeroed() -> X86UserRegs {
        X86UserRegs {
            ebx: 0,
            ecx: 0,
            edx: 0,
            esi: 0,
            edi: 0,
            ebp: 0,
            eax: 0,
            xds: 0,
            xes: 0,
            xfs: 0,
            xgs: 0,
            orig_eax: 0,
            eip: 0,
            xcs: 0,
            eflags: 0,
            esp: 0,
            xss: 0,
        }
    }
}

impl X64UserRegs {
    pub fn zeroed() -> (r: X64UserRegs)
        ensures
            r == X64UserRegs::spec_zeroed(),
    {
        X64UserRegs {
            r15: 0,
            r14: 0,
            r13: 0,
            r12: 0,
            rbp: 0,
            rbx: 0,
            r11: 0,
            r10: 0,
            r9: 0,
            r8: 0,
            rax: 0,
            rcx: 0,
            rdx: 0,
            rsi: 0,
            rdi: 0,
            orig_rax: 0,
            rip: 0,
            cs: 0,
            eflags: 0,
            rsp: 0,
            ss: 0,
            fs_base: 0,
            gs_base: 0,
            ds: 0,
            es: 0,
            fs: 0,
            gs: 0,
        }
    }

    pub open spec fn spec_zeroed() -> X64UserRegs {
        X64UserRegs {
            r15: 0,
            r14: 0,
            r13: 0,
            r12: 0,
            rbp: 0,
            rbx: 0,
            r11: 0,
            r10: 0,
            r9: 0,
            r8: 0,
            rax: 0,
            rcx: 0,
            rdx: 0,
            rsi: 0,
            rdi: 0,
            orig_rax: 0,
            rip: 0,
            cs: 0,
            eflags: 0,
            rsp: 0,
            ss: 0,
            fs_base: 0,
            gs_base: 0,
            ds: 0,
            es: 0,
            fs: 0,
            gs: 0,
        }
    }
}

// Width conversions.  The narrow layout's values live in the low 32 bits;
// the signed reading of a field is fixed by these three maps.
/// Zero-extension of a narrow field into a wide one.
pub open spec fn spec_zext32(x: u32) -> u64 {
    x as u64
}

/// Sign-extension of a narrow field into a wide one: values with the top
/// bit set map to the same negative value read at the wide width.
pub open spec fn spec_sext32(x: u32) -> u64 {
    if x < 0x8000_0000 {
        x as u64
    } else {
        (x as u64 + 0xffff_ffff_0000_0000) as u64
    }
}

/// The low 32 bits of a wide field: how a wide value narrows.
pub open spec fn spec_low32(x: u64) -> u32 {
    (x % 0x1_0000_0000) as u32
}

/// The signed value a 32-bit field carries.
pub open spec fn spec_i32_of_u32(x: u32) -> int {
    if x < 0x8000_0000 {
        x as int
    } else {
        x as int - 0x1_0000_0000
    }
}

/// The signed value a 64-bit field carries.
pub open spec fn spec_i64_of_u64(x: u64) -> int {
    if x < 0x8000_0000_0000_0000 {
        x as int
    } else {
        x as int - 0x1_0000_0000_0000_0000
    }
}

/// The 64-bit two's-complement representation of a signed value.
pub open spec fn spec_u64_of_i64(x: i64) -> u64 {
    if x >= 0 {
        x as u64
    } else {
        (x as int + 0x1_0000_0000_0000_0000) as u64
    }
}

pub fn sext32(x: u32) -> (r: u64)
    ensures
        r == spec_sext32(x),
{
    if x < 0x8000_0000 {
        x as u64
    } else {
        x as u64 + 0xffff_ffff_0000_0000
    }
}

pub fn low32(x: u64) -> (r: u32)
    ensures
        r == spec_low32(x),
{
    (x % 0x1_0000_0000) as u32
}

pub fn u64_of_i64(x: i64) -> (r: u64)
    ensures
        r == spec_u64_of_i64(x),
{
    if x >= 0 {
        x as u64
    } else {
        u64::MAX - ((-(x + 1)) as u64)
    }
}

pub fn i64_of_u64(x: u64) -> (r: i64)
    ensures
        r as int == spec_i64_of_u64(x),
{
    if x < 0x8000_0000_0000_0000 {
        x as i64
    } else {
        -((u64::MAX - x) as i64) - 1
    }
}

// The three widen/narrow maps of the layout conversion, kept as named
// functions because the asymmetry between them is a correctness
// requirement: only the accumulator sign-extends.
/// Widen without sign extension.
pub fn from_x86_narrow(r64: &mut u64, r32: u32)
    ensures
        *final(r64) == spec_zext32(r32),
{
    *r64 = r32 as u64;
}

/// Widen with sign extension; used for the accumulator only, which may
/// carry a negative error code.
pub fn from_x86_narrow_signed(r64: &mut u64, r32: u32)
    ensures
        *final(r64) == spec_sext32(r32),
{
    *r64 = sext32(r32);
}

/// Narrow a wide field back to the narrow layout.
pub fn to_x86_narrow(r32: &mut u32, r64: u64)
    ensures
        *final(r32) == spec_low32(r64),
{
    *r32 = low32(r64);
}

/// The widened image of a narrow register file over a wide base: the
/// accumulator sign-extends, every other transported field zero-extends,
/// and fields with no narrow counterpart keep the base's value.
pub open spec fn spec_convert_x86(base: X64UserRegs, x86: X86UserRegs) -> X64UserRegs {
    X64UserRegs {
        rax: spec_sext32(x86.eax),
        rbx: spec_zext32(x86.ebx),
        rcx: spec_zext32(x86.ecx),
        rdx: spec_zext32(x86.edx),
        rsi: spec_zext32(x86.esi),
        rdi: spec_zext32(x86.edi),
        rsp: spec_zext32(x86.esp),
        rbp: spec_zext32(x86.ebp),
        rip: spec_zext32(x86.eip),
        orig_rax: spec_zext32(x86.orig_eax),
        eflags: spec_zext32(x86.eflags),
        cs: spec_zext32(x86.xcs),
        ds: spec_zext32(x86.xds),
        es: spec_zext32(x86.xes),
        fs: spec_zext32(x86.xfs),
        gs: spec_zext32(x86.xgs),
        ss: spec_zext32(x86.xss),
        ..base
    }
}

/// Widen a narrow register file into `x64`.
pub fn convert_x86(x64: &mut X64UserRegs, x86: &X86UserRegs)
    ensures
        *final(x64) == spec_convert_x86(*old(x64), *x86),
{
    from_x86_narrow_signed(&mut x64.rax, x86.eax);
    from_x86_narrow(&mut x64.rbx, x86.ebx);
    from_x86_narrow(&mut x64.rcx, x86.ecx);
    from_x86_narrow(&mut x64.rdx, x86.edx);
    from_x86_narrow(&mut x64.rsi, x86.esi);
    from_x86_narrow(&mut x64.rdi, x86.edi);
    from_x86_narrow(&mut x64.rsp, x86.esp);
    from_x86_narrow(&mut x64.rbp, x86.ebp);
    from_x86_narrow(&mut x64.rip, x86.eip);
    from_x86_narrow(&mut x64.orig_rax, x86.orig_eax);
    from_x86_narrow(&mut x64.eflags, x86.eflags);
    from_x86_narrow(&mut x64.cs, x86.xcs);
    from_x86_narrow(&mut x64.ds, x86.xds);
    from_x86_narrow(&mut x64.es, x86.xes);
    from_x86_narrow(&mut x64.fs, x86.xfs);
    from_x86_narrow(&mut x64.gs, x86.xgs);
    from_x86_narrow(&mut x64.ss, x86.xss);
}

/// Widening then narrowing loses nothing: the accumulator's signed value
/// is reproduced exactly, negative results included, and every other
/// transported field zero-extends losslessly, so narrowing recovers it.
pub proof fn lemma_widen_narrow_roundtrip(base: X64UserRegs, x86: X86UserRegs)
    ensures
        spec_low32(spec_convert_x86(base, x86).rax) == x86.eax,
        spec_i64_of_u64(spec_convert_x86(base, x86).rax) == spec_i32_of_u32(x86.eax),
        spec_convert_x86(base, x86).rbx == x86.ebx as u64,
        spec_convert_x86(base, x86).rcx == x86.ecx as u64,
        spec_convert_x86(base, x86).rdx == x86.edx as u64,
        spec_convert_x86(base, x86).rsi == x86.esi as u64,
        spec_convert_x86(base, x86).rdi == x86.edi as u64,
        spec_convert_x86(base, x86).rsp == x86.esp as u64,
        spec_convert_x86(base, x86).rbp == x86.ebp as u64,
        spec_convert_x86(base, x86).rip == x86.eip as u64,
        spec_convert_x86(base, x86).orig_rax == x86.orig_eax as u64,
        spec_convert_x86(base, x86).eflags == x86.eflags as u64,
        spec_convert_x86(base, x86).cs == x86.xcs as u64,
        spec_convert_x86(base, x86).ds == x86.xds as u64,
        spec_convert_x86(base, x86).es == x86.xes as u64,
        spec_convert_x86(base, x86).fs == x86.xfs as u64,
        spec_convert_x86(base, x86).gs == x86.xgs as u64,
        spec_convert_x86(base, x86).ss == x86.xss as u64,
        spec_low32(spec_convert_x86(base, x86).rbx) == x86.ebx,
{
}

/// Swapping the widening maps — zero-extending the accumulator instead —
/// changes the signed value whenever the recorded result was negative.
pub proof fn lemma_widening_asymmetry_required(x: u32)
    requires
        x >= 0x8000_0000,  // a negative recorded result
    ensures
        spec_i64_of_u64(spec_sext32(x)) == spec_i32_of_u32(x),
        spec_i64_of_u64(spec_zext32(x)) != spec_i32_of_u32(x),
{
}

/// An architecture-tagged register file: the tag selects which fixed
/// layout is live, and the inactive layout does not exist in the value.
#[derive(Copy, Clone, PartialEq, Eq, Structural, Debug)]
pub enum Registers {
    X86(X86UserRegs),
    X64(X64UserRegs),
}

impl Registers {
    pub open spec fn spec_arch(self) -> SupportedArch {
        match self {
            Registers::X86(_) => SupportedArch::X86,
            Registers::X64(_) => SupportedArch::X64,
        }
    }

    /// A zeroed register file tagged with `arch`.
    pub fn new(arch: SupportedArch) -> (r: Registers)
        ensures
            r.spec_arch() == arch,
            r == Registers::spec_new(arch),
    {
        match arch {
            SupportedArch::X86 => Registers::X86(X86UserRegs::zeroed()),
            SupportedArch::X64 => Registers::X64(X64UserRegs::zeroed()),
        }
    }

    pub open spec fn spec_new(arch: SupportedArch) -> Registers {
        match arch {
            SupportedArch::X86 => Registers::X86(X86UserRegs::spec_zeroed()),
            SupportedArch::X64 => Registers::X64(X64UserRegs::spec_zeroed()),
        }
    }

    pub fn arch(&self) -> (r: SupportedArch)
        ensures
            r == self.spec_arch(),
    {
        match self {
            Registers::X86(_) => SupportedArch::X86,
            Registers::X64(_) => SupportedArch::X64,
        }
    }

    /// The exact byte layout the OS control primitive expects: the wide
    /// layout itself, or the widened image of the narrow one.
    pub open spec fn spec_get_ptrace(self) -> X64UserRegs {
        match self {
            Registers::X64(r) => r,
            Registers::X86(r) => spec_convert_x86(X64UserRegs::spec_zeroed(), r),
        }
    }

    pub fn get_ptrace(&self) -> (r: X64UserRegs)
        ensures
            r == self.spec_get_ptrace(),
    {
        match self {
            Registers::X64(r) => *r,
            Registers::X86(r) => {
                let mut result = X64UserRegs::zeroed();
                convert_x86(&mut result, r);
                result
            },
        }
    }

    /// The syscall number register, read signed.
    pub open spec fn spec_syscallno(self) -> int {
        match self {
            Registers::X86(r) => spec_i32_of_u32(r.eax),
            Registers::X64(r) => spec_i64_of_u64(r.rax),
        }
    }

    pub fn syscallno(&self) -> (r: i64)
        ensures
            r as int == self.spec_syscallno(),
    {
        match self {
            Registers::X86(r) => {
                if r.eax < 0x8000_0000 {
                    r.eax as i64
                } else {
                    r.eax as i64 - 0x1_0000_0000
                }
            },
            Registers::X64(r) => i64_of_u64(r.rax),
        }
    }

    pub open spec fn spec_with_syscallno(self, n: i64) -> Registers {
        match self {
            Registers::X86(r) => Registers::X86(
                X86UserRegs { eax: spec_low32(spec_u64_of_i64(n)), ..r },
            ),
            Registers::X64(r) => Registers::X64(X64UserRegs { rax: spec_u64_of_i64(n), ..r }),
        }
    }

    pub fn set_syscallno(&mut self, n: i64)
        ensures
            *final(self) == old(self).spec_with_syscallno(n),
    {
        let raw = u64_of_i64(n);
        match self {
            Registers::X86(r) => {
                r.eax = low32(raw);
            },
            Registers::X64(r) => {
                r.rax = raw;
            },
        }
    }

    /// The result register, read at full width; a narrow result
    /// sign-extends, since it may carry a negative error code.
    pub open spec fn spec_syscall_result(self) -> u64 {
        match self {
            Registers::X86(r) => spec_sext32(r.eax),
            Registers::X64(r) => r.rax,
        }
    }

    pub fn syscall_result(&self) -> (r: u64)
        ensures
            r == self.spec_syscall_result(),
    {
        match self {
            Registers::X86(r) => sext32(r.eax),
            Registers::X64(r) => r.rax,
        }
    }

    pub fn syscall_result_signed(&self) -> (r: i64)
        ensures
            r as int == spec_i64_of_u64(self.spec_syscall_result()),
    {
        let raw = self.syscall_result();
        i64_of_u64(raw)
    }

    pub open spec fn spec_with_syscall_result(self, v: u64) -> Registers {
        match self {
            Registers::X86(r) => Registers::X86(X86UserRegs { eax: spec_low32(v), ..r }),
            Registers::X64(r) => Registers::X64(X64UserRegs { rax: v, ..r }),
        }
    }

    pub fn set_syscall_result(&mut self, v: u64)
        ensures
            *final(self) == old(self).spec_with_syscall_result(v),
    {
        match self {
            Registers::X86(r) => {
                r.eax = low32(v);
            },
            Registers::X64(r) => {
                r.rax = v;
            },
        }
    }

    /// The syscall number as it stood at syscall entry.
    pub open spec fn spec_original_syscallno(self) -> int {
        match self {
            Registers::X86(r) => spec_i32_of_u32(r.orig_eax),
            Registers::X64(r) => spec_i64_of_u64(r.orig_rax),
        }
    }

    pub fn original_syscallno(&self) -> (r: i64)
        ensures
            r as int == self.spec_original_syscallno(),
    {
        match self {
            Registers::X86(r) => {
                if r.orig_eax < 0x8000_0000 {
                    r.orig_eax as i64
                } else {
                    r.orig_eax as i64 - 0x1_0000_0000
                }
            },
            Registers::X64(r) => i64_of_u64(r.orig_rax),
        }
    }

    pub open spec fn spec_with_original_syscallno(self, n: i64) -> Registers {
        match self {
            Registers::X86(r) => Registers::X86(
                X86UserRegs { orig_eax: spec_low32(spec_u64_of_i64(n)), ..r },
            ),
            Registers::X64(r) => Registers::X64(X64UserRegs { orig_rax: spec_u64_of_i64(n), ..r }),
        }
    }

    pub fn set_original_syscallno(&mut self, n: i64)
        ensures
            *final(self) == old(self).spec_with_original_syscallno(n),
    {
        let raw = u64_of_i64(n);
        match self {
            Registers::X86(r) => {
                r.orig_eax = low32(raw);
            },
            Registers::X64(r) => {
                r.orig_rax = raw;
            },
        }
    }

    pub open spec fn spec_flags(self) -> u64 {
        match self {
            Registers::X86(r) => spec_sext32(r.eflags),
            Registers::X64(r) => r.eflags,
        }
    }

    pub fn flags(&self) -> (r: u64)
        ensures
            r == self.spec_flags(),
    {
        match self {
            Registers::X86(r) => sext32(r.eflags),
            Registers::X64(r) => r.eflags,
        }
    }

    pub open spec fn spec_with_flags(self, v: u64) -> Registers {
        match self {
            Registers::X86(r) => Registers::X86(X86UserRegs { eflags: spec_low32(v), ..r }),
            Registers::X64(r) => Registers::X64(X64UserRegs { eflags: v, ..r }),
        }
    }

    pub fn set_flags(&mut self, v: u64)
        ensures
            *final(self) == old(self).spec_with_flags(v),
    {
        match self {
            Registers::X86(r) => {
                r.eflags = low32(v);
            },
            Registers::X64(r) => {
                r.eflags = v;
            },
        }
    }

    /// The instruction pointer; addresses read unsigned.
    pub open spec fn spec_ip(self) -> u64 {
        match self {
            Registers::X86(r) => spec_zext32(r.eip),
            Registers::X64(r) => r.rip,
        }
    }

    pub fn ip(&self) -> (r: u64)
        ensures
            r == self.spec_ip(),
    {
        match self {
            Registers::X86(r) => r.eip as u64,
            Registers::X64(r) => r.rip,
        }
    }

    pub open spec fn spec_with_ip(self, v: u64) -> Registers {
        match self {
            Registers::X86(r) => Registers::X86(X86UserRegs { eip: spec_low32(v), ..r }),
            Registers::X64(r) => Registers::X64(X64UserRegs { rip: v, ..r }),
        }
    }

    pub fn set_ip(&mut self, v: u64)
        ensures
            *final(self) == old(self).spec_with_ip(v),
    {
        match self {
            Registers::X86(r) => {
                r.eip = low32(v);
            },
            Registers::X64(r) => {
                r.rip = v;
            },
        }
    }

    // Syscall argument registers.  A narrow value sign-extends, matching
    // how the raw storage reads at native width.
    pub open spec fn spec_arg1(self) -> u64 {
        match self {
            Registers::X86(r) => spec_sext32(r.ebx),
            Registers::X64(r) => r.rdi,
        }
    }

    pub fn arg1(&self) -> (r: u64)
        ensures
            r == self.spec_arg1(),
    {
        match self {
            Registers::X86(r) => sext32(r.ebx),
            Registers::X64(r) => r.rdi,
        }
    }

    pub open spec fn spec_with_arg1(self, v: u64) -> Registers {
        match self {
            Registers::X86(r) => Registers::X86(X86UserRegs { ebx: spec_low32(v), ..r }),
            Registers::X64(r) => Registers::X64(X64UserRegs { rdi: v, ..r }),
        }
    }

    pub fn set_arg1(&mut self, v: u64)
        ensures
            *final(self) == old(self).spec_with_arg1(v),
    {
        match self {
            Registers::X86(r) => {
                r.ebx = low32(v);
            },
            Registers::X64(r) => {
                r.rdi = v;
            },
        }
    }

    /// The raw clone-flag argument, read unsigned: flag words are bit
    /// sets, not signed quantities.
    pub open spec fn spec_clone_flags_arg(self) -> u64 {
        match self {
            Registers::X86(r) => r.ebx as u64,
            Registers::X64(r) => r.rdi,
        }
    }

    pub fn clone_flags_arg(&self) -> (r: u64)
        ensures
            r == self.spec_clone_flags_arg(),
    {
        match self {
            Registers::X86(r) => r.ebx as u64,
            Registers::X64(r) => r.rdi,
        }
    }

    /// Store a flag word into the clone-flag argument register.  A word
    /// that fits the narrow width is stored exactly.
    pub fn set_clone_flags_arg(&mut self, v: u64)
        requires
            old(self).spec_arch() == SupportedArch::X86 ==> v < 0x1_0000_0000,
        ensures
            *final(self) == old(self).spec_with_arg1(v),
            final(self).spec_clone_flags_arg() == v,
            final(self).spec_arch() == old(self).spec_arch(),
    {
        match self {
            Registers::X86(r) => {
                r.ebx = low32(v);
            },
            Registers::X64(r) => {
                r.rdi = v;
            },
        }
    }

    pub open spec fn spec_arg2(self) -> u64 {
        match self {
            Registers::X86(r) => spec_sext32(r.ecx),
            Registers::X64(r) => r.rsi,
        }
    }

    pub fn arg2(&self) -> (r: u64)
        ensures
            r == self.spec_arg2(),
    {
        match self {
            Registers::X86(r) => sext32(r.ecx),
            Registers::X64(r) => r.rsi,
        }
    }

    pub open spec fn spec_with_arg2(self, v: u64) -> Registers {
        match self {
            Registers::X86(r) => Registers::X86(X86UserRegs { ecx: spec_low32(v), ..r }),
            Registers::X64(r) => Registers::X64(X64UserRegs { rsi: v, ..r }),
        }
    }

    pub fn set_arg2(&mut self, v: u64)
        ensures
            *final(self) == old(self).spec_with_arg2(v),
    {
        match self {
            Registers::X86(r) => {
                r.ecx = low32(v);
            },
            Registers::X64(r) => {
                r.rsi = v;
            },
        }
    }

    pub open spec fn spec_arg3(self) -> u64 {
        match self {
            Registers::X86(r) => spec_sext32(r.edx),
            Registers::X64(r) => r.rdx,
        }
    }

    pub fn arg3(&self) -> (r: u64)
        ensures
            r == self.spec_arg3(),
    {
        match self {
            Registers::X86(r) => sext32(r.edx),
            Registers::X64(r) => r.rdx,
        }
    }

    pub open spec fn spec_arg4(self) -> u64 {
        match self {
            Registers::X86(r) => spec_sext32(r.esi),
            Registers::X64(r) => r.r10,
        }
    }

    pub fn arg4(&self) -> (r: u64)
        ensures
            r == self.spec_arg4(),
    {
        match self {
            Registers::X86(r) => sext32(r.esi),
            Registers::X64(r) => r.r10,
        }
    }

    pub open spec fn spec_with_arg4(self, v: u64) -> Registers {
        match self {
            Registers::X86(r) => Registers::X86(X86UserRegs { esi: spec_low32(v), ..r }),
            Registers::X64(r) => Registers::X64(X64UserRegs { r10: v, ..r }),
        }
    }

    pub fn set_arg4(&mut self, v: u64)
        ensures
            *final(self) == old(self).spec_with_arg4(v),
    {
        match self {
            Registers::X86(r) => {
                r.esi = low32(v);
            },
            Registers::X64(r) => {
                r.r10 = v;
            },
        }
    }

    pub open spec fn spec_arg5(self) -> u64 {
        match self {
            Registers::X86(r) => spec_sext32(r.edi),
            Registers::X64(r) => r.r8,
        }
    }

    pub fn arg5(&self) -> (r: u64)
        ensures
            r == self.spec_arg5(),
    {
        match self {
            Registers::X86(r) => sext32(r.edi),
            Registers::X64(r) => r.r8,
        }
    }
}

/// Writing a value read from a register back into a register of the same
/// width reproduces it exactly, whichever signedness the accessors gave
/// it: narrowing undoes sign-extension, and the 64-bit two's-complement
/// representation of a signed value reads back as that value.
pub proof fn lemma_reg_roundtrips()
    ensures
        forall|x: u32| #[trigger] spec_low32(spec_sext32(x)) == x,
        forall|n: i64|
            -0x8000_0000 <= n < 0x8000_0000 ==> #[trigger] spec_i32_of_u32(
                spec_low32(spec_u64_of_i64(n)),
            ) == n as int,
        forall|n: i64| #[trigger] spec_i64_of_u64(spec_u64_of_i64(n)) == n as int,
        forall|x: u32| #[trigger] spec_i64_of_u64(spec_sext32(x)) == spec_i32_of_u32(x),
{
    assert forall|x: u32| #[trigger] spec_low32(spec_sext32(x)) == x by {
        if x >= 0x8000_0000 {
            assert((x as u64 + 0xffff_ffff_0000_0000) % 0x1_0000_0000 == x as u64) by (bit_vector)
                requires
                    x >= 0x8000_0000,
            ;
        }
    }
    assert forall|n: i64|
        -0x8000_0000 <= n < 0x8000_0000 implies #[trigger] spec_i32_of_u32(
        spec_low32(spec_u64_of_i64(n)),
    ) == n as int by {
        if n < 0 {
            let raw = (n as int + 0x1_0000_0000_0000_0000) as u64;
            assert(raw >= 0xffff_ffff_8000_0000);
            assert(raw % 0x1_0000_0000 == raw - 0xffff_ffff_0000_0000) by (bit_vector)
                requires
                    raw >= 0xffff_ffff_8000_0000,
            ;
        }
    }
    assert forall|x: u32| #[trigger] spec_i64_of_u64(spec_sext32(x)) == spec_i32_of_u32(x) by {
    }
}

/// Field-for-field equality of two register files; the comparison a
/// validation pass uses against the recording.
pub fn compare_register_files(rs1: &Registers, rs2: &Registers) -> (r: bool)
    ensures
        r == (rs1 == rs2),
{
    rs1 == rs2
}

} // verus!
