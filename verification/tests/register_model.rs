use rd::kernel_abi::SupportedArch;
use rd::registers::{
    compare_register_files, i64_of_u64, u64_of_i64, Registers, X64UserRegs, X86UserRegs,
};

fn x86_regs() -> X86UserRegs {
    X86UserRegs {
        ebx: 0,
        ecx: 0,
        edx: 0,
        esi: 0,
        edi: 0,
        ebp: 0,
        eax: 0,
        xds: 0,
        xes: 0,
        xfs: 0,
        xgs: 0,
        orig_eax: 0,
        eip: 0,
        xcs: 0,
        eflags: 0,
        esp: 0,
        xss: 0,
    }
}

#[test]
fn constructing_with_a_tag_reads_back_that_tag() {
    let narrow = Registers::new(SupportedArch::X86);
    assert_eq!(narrow.arch(), SupportedArch::X86);
    let wide = Registers::new(SupportedArch::X64);
    assert_eq!(wide.arch(), SupportedArch::X64);
}

#[test]
fn widening_sign_extends_only_the_accumulator() {
    let mut r = x86_regs();
    r.eax = (-11i32) as u32; // a negative syscall result
    r.ebx = 0x8000_0001; // a high address: zero-extends
    r.ecx = 7;
    let regs = Registers::X86(r);
    let wide = regs.get_ptrace();
    assert_eq!(wide.rax, 0xffff_ffff_ffff_fff5u64);
    assert_eq!(wide.rbx, 0x8000_0001u64);
    assert_eq!(wide.rcx, 7u64);
}

#[test]
fn narrowing_the_accumulator_back_reproduces_the_negative_value() {
    let mut r = x86_regs();
    r.eax = (-1234i32) as u32;
    let regs = Registers::X86(r);
    let wide = regs.get_ptrace();
    // narrow the widened accumulator back to 32 bits
    let narrowed = (wide.rax % 0x1_0000_0000) as u32;
    assert_eq!(narrowed as i32, -1234i32);
    // and the signed reading at both widths agrees
    assert_eq!(i64_of_u64(wide.rax), -1234i64);
}

#[test]
fn zero_extended_fields_roundtrip_losslessly() {
    let mut r = x86_regs();
    r.esp = 0xffff_0000;
    r.eip = 0x0804_8000;
    let wide = Registers::X86(r).get_ptrace();
    assert_eq!(wide.rsp, 0xffff_0000u64);
    assert!(wide.rsp < 0x1_0000_0000);
    assert_eq!((wide.rip % 0x1_0000_0000) as u32, 0x0804_8000);
}

#[test]
fn syscall_number_is_sign_extended_on_read() {
    let mut regs = Registers::new(SupportedArch::X86);
    regs.set_syscallno(-1);
    assert_eq!(regs.syscallno(), -1);
    let mut wide = Registers::new(SupportedArch::X64);
    wide.set_syscallno(-1);
    assert_eq!(wide.syscallno(), -1);
    wide.set_syscallno(56);
    assert_eq!(wide.syscallno(), 56);
}

#[test]
fn syscall_result_signed_reads_errors() {
    let mut regs = Registers::new(SupportedArch::X64);
    regs.set_syscall_result(u64_of_i64(-38));
    assert_eq!(regs.syscall_result_signed(), -38);
    let mut narrow = Registers::new(SupportedArch::X86);
    narrow.set_syscall_result(u64_of_i64(-11));
    assert_eq!(narrow.syscall_result_signed(), -11);
    assert_eq!(narrow.syscall_result(), 0xffff_ffff_ffff_fff5u64);
}

#[test]
fn flags_set_and_get() {
    let mut regs = Registers::new(SupportedArch::X64);
    regs.set_flags(0x246);
    assert_eq!(regs.flags(), 0x246);
    let mut narrow = Registers::new(SupportedArch::X86);
    narrow.set_flags(0x202);
    assert_eq!(narrow.flags(), 0x202);
}

#[test]
fn instruction_pointer_reads_unsigned() {
    let mut regs = Registers::new(SupportedArch::X86);
    regs.set_ip(0x8000_0002);
    assert_eq!(regs.ip(), 0x8000_0002);
}

#[test]
fn register_files_compare_exactly() {
    let a = Registers::new(SupportedArch::X64);
    let mut b = Registers::new(SupportedArch::X64);
    assert!(compare_register_files(&a, &b));
    b.set_flags(1);
    assert!(!compare_register_files(&a, &b));
    let narrow = Registers::new(SupportedArch::X86);
    assert!(!compare_register_files(&a, &narrow));
}

#[test]
fn signed_representation_roundtrips() {
    for n in [0i64, 1, -1, i64::MIN, i64::MAX, -4096] {
        assert_eq!(i64_of_u64(u64_of_i64(n)), n);
    }
    assert_eq!(u64_of_i64(-1), u64::MAX);
}
