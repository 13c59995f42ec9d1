use rd_registers::catalog::{x64regs, x86regs, RegisterValue, Architecture, X64Arch, X86Arch};
use rd_registers::compare::{maybe_log_reg_mismatch, LogLevel, MismatchBehavior};
use rd_registers::gdb_register::{
    DREG_64_EFLAGS, DREG_64_FOSEG, DREG_64_ST0, DREG_EAX, DREG_EFLAGS, DREG_FOSEG, DREG_FS,
    DREG_MXCSR, DREG_ORIG_EAX, DREG_RAX, DREG_RSP, DREG_ST0, DREG_XMM0,
};
use rd_registers::kernel_abi::SupportedArch;
use rd_registers::registers::{RegisterWrite, Registers};
use rd_registers::remote_ptr::{RemoteCodePtr, RemotePtr};
use rd_registers::serialize::TraceStyle;

fn full_width_mask(nbytes: usize) -> u64 {
    if nbytes == 8 {
        u64::MAX
    } else {
        (1u64 << (nbytes * 8)) - 1
    }
}

fn filled(arch: SupportedArch, seed: u8) -> Registers {
    let mut r = Registers::new(arch);
    let catalogue = match arch {
        SupportedArch::X86 => x86regs(),
        SupportedArch::X64 => x64regs(),
    };
    for (regno, rv) in catalogue.iter().enumerate() {
        if rv.nbytes > 0 {
            let bytes: Vec<u8> = (0..rv.nbytes).map(|k| seed.wrapping_mul(31).wrapping_add((regno * 7 + k) as u8)).collect();
            assert_eq!(r.write_register(&bytes, regno as u32), RegisterWrite::Written);
        }
    }
    r
}

fn compact(r: &Registers) -> String {
    let mut out = Vec::new();
    r.write_register_file_compact(&mut out);
    String::from_utf8(out).unwrap()
}

#[test]
fn catalogue_sizes_and_masks_are_well_formed() {
    for catalogue in [x86regs(), x64regs()] {
        for rv in catalogue.iter() {
            assert!(rv.nbytes == 0 || rv.nbytes == 4 || rv.nbytes == 8);
            assert_eq!(rv.comparison_mask & !full_width_mask(rv.nbytes), 0, "{}", rv.name);
        }
    }
    assert_eq!(x86regs().len(), 50);
    assert_eq!(x64regs().len(), 76);
    assert_eq!(X86Arch::num_registers(), 50);
    assert_eq!(X64Arch::get_arch(), SupportedArch::X64);
    assert_eq!(X64Arch::get_regs_info().len(), 76);
}

#[test]
fn catalogue_entries_follow_the_native_layouts() {
    let x86 = x86regs();
    assert_eq!(x86[DREG_EAX as usize].name, "eax");
    assert_eq!(x86[DREG_EAX as usize].offset, 24);
    assert_eq!(x86[DREG_EAX as usize].comparison_mask, 0xffff_ffff);
    assert_eq!(x86[DREG_FS as usize].comparison_mask, 0xffff_fffc);
    assert_eq!(x86[DREG_ORIG_EAX as usize].comparison_mask, 0);
    assert_eq!(x86[DREG_ST0 as usize].nbytes, 0);
    let x64 = x64regs();
    assert_eq!(x64[DREG_RAX as usize].offset, 80);
    assert_eq!(x64[DREG_RSP as usize].nbytes, 8);
    assert_eq!(x64[DREG_64_EFLAGS as usize].nbytes, 4);
    assert_eq!(x64[DREG_64_EFLAGS as usize].offset, 144);
    assert_eq!(x64[DREG_64_ST0 as usize].nbytes, 0);
}

#[test]
fn mask_for_nbytes_covers_the_register() {
    assert_eq!(RegisterValue::mask_for_nbytes(0), 0);
    assert_eq!(RegisterValue::mask_for_nbytes(1), 0xff);
    assert_eq!(RegisterValue::mask_for_nbytes(4), 0xffff_ffff);
    assert_eq!(RegisterValue::mask_for_nbytes(8), u64::MAX);
    let rv = RegisterValue::new("eax", 24, 4);
    assert_eq!(rv.comparison_mask, 0xffff_ffff);
    let rv = RegisterValue::new_with_mask_with_size_override("eflags", 144, 8, 0xffff_ffff, 4);
    assert_eq!(rv.nbytes, 4);
    let rv = RegisterValue::new_with_mask_with_size_override("rsp", 152, 8, 0, 0);
    assert_eq!(rv.nbytes, 8);
    assert_eq!(rv.comparison_mask, 0);
}

#[test]
fn write_then_read_round_trips_every_register() {
    for arch in [SupportedArch::X86, SupportedArch::X64] {
        let catalogue = match arch {
            SupportedArch::X86 => x86regs(),
            SupportedArch::X64 => x64regs(),
        };
        for (regno, rv) in catalogue.iter().enumerate() {
            if rv.nbytes == 0 {
                continue;
            }
            let mut r = filled(arch, 3);
            let value: Vec<u8> = (0..rv.nbytes).map(|k| 0xa0 + k as u8).collect();
            r.write_register(&value, regno as u32);
            let mut buf = [0u8; 8];
            assert_eq!(r.read_register(&mut buf, regno as u32), Some(rv.nbytes));
            assert_eq!(&buf[..rv.nbytes], &value[..]);
        }
    }
}

#[test]
fn undefined_registers_read_nothing() {
    let r = filled(SupportedArch::X64, 1);
    let mut buf = [0x55u8; 8];
    assert_eq!(r.read_register(&mut buf, DREG_64_ST0), None);
    assert_eq!(buf, [0x55u8; 8]);
    assert_eq!(r.read_register(&mut buf, 1000), None);
    assert_eq!(buf, [0x55u8; 8]);
}

#[test]
fn writes_to_undefined_registers_are_dropped() {
    let mut r = filled(SupportedArch::X86, 2);
    let before = compact(&r);
    assert_eq!(r.write_register(&[1, 2, 3, 4], DREG_FOSEG), RegisterWrite::Ignored);
    assert_eq!(r.write_register(&[1, 2, 3, 4], DREG_MXCSR), RegisterWrite::Ignored);
    assert_eq!(r.write_register(&[1, 2, 3, 4], DREG_XMM0), RegisterWrite::Unhandled);
    assert_eq!(r.write_register(&[1, 2, 3, 4], 999), RegisterWrite::Unhandled);
    assert_eq!(compact(&r), before);
    let mut r = Registers::new(SupportedArch::X64);
    assert_eq!(r.write_register(&[1, 2, 3, 4], DREG_64_FOSEG), RegisterWrite::Ignored);
    assert_eq!(r.write_register(&[1, 2, 3, 4], DREG_FOSEG), RegisterWrite::Unhandled);
}

#[test]
fn short_and_long_writes_touch_only_the_register() {
    let mut r = Registers::new(SupportedArch::X64);
    r.set_syscall_result(0x1122_3344_5566_7788);
    r.write_register(&[0xaa, 0xbb], DREG_RAX);
    assert_eq!(r.ax(), 0x1122_3344_5566_bbaa);
    r.write_register(&[1, 2, 3, 4, 5, 6, 7, 8, 9, 10], DREG_RAX);
    assert_eq!(r.ax(), 0x0807_0605_0403_0201);
    assert_eq!(r.cx(), 0);
}

#[test]
fn registers_by_user_offset() {
    let mut r = Registers::new(SupportedArch::X64);
    r.write_register_by_user_offset(80, 0x1234);
    assert_eq!(r.syscall_result(), 0x1234);
    let mut buf = [0u8; 8];
    assert_eq!(r.read_registers_by_user_offset(&mut buf, 80), Some(8));
    assert_eq!(buf, [0x34, 0x12, 0, 0, 0, 0, 0, 0]);
    assert_eq!(r.read_registers_by_user_offset(&mut buf, 81), None);
    r.set_flags(0xdead_beef_0000_0000);
    r.write_register_by_user_offset(144, 0xffff_ffff_0000_0246);
    assert_eq!(r.flags(), 0xdead_beef_0000_0246);
    let before = compact(&r);
    r.write_register_by_user_offset(3, 7);
    assert_eq!(compact(&r), before);
    let mut r = Registers::new(SupportedArch::X86);
    r.write_register_by_user_offset(24, 0x1_2345_6789);
    assert_eq!(r.syscall_result(), 0x2345_6789);
    assert_eq!(r.read_registers_by_user_offset(&mut buf, 24), Some(4));
}

#[test]
fn x86_getters_sign_extend() {
    let mut r = Registers::new(SupportedArch::X86);
    r.set_arg1(usize::MAX);
    assert_eq!(r.arg1(), usize::MAX);
    assert_eq!(r.arg1_signed(), -1);
    r.set_arg2(0x8000_0000);
    assert_eq!(r.arg2(), 0xffff_ffff_8000_0000);
    r.set_arg3(0x7fff_ffff);
    assert_eq!(r.arg3(), 0x7fff_ffff);
    r.set_arg4(0x1_0000_0005);
    assert_eq!(r.arg4(), 5);
    r.set_syscallno(-38);
    assert_eq!(r.syscallno(), -38);
}

#[test]
fn syscall_arguments_by_index() {
    for arch in [SupportedArch::X86, SupportedArch::X64] {
        let mut r = Registers::new(arch);
        for i in 1..=6 {
            r.set_arg(i, 100 + i as usize);
        }
        assert_eq!(r.arg1(), 101);
        assert_eq!(r.arg2(), 102);
        assert_eq!(r.arg3(), 103);
        assert_eq!(r.arg4(), 104);
        assert_eq!(r.arg5(), 105);
        assert_eq!(r.arg6(), 106);
        for i in 1..=6 {
            assert_eq!(r.arg(i), 100 + i as usize);
        }
        r.set_arg_from_remote_ptr(3, RemotePtr::<u8>::new_from_val(0x4000));
        assert_eq!(r.arg(3), 0x4000);
    }
    let mut r = Registers::new(SupportedArch::X64);
    r.set_arg4(9);
    r.set_arg5(8);
    r.set_arg6(7);
    assert_eq!(r.si(), 0);
    let mut buf = [0u8; 8];
    r.read_register(&mut buf, 10);
    assert_eq!(buf[0], 9);
    r.set_r10(1);
    r.set_r8(2);
    r.set_r9(3);
    r.set_r11(4);
    assert_eq!((r.arg4(), r.arg5(), r.arg6()), (1, 2, 3));
}

#[test]
fn pointers_flags_and_selectors() {
    for arch in [SupportedArch::X86, SupportedArch::X64] {
        let mut r = Registers::new(arch);
        r.set_ip(RemoteCodePtr::new_from_val(0x0804_8000));
        r.set_sp(RemotePtr::<u8>::new_from_val(0xbfff_f000 - 0x8000_0000));
        assert_eq!(r.ip().as_usize(), 0x0804_8000);
        assert_eq!(r.sp().as_usize(), 0x3fff_f000);
        r.set_flags(0x346);
        assert!(r.singlestep_flag());
        assert!(!r.df_flag());
        r.clear_singlestep_flag();
        assert!(!r.singlestep_flag());
        assert_eq!(r.flags(), 0x246);
        r.set_flags(0x646);
        assert!(r.df_flag());
        r.set_di(1);
        r.set_si(2);
        r.set_cx(3);
        assert_eq!((r.di(), r.si(), r.cx()), (1, 2, 3));
        assert_eq!((r.cs(), r.ss(), r.ds(), r.es(), r.fs(), r.gs()), (0, 0, 0, 0, 0, 0));
        assert_eq!(r.bp(), 0);
    }
}

#[test]
fn fs_and_gs_base() {
    let mut r = Registers::new(SupportedArch::X64);
    r.set_fs_base(0x7f00_0000_1000);
    r.set_gs_base(0x7f00_0000_2000);
    assert_eq!(r.fs_base(), 0x7f00_0000_1000);
    assert_eq!(r.gs_base(), 0x7f00_0000_2000);
}

#[test]
fn rdtsc_and_cpuid_outputs() {
    for arch in [SupportedArch::X86, SupportedArch::X64] {
        let mut r = Registers::new(arch);
        r.set_rdtsc_output(0x1234_5678_9abc_def0);
        assert_eq!(r.ax() as u64 & 0xffff_ffff, 0x9abc_def0);
        assert_eq!(r.arg3(), 0x1234_5678);
        r.set_cpuid_output(1, 2, 3, 4);
        assert_eq!(r.ax(), 1);
        assert_eq!(r.arg1(), if arch == SupportedArch::X86 { 2 } else { 0 });
        assert_eq!(r.cx(), 3);
        assert_eq!(r.arg3(), 4);
    }
}

#[test]
fn syscall_failed_at_the_errno_boundaries() {
    for arch in [SupportedArch::X86, SupportedArch::X64] {
        let mut r = Registers::new(arch);
        let cases: [(isize, bool); 5] = [(-4096, false), (-4095, true), (-1, true), (0, false), (-4097, false)];
        for (value, failed) in cases {
            r.set_syscall_result(value as usize);
            assert_eq!(r.syscall_failed(), failed, "{}", value);
            assert_eq!(r.syscall_result_signed(), value);
        }
    }
}

#[test]
fn syscall_may_restart_only_for_restart_codes() {
    for arch in [SupportedArch::X86, SupportedArch::X64] {
        let mut r = Registers::new(arch);
        for code in [512isize, 513, 514, 516] {
            r.set_syscall_result((-code) as usize);
            assert!(r.syscall_may_restart(), "{}", code);
        }
        for value in [-(libc::EINVAL as isize), -515, 512, 0, -1] {
            r.set_syscall_result(value as usize);
            assert!(!r.syscall_may_restart(), "{}", value);
        }
    }
}

#[test]
fn a_file_matches_itself() {
    for arch in [SupportedArch::X86, SupportedArch::X64] {
        for seed in 0..4u8 {
            let r = filled(arch, seed);
            assert!(r.matches(&r));
            let c = Registers::compare_register_files(&r, &r, MismatchBehavior::BailOnMismatch);
            assert!(c.matched);
            assert!(c.mismatches.is_empty());
            assert!(!c.fatal);
        }
    }
}

fn with_orig(arch: SupportedArch, orig: isize) -> Registers {
    let mut r = Registers::new(arch);
    r.set_original_syscallno(orig as usize);
    r
}

#[test]
fn negative_syscall_pseudo_register_values_are_not_compared() {
    for arch in [SupportedArch::X86, SupportedArch::X64] {
        assert!(with_orig(arch, -5).matches(&with_orig(arch, 5)));
        assert!(with_orig(arch, 5).matches(&with_orig(arch, -5)));
        assert!(with_orig(arch, -5).matches(&with_orig(arch, -9)));
        let a = with_orig(arch, 5);
        let b = with_orig(arch, 9);
        assert!(!a.matches(&b));
        let found = Registers::compare_register_files_internal(&a, &b);
        assert_eq!(found.len(), 1);
        let name = if arch == SupportedArch::X86 { "orig_eax" } else { "orig_rax" };
        assert_eq!(found[0].name, name);
        assert_eq!((found[0].val1, found[0].val2), (5, 9));
    }
}

#[test]
fn every_difference_is_reported_in_catalogue_order() {
    let a = Registers::new(SupportedArch::X86);
    let mut b = Registers::new(SupportedArch::X86);
    b.set_arg1(1);
    b.set_flags(0x200);
    b.set_syscall_result(7);
    let found = Registers::compare_register_files_internal(&a, &b);
    let names: Vec<&str> = found.iter().map(|m| m.name).collect();
    assert_eq!(names, vec!["eax", "ebx", "eflags"]);
    assert_eq!((found[2].val1, found[2].val2), (0, 0x200));
    let c = Registers::compare_register_files(&a, &b, MismatchBehavior::BailOnMismatch);
    assert!(!c.matched);
    assert!(c.fatal);
    assert_eq!(c.log_level, Some(LogLevel::LogError));
    assert_eq!(c.mismatches.len(), 3);
    let c = Registers::compare_register_files(&a, &b, MismatchBehavior::ExpectMismatches);
    assert!(!c.fatal);
    assert_eq!(c.log_level, None);
}

#[test]
fn selector_privilege_bits_do_not_count() {
    let mut a = Registers::new(SupportedArch::X86);
    let mut b = Registers::new(SupportedArch::X86);
    a.write_register(&[0x2b, 0, 0, 0], DREG_FS);
    b.write_register(&[0x28, 0, 0, 0], DREG_FS);
    assert!(a.matches(&b));
    b.write_register(&[0x33, 0, 0, 0], DREG_FS);
    assert!(!a.matches(&b));
}

#[test]
fn mismatch_policy_levels() {
    assert_eq!(maybe_log_reg_mismatch(MismatchBehavior::ExpectMismatches), None);
    assert_eq!(maybe_log_reg_mismatch(MismatchBehavior::LogMismatches), Some(LogLevel::LogInfo));
    assert_eq!(maybe_log_reg_mismatch(MismatchBehavior::BailOnMismatch), Some(LogLevel::LogError));
    let a = Registers::new(SupportedArch::X64);
    let c = Registers::compare_register_files(&a, &a, MismatchBehavior::LogMismatches);
    assert!(c.matched && c.log_same && !c.fatal);
    let c = Registers::compare_register_files(&a, &a, MismatchBehavior::BailOnMismatch);
    assert!(!c.log_same);
}

#[test]
fn widening_then_narrowing_gives_the_fields_back() {
    let mut x = filled(SupportedArch::X86, 9);
    x.set_syscall_result((-2isize) as usize);
    x.set_sp(RemotePtr::<u8>::new_from_val(0xffff_d000));
    let native = x.get_ptrace();
    let bytes = native.as_bytes();
    assert_eq!(&bytes[80..88], &(-2i64).to_le_bytes());
    assert_eq!(&bytes[152..160], &0xffff_d000u64.to_le_bytes());
    let mut back = Registers::new(SupportedArch::X86);
    back.set_from_ptrace(&native);
    assert_eq!(back.get_ptrace_for_self_arch(), x.get_ptrace_for_self_arch());
    assert_eq!(compact(&back), compact(&x));
    assert!(back.matches(&x));
}

#[test]
fn narrowing_keeps_the_low_halves() {
    let mut wide = Registers::new(SupportedArch::X64);
    wide.set_syscall_result(0xffff_ffff_8000_0001);
    wide.set_arg1(0x1_0000_0002);
    let mut narrow = Registers::new(SupportedArch::X86);
    narrow.set_from_ptrace(&wide.get_ptrace());
    assert_eq!(narrow.syscall_result() as u64 & 0xffff_ffff, 0x8000_0001);
    assert_eq!(narrow.syscall_result_signed(), -0x7fff_ffff);
    assert_eq!(narrow.cx(), 0);
    let mut buf = [0u8; 8];
    narrow.read_register(&mut buf, 7);
    assert_eq!(&buf[..4], &[2, 0, 0, 0]);
    narrow.read_register(&mut buf, 3);
    assert_eq!(&buf[..4], &[0, 0, 0, 0]);
}

#[test]
fn ptrace_bytes_for_each_architecture() {
    let x = filled(SupportedArch::X86, 4);
    assert_eq!(x.get_ptrace_for_self_arch().len(), 68);
    assert_eq!(x.get_ptrace_for_arch(SupportedArch::X86), x.get_ptrace_for_self_arch().to_vec());
    let wide = x.get_ptrace_for_arch(SupportedArch::X64);
    assert_eq!(wide.len(), 216);
    let mut y = Registers::new(SupportedArch::X86);
    y.set_from_ptrace_for_arch(SupportedArch::X64, &wide);
    assert!(y.matches(&x));
    let mut z = Registers::new(SupportedArch::X86);
    z.set_from_ptrace_for_arch(SupportedArch::X86, x.get_ptrace_for_self_arch());
    assert!(z.matches(&x));
    let w = filled(SupportedArch::X64, 5);
    assert_eq!(w.get_ptrace_for_arch(SupportedArch::X64), w.get_ptrace().as_bytes().to_vec());
}

#[test]
fn compact_form_is_positional_hex() {
    let r = Registers::new(SupportedArch::X86);
    let expected = format!(" 0{}", "  0".repeat(16));
    assert_eq!(compact(&r), expected);
    let mut r = Registers::new(SupportedArch::X64);
    r.set_syscall_result(0x1a);
    let text = compact(&r);
    assert!(text.starts_with(" 1a  0"));
    assert_eq!(text.split_whitespace().count(), 27);
}

#[test]
fn compact_form_shape_depends_only_on_the_architecture() {
    for arch in [SupportedArch::X86, SupportedArch::X64] {
        let a = compact(&Registers::new(arch));
        let b = compact(&filled(arch, 200));
        assert_eq!(a.split_whitespace().count(), b.split_whitespace().count());
        let mut c = Vec::new();
        filled(arch, 7).write_register_file_for_trace(&mut c, TraceStyle::Annotated);
        let mut d = Vec::new();
        Registers::new(arch).write_register_file_for_trace(&mut d, TraceStyle::Annotated);
        let names = |t: Vec<u8>| -> Vec<String> {
            String::from_utf8(t).unwrap().split(' ').map(|f| f.split(':').next().unwrap().to_string()).collect()
        };
        assert_eq!(names(c), names(d));
    }
}

#[test]
fn annotated_and_verbose_forms() {
    let mut r = Registers::new(SupportedArch::X64);
    r.set_syscall_result(0xff);
    r.set_arg1(0xabc);
    let mut out = Vec::new();
    r.write_register_file_for_trace(&mut out, TraceStyle::Annotated);
    let text = String::from_utf8(out).unwrap();
    assert!(text.starts_with("rax:ff rbx:0 rcx:0 rdx:0 rsi:0 rdi:abc rbp:0 rsp:0 r8:0"));
    assert!(text.ends_with("orig_rax:0 fs_base:0 gs_base:0"));
    let mut out = Vec::new();
    r.write_register_file(&mut out);
    let text = String::from_utf8(out).unwrap();
    assert!(text.starts_with("Printing register file:\nrax:ff\nrbx:0\n"));
    assert!(text.ends_with("gs_base:0\n\n"));
    assert_eq!(text.lines().count(), 1 + 27 + 1);
}

#[test]
fn summary_line() {
    let mut r = Registers::new(SupportedArch::X64);
    r.set_arg1(0x10);
    r.set_arg6(0xdead);
    r.set_original_syscallno((-3isize) as usize);
    let mut out = Vec::new();
    r.fmt(&mut out);
    assert_eq!(
        String::from_utf8(out).unwrap(),
        "{ args:(0x10,0x0,0x0,0x0,0x0,0xdead) orig_syscall:-3 }"
    );
    let mut r = Registers::new(SupportedArch::X86);
    r.set_original_syscallno(11);
    let mut out = Vec::new();
    r.fmt(&mut out);
    assert_eq!(String::from_utf8(out).unwrap(), "{ args:(0x0,0x0,0x0,0x0,0x0,0x0) orig_syscall:11 }");
}

#[test]
fn retagging_keeps_the_bytes() {
    let mut r = Registers::new(SupportedArch::X64);
    r.set_syscall_result(0x42);
    r.set_arch(SupportedArch::X86);
    assert_eq!(r.arch(), SupportedArch::X86);
    assert_eq!(r.ax(), 0);
    r.set_arch(SupportedArch::X64);
    assert_eq!(r.ax(), 0x42);
    let _ = DREG_EFLAGS;
}

#[test]
fn raw_trace_form_of_a_32_bit_file() {
    let mut r = Registers::new(SupportedArch::X86);
    r.set_syscall_result((-1isize) as usize);
    r.set_arg1(5);
    r.set_original_syscallno(0x8000_0000);
    r.set_flags(0x246);
    let mut out = Vec::new();
    r.write_register_file_for_trace_raw(&mut out);
    assert_eq!(String::from_utf8(out).unwrap(), " -1 5 0 0 0 0 0 -2147483648 0 0 582");
}

#[test]
fn undefined_register_exception_tables() {
    assert!(X86Arch::ignore_undefined_register(DREG_FOSEG));
    assert!(X86Arch::ignore_undefined_register(DREG_MXCSR));
    assert!(!X86Arch::ignore_undefined_register(DREG_ST0));
    assert!(X64Arch::ignore_undefined_register(DREG_64_FOSEG));
    assert!(!X64Arch::ignore_undefined_register(DREG_FOSEG));
    assert_eq!(X86Arch::get_arch(), SupportedArch::X86);
    assert_eq!(X64Arch::num_registers(), 76);
}
