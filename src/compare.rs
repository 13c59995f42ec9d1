//! The comparator: masked, catalogue-driven equality of two register files of
//! one architecture, for checking that a replay stays on the recorded path.

use crate::catalog::{register_count, register_info, register_info_for, num_registers_for,
    lemma_catalogue_in_layout, lemma_catalogue_well_formed, RegisterValue};
use crate::kernel_abi::x64;
use crate::kernel_abi::x86;
use crate::kernel_abi::SupportedArch;
use crate::registers::{Registers, RegistersView};
use vstd::prelude::*;

verus! {

/// What the caller wants done about registers that differ.
#[derive(Copy, Clone, Debug, PartialEq, Eq, Structural)]
pub enum MismatchBehavior {
    /// The comparison is a plain question; differences are expected.
    ExpectMismatches,
    /// Differences are logged.
    LogMismatches,
    /// Differences are logged as errors, and a difference is fatal once the
    /// whole file has been compared.
    BailOnMismatch,
}

/// How loudly a difference is to be logged.
#[derive(Copy, Clone, Debug, PartialEq, Eq, Structural)]
pub enum LogLevel {
    LogInfo,
    LogError,
}

/// One register whose values differ between two files.
#[derive(Copy, Clone, Debug)]
pub struct RegisterMismatch {
    pub name: &'static str,
    pub val1: u64,
    pub val2: u64,
}

/// The syscall-number pseudo-register, sign-extended to 64 bits.
pub open spec fn orig_syscall(v: RegistersView) -> u64 {
    v.reg(x86::ORIG_EAX as int, x64::ORIG_RAX as int)
}

/// Whether a 64-bit value is non-negative when read as a signed one.
pub open spec fn is_non_negative(x: u64) -> bool {
    x < 0x8000_0000_0000_0000
}

/// The name of the syscall-number pseudo-register on `arch`.
pub open spec fn orig_syscall_name(arch: SupportedArch) -> &'static str {
    match arch {
        SupportedArch::X86 => "orig_eax",
        SupportedArch::X64 => "orig_rax",
    }
}

/// The difference in the syscall-number pseudo-register, if it counts as
/// one. A negative value there means the kernel was entered through an
/// interrupt, not a syscall, so only two non-negative values are compared.
pub open spec fn orig_syscall_mismatches(v1: RegistersView, v2: RegistersView) -> Seq<
    RegisterMismatch,
> {
    if is_non_negative(orig_syscall(v1)) && is_non_negative(orig_syscall(v2)) && orig_syscall(v1)
        != orig_syscall(v2) {
        seq![
            RegisterMismatch {
                name: orig_syscall_name(v1.arch),
                val1: orig_syscall(v1),
                val2: orig_syscall(v2),
            },
        ]
    } else {
        seq![]
    }
}

/// Whether the catalogue walk looks at `rv`: it has a value and a mask.
pub open spec fn is_compared(rv: RegisterValue) -> bool {
    rv.nbytes > 0 && rv.comparison_mask != 0
}

/// Whether the masked values that `rv` locates in `v1` and `v2` differ.
pub open spec fn masked_values_differ(v1: RegistersView, v2: RegistersView, rv: RegisterValue) -> bool {
    (v1.register_value(rv) as u64) & rv.comparison_mask != (v2.register_value(rv) as u64)
        & rv.comparison_mask
}

/// The differences that the catalogue walk finds among the first `n`
/// registers, in register-number order.
pub open spec fn walk_mismatches(v1: RegistersView, v2: RegistersView, n: nat) -> Seq<
    RegisterMismatch,
>
    decreases n,
{
    if n == 0 {
        seq![]
    } else {
        let prev = walk_mismatches(v1, v2, (n - 1) as nat);
        let rv = register_info(v1.arch, (n - 1) as u32);
        if is_compared(rv) && masked_values_differ(v1, v2, rv) {
            prev.push(
                RegisterMismatch {
                    name: rv.name,
                    val1: v1.register_value(rv) as u64,
                    val2: v2.register_value(rv) as u64,
                },
            )
        } else {
            prev
        }
    }
}

/// Every difference between two files of one architecture: the
/// syscall-number pseudo-register first, then the catalogue walk.
pub open spec fn register_mismatches(v1: RegistersView, v2: RegistersView) -> Seq<RegisterMismatch> {
    orig_syscall_mismatches(v1, v2) + walk_mismatches(v1, v2, register_count(v1.arch) as nat)
}

/// The level at which `mismatch_behavior` logs each difference, if at all.
pub open spec fn mismatch_log_level(mismatch_behavior: MismatchBehavior) -> Option<LogLevel> {
    match mismatch_behavior {
        MismatchBehavior::ExpectMismatches => None,
        MismatchBehavior::LogMismatches => Some(LogLevel::LogInfo),
        MismatchBehavior::BailOnMismatch => Some(LogLevel::LogError),
    }
}

/// The outcome of comparing two register files, with what the mismatch policy
/// asks the caller to do about it.
pub struct RegisterComparison {
    /// Whether the files match.
    pub matched: bool,
    /// Every difference, in the order in which it was found.
    pub mismatches: Vec<RegisterMismatch>,
    /// The level at which to log each difference, if at all.
    pub log_level: Option<LogLevel>,
    /// Whether to log that the files are the same.
    pub log_same: bool,
    /// Whether the caller's fatal-error hook must run, now that the whole
    /// file has been compared.
    pub fatal: bool,
}

/// The level at which `mismatch_behavior` logs each difference, if at all.
pub fn maybe_log_reg_mismatch(mismatch_behavior: MismatchBehavior) -> (r: Option<LogLevel>)
    ensures
        r == mismatch_log_level(mismatch_behavior),
{
    match mismatch_behavior {
        MismatchBehavior::ExpectMismatches => None,
        MismatchBehavior::LogMismatches => Some(LogLevel::LogInfo),
        MismatchBehavior::BailOnMismatch => Some(LogLevel::LogError),
    }
}

impl Registers {
    /// Every difference between `regs1` and `regs2`, which must share an
    /// architecture, in the order in which it is found; the walk does not
    /// stop at the first.
    pub fn compare_register_files_internal(regs1: &Registers, regs2: &Registers) -> (r: Vec<
        RegisterMismatch,
    >)
        requires
            regs1@.arch == regs2@.arch,
        ensures
            r@ == register_mismatches(regs1@, regs2@),
    {
        let arch = regs1.arch();
        let mut out: Vec<RegisterMismatch> = Vec::new();
        let o1 = regs1.get_reg(x86::ORIG_EAX, x64::ORIG_RAX);
        let o2 = regs2.get_reg(x86::ORIG_EAX, x64::ORIG_RAX);
        if o1 < 0x8000_0000_0000_0000 && o2 < 0x8000_0000_0000_0000 && o1 != o2 {
            let name = match arch {
                SupportedArch::X86 => "orig_eax",
                SupportedArch::X64 => "orig_rax",
            };
            out.push(RegisterMismatch { name, val1: o1, val2: o2 });
        }
        assert(out@ =~= orig_syscall_mismatches(regs1@, regs2@));
        let ghost head = out@;
        let n = num_registers_for(arch);
        let mut i: u32 = 0;
        while i < n
            invariant
                i <= n,
                n == register_count(arch),
                arch == regs1@.arch,
                regs1@.arch == regs2@.arch,
                head == orig_syscall_mismatches(regs1@, regs2@),
                out@ == head + walk_mismatches(regs1@, regs2@, i as nat),
            decreases n - i,
        {
            let rv = register_info_for(arch, i);
            proof {
                lemma_catalogue_well_formed(arch, i);
                lemma_catalogue_in_layout(arch, i);
            }
            if rv.nbytes > 0 && rv.comparison_mask != 0 {
                let val1 = regs1.register_value_of(rv);
                let val2 = regs2.register_value_of(rv);
                if val1 & rv.comparison_mask != val2 & rv.comparison_mask {
                    out.push(RegisterMismatch { name: rv.name, val1, val2 });
                }
            }
            i = i + 1;
            assert(out@ =~= head + walk_mismatches(regs1@, regs2@, i as nat));
        }
        out
    }

    /// Compares `regs1` with `regs2`, which must share an architecture, and
    /// says what `mismatch_behavior` asks to be done about the result: each
    /// difference logged at its level, the files' sameness logged when
    /// differences are logged, and the fatal hook run only after the whole
    /// walk, only on a difference, and only when the behavior is to bail.
    pub fn compare_register_files(
        regs1: &Registers,
        regs2: &Registers,
        mismatch_behavior: MismatchBehavior,
    ) -> (r: RegisterComparison)
        requires
            regs1@.arch == regs2@.arch,
        ensures
            r.mismatches@ == register_mismatches(regs1@, regs2@),
            r.matched == (register_mismatches(regs1@, regs2@).len() == 0),
            r.log_level == mismatch_log_level(mismatch_behavior),
            r.log_same == (r.matched && mismatch_behavior == MismatchBehavior::LogMismatches),
            r.fatal == (!r.matched && mismatch_behavior == MismatchBehavior::BailOnMismatch),
    {
        let mismatches = Registers::compare_register_files_internal(regs1, regs2);
        let matched = mismatches.len() == 0;
        let log_level = maybe_log_reg_mismatch(mismatch_behavior);
        let log_same = matched && mismatch_behavior == MismatchBehavior::LogMismatches;
        let fatal = !matched && mismatch_behavior == MismatchBehavior::BailOnMismatch;
        RegisterComparison { matched, mismatches, log_level, log_same, fatal }
    }

    /// Whether this file matches `other`, which must share its architecture.
    pub fn matches(&self, other: &Registers) -> (r: bool)
        requires
            self@.arch == other@.arch,
        ensures
            r == (register_mismatches(self@, other@).len() == 0),
    {
        let mismatches = Registers::compare_register_files_internal(self, other);
        mismatches.len() == 0
    }
}

/// The catalogue walk finds no difference between a file and itself.
proof fn lemma_walk_reflexive(v: RegistersView, n: nat)
    ensures
        walk_mismatches(v, v, n).len() == 0,
    decreases n,
{
    if n > 0 {
        lemma_walk_reflexive(v, (n - 1) as nat);
    }
}

/// A register file compared with itself has no difference.
pub proof fn lemma_compare_reflexive(v: RegistersView)
    ensures
        register_mismatches(v, v).len() == 0,
{
    lemma_walk_reflexive(v, register_count(v.arch) as nat);
}

} // verus!
