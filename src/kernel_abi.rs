//! Facts of the Linux process-tracing ABI that the register layer depends on.

pub mod x64;
pub mod x86;

use vstd::prelude::*;

verus! {

/// The instruction-set widths whose register files are supported.
#[derive(Copy, Clone, Debug, PartialEq, Eq, Structural)]
pub enum SupportedArch {
    X86,
    X64,
}

/// The architecture whose `user_regs_struct` the host's tracing API speaks.
pub const RD_NATIVE_ARCH: SupportedArch = SupportedArch::X64;

/// Kernel-internal error codes that a syscall returns (negated) when the
/// kernel is going to restart it.
pub const ERESTARTSYS: u32 = 512;

pub const ERESTARTNOINTR: u32 = 513;

pub const ERESTARTNOHAND: u32 = 514;

pub const ERESTART_RESTARTBLOCK: u32 = 516;

} // verus!
