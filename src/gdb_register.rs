//! Register numbers of the remote debugging protocol, per architecture.

use vstd::prelude::*;

verus! {

/// A register's number in the remote debugging protocol.
pub type GdbRegister = u32;

// 32-bit numbering.
pub const DREG_EAX: GdbRegister = 0;

pub const DREG_ECX: GdbRegister = 1;

pub const DREG_EDX: GdbRegister = 2;

pub const DREG_EBX: GdbRegister = 3;

pub const DREG_ESP: GdbRegister = 4;

pub const DREG_EBP: GdbRegister = 5;

pub const DREG_ESI: GdbRegister = 6;

pub const DREG_EDI: GdbRegister = 7;

pub const DREG_EIP: GdbRegister = 8;

pub const DREG_EFLAGS: GdbRegister = 9;

pub const DREG_CS: GdbRegister = 10;

pub const DREG_SS: GdbRegister = 11;

pub const DREG_DS: GdbRegister = 12;

pub const DREG_ES: GdbRegister = 13;

pub const DREG_FS: GdbRegister = 14;

pub const DREG_GS: GdbRegister = 15;

pub const DREG_ST0: GdbRegister = 16;

pub const DREG_FOSEG: GdbRegister = 29;

pub const DREG_XMM0: GdbRegister = 32;

pub const DREG_MXCSR: GdbRegister = 40;

pub const DREG_ORIG_EAX: GdbRegister = 41;

pub const DREG_YMM0H: GdbRegister = 42;

/// How many registers the 32-bit numbering has.
pub const DREG_NUM_LINUX_I386: GdbRegister = 50;

// 64-bit numbering.
pub const DREG_RAX: GdbRegister = 0;

pub const DREG_RBX: GdbRegister = 1;

pub const DREG_RCX: GdbRegister = 2;

pub const DREG_RDX: GdbRegister = 3;

pub const DREG_RSI: GdbRegister = 4;

pub const DREG_RDI: GdbRegister = 5;

pub const DREG_RBP: GdbRegister = 6;

pub const DREG_RSP: GdbRegister = 7;

pub const DREG_R8: GdbRegister = 8;

pub const DREG_R9: GdbRegister = 9;

pub const DREG_R10: GdbRegister = 10;

pub const DREG_R11: GdbRegister = 11;

pub const DREG_R12: GdbRegister = 12;

pub const DREG_R13: GdbRegister = 13;

pub const DREG_R14: GdbRegister = 14;

pub const DREG_R15: GdbRegister = 15;

pub const DREG_RIP: GdbRegister = 16;

pub const DREG_64_EFLAGS: GdbRegister = 17;

pub const DREG_64_CS: GdbRegister = 18;

pub const DREG_64_SS: GdbRegister = 19;

pub const DREG_64_DS: GdbRegister = 20;

pub const DREG_64_ES: GdbRegister = 21;

pub const DREG_64_FS: GdbRegister = 22;

pub const DREG_64_GS: GdbRegister = 23;

pub const DREG_64_ST0: GdbRegister = 24;

pub const DREG_64_FOSEG: GdbRegister = 37;

pub const DREG_64_XMM0: GdbRegister = 40;

pub const DREG_64_MXCSR: GdbRegister = 56;

pub const DREG_ORIG_RAX: GdbRegister = 57;

pub const DREG_FS_BASE: GdbRegister = 58;

pub const DREG_GS_BASE: GdbRegister = 59;

pub const DREG_64_YMM0H: GdbRegister = 60;

/// How many registers the 64-bit numbering has.
pub const DREG_NUM_LINUX_X86_64: GdbRegister = 76;

} // verus!
