//! Byte offsets of the fields of the 32-bit `user_regs_struct`; every field
//! is four bytes wide.

use vstd::prelude::*;

verus! {

pub const EBX: usize = 0;

pub const ECX: usize = 4;

pub const EDX: usize = 8;

pub const ESI: usize = 12;

pub const EDI: usize = 16;

pub const EBP: usize = 20;

pub const EAX: usize = 24;

pub const XDS: usize = 28;

pub const XES: usize = 32;

pub const XFS: usize = 36;

pub const XGS: usize = 40;

pub const ORIG_EAX: usize = 44;

pub const EIP: usize = 48;

pub const XCS: usize = 52;

pub const EFLAGS: usize = 56;

pub const ESP: usize = 60;

pub const XSS: usize = 64;

/// Size in bytes of the whole structure.
pub const USER_REGS_SIZE: usize = 68;

} // verus!
