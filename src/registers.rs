//! The register file: an architecture tag and byte storage laid out as that
//! architecture's native `user_regs_struct`, with every access routed through
//! the tag and the architecture's catalogue.

use crate::catalog::{register_count, register_info, register_info_for, num_registers_for,
    ignore_undefined_register_for, lemma_catalogue_in_layout, undefined_registers_to_ignore,
    RegisterValue};
use crate::gdb_register::GdbRegister;
use crate::kernel_abi::x64;
use crate::kernel_abi::x86;
use crate::convert::{convert_x86_narrow, convert_x86_widen, converted_field, field32,
    lemma_narrow_widen_round_trip, narrow_bytes, widen_bytes, NUM_CONVERTED_FIELDS};
use crate::kernel_abi::{SupportedArch, RD_NATIVE_ARCH};
use crate::le_bytes::{le_encode, le_value, load_le, splice, store_le, lemma_le_value_bound,
    lemma_pow256_values};
use vstd::prelude::*;

verus! {

/// Size in bytes of the storage: that of the larger native layout.
pub const STORAGE_SIZE: usize = 216;

/// The largest register, in bytes.
pub const MAX_REGISTER_SIZE: usize = 8;

/// Bytes laid out as one architecture's `user_regs_struct`.
#[derive(Copy, Clone)]
pub struct RegistersUnion {
    bytes: [u8; 216],
}

impl View for RegistersUnion {
    type V = Seq<u8>;

    closed spec fn view(&self) -> Seq<u8> {
        self.bytes@
    }
}

impl RegistersUnion {
    /// All-zero storage.
    pub fn default() -> (r: RegistersUnion)
        ensures
            r@ == Seq::new(STORAGE_SIZE as nat, |i: int| 0u8),
    {
        let r = RegistersUnion { bytes: [0u8; 216] };
        assert(r@ =~= Seq::new(STORAGE_SIZE as nat, |i: int| 0u8));
        r
    }

    /// The storage always holds `STORAGE_SIZE` bytes.
    pub proof fn lemma_len(&self)
        ensures
            self@.len() == STORAGE_SIZE,
    {
    }

    /// Storage holding the bytes of the native registers `n`.
    pub fn from_native(n: &RegistersNativeUnion) -> (r: RegistersUnion)
        ensures
            r@ == n@,
    {
        RegistersUnion { bytes: n.bytes }
    }

    /// The first `n` bytes.
    pub fn prefix(&self, n: usize) -> (r: &[u8])
        requires
            n <= STORAGE_SIZE,
        ensures
            r@ == self@.subrange(0, n as int),
    {
        vstd::slice::slice_subrange(self.bytes.as_slice(), 0, n)
    }

    /// The `n`-byte little-endian value at `off`.
    pub fn load(&self, off: usize, n: usize) -> (v: u64)
        requires
            off + n <= STORAGE_SIZE,
            n <= 8,
        ensures
            v as nat == le_value(self@.subrange(off as int, off + n)),
    {
        load_le(self.bytes.as_slice(), off, n)
    }

    /// Writes the low `n` bytes of `v` at `off`.
    pub fn store(&mut self, off: usize, n: usize, v: u64)
        requires
            off + n <= STORAGE_SIZE,
        ensures
            final(self)@ == splice(old(self)@, off as int, le_encode(v as nat, n as nat)),
    {
        store_le(&mut self.bytes, off, n, v);
    }

    /// Copies the `n` bytes at `off` to the front of `buf`.
    pub fn copy_out(&self, off: usize, n: usize, buf: &mut [u8])
        requires
            off + n <= STORAGE_SIZE,
            n <= old(buf)@.len(),
        ensures
            final(buf)@ == splice(old(buf)@, 0, self@.subrange(off as int, off + n)),
    {
        let mut i: usize = 0;
        while i < n
            invariant
                i <= n,
                off + n <= STORAGE_SIZE,
                n <= buf@.len(),
                buf@.len() == old(buf)@.len(),
                forall|j: int| 0 <= j < i ==> buf@[j] == self@[off + j],
                forall|j: int| n <= j < buf@.len() ==> buf@[j] == old(buf)@[j],
            decreases n - i,
        {
            buf[i] = self.bytes[off + i];
            i = i + 1;
        }
        assert(buf@ =~= splice(old(buf)@, 0, self@.subrange(off as int, off + n)));
    }

    /// Copies the first `n` bytes of `src` to `off`.
    pub fn copy_in(&mut self, off: usize, src: &[u8], n: usize)
        requires
            off + n <= STORAGE_SIZE,
            n <= src@.len(),
        ensures
            final(self)@ == splice(old(self)@, off as int, src@.subrange(0, n as int)),
    {
        let mut i: usize = 0;
        while i < n
            invariant
                i <= n,
                off + n <= STORAGE_SIZE,
                n <= src@.len(),
                self@.len() == STORAGE_SIZE,
                forall|j: int| 0 <= j < i ==> self@[off + j] == src@[j],
                forall|j: int|
                    0 <= j < STORAGE_SIZE && !(off <= j < off + n) ==> self@[j] == old(self)@[j],
            decreases n - i,
        {
            self.bytes[off + i] = src[i];
            i = i + 1;
        }
        assert(self@ =~= splice(old(self)@, off as int, src@.subrange(0, n as int)));
    }
}

/// Storage laid out as the host's own `user_regs_struct`, the form in which
/// the tracing API fetches and applies registers.
#[derive(Copy, Clone)]
pub struct RegistersNativeUnion {
    bytes: [u8; 216],
}

impl View for RegistersNativeUnion {
    type V = Seq<u8>;

    closed spec fn view(&self) -> Seq<u8> {
        self.bytes@
    }
}

impl RegistersNativeUnion {
    /// All-zero native registers.
    pub fn default() -> (r: RegistersNativeUnion)
        ensures
            r@ == Seq::new(x64::USER_REGS_SIZE as nat, |i: int| 0u8),
    {
        let r = RegistersNativeUnion { bytes: [0u8; 216] };
        assert(r@ =~= Seq::new(x64::USER_REGS_SIZE as nat, |i: int| 0u8));
        r
    }

    /// Native registers holding `data`, which must be a whole native
    /// `user_regs_struct`.
    pub fn from_bytes(data: &[u8]) -> (r: RegistersNativeUnion)
        requires
            data@.len() == x64::USER_REGS_SIZE,
        ensures
            r@ == data@,
    {
        let mut r = RegistersNativeUnion::default();
        let mut i: usize = 0;
        while i < x64::USER_REGS_SIZE
            invariant
                i <= x64::USER_REGS_SIZE,
                data@.len() == x64::USER_REGS_SIZE,
                r@.len() == x64::USER_REGS_SIZE,
                forall|j: int| 0 <= j < i ==> r@[j] == data@[j],
            decreases x64::USER_REGS_SIZE - i,
        {
            r.bytes[i] = data[i];
            i = i + 1;
        }
        assert(r@ =~= data@);
        r
    }

    /// Native registers holding the first bytes of `u`.
    pub fn from_union(u: &RegistersUnion) -> (r: RegistersNativeUnion)
        ensures
            r@ == u@,
    {
        RegistersNativeUnion { bytes: u.bytes }
    }

    /// The `n`-byte little-endian value at `off`.
    pub fn load(&self, off: usize, n: usize) -> (v: u64)
        requires
            off + n <= x64::USER_REGS_SIZE,
            n <= 8,
        ensures
            v as nat == le_value(self@.subrange(off as int, off + n)),
    {
        load_le(self.bytes.as_slice(), off, n)
    }

    /// Writes the low `n` bytes of `v` at `off`.
    pub fn store(&mut self, off: usize, n: usize, v: u64)
        requires
            off + n <= x64::USER_REGS_SIZE,
        ensures
            final(self)@ == splice(old(self)@, off as int, le_encode(v as nat, n as nat)),
    {
        store_le(&mut self.bytes, off, n, v);
    }

    /// The bytes of the native `user_regs_struct`.
    pub fn as_bytes(&self) -> (r: &[u8])
        ensures
            r@ == self@,
            r@.len() == x64::USER_REGS_SIZE,
    {
        self.bytes.as_slice()
    }
}

/// What a register file holds, as a mathematical value: the architecture tag
/// and the storage bytes, of which the tag's native layout is the meaningful
/// prefix.
pub struct RegistersView {
    pub arch: SupportedArch,
    pub bytes: Seq<u8>,
}

/// A 32-bit value sign-extended to 64 bits.
pub open spec fn sign_extend_32(v: nat) -> u64 {
    if v < 0x8000_0000 {
        v as u64
    } else {
        (v + 0xffff_ffff_0000_0000) as u64
    }
}

/// Size in bytes of the native layout of `arch`.
pub open spec fn layout_size(arch: SupportedArch) -> nat {
    match arch {
        SupportedArch::X86 => x86::USER_REGS_SIZE as nat,
        SupportedArch::X64 => x64::USER_REGS_SIZE as nat,
    }
}

/// Whether `rv` can be read and written at all.
pub open spec fn is_defined(rv: RegisterValue) -> bool {
    rv.nbytes > 0
}

impl RegistersView {
    /// Whether the view has the storage's size.
    pub open spec fn wf(self) -> bool {
        self.bytes.len() == STORAGE_SIZE
    }

    /// The value of the `n`-byte field at byte offset `off`.
    pub open spec fn field(self, off: int, n: int) -> nat {
        le_value(self.bytes.subrange(off, off + n))
    }

    /// This file with the low `n` bytes of `v` written at `off`.
    pub open spec fn with_field(self, off: int, n: int, v: nat) -> RegistersView {
        RegistersView { arch: self.arch, bytes: splice(self.bytes, off, le_encode(v, n as nat)) }
    }

    /// The register at `x86_off` in the 32-bit layout or at `x64_off` in the
    /// 64-bit one, as a 64-bit value; a 32-bit register is sign-extended.
    pub open spec fn reg(self, x86_off: int, x64_off: int) -> u64 {
        match self.arch {
            SupportedArch::X86 => sign_extend_32(self.field(x86_off, 4)),
            SupportedArch::X64 => self.field(x64_off, 8) as u64,
        }
    }

    /// This file with `v` written to the register at `x86_off` or `x64_off`;
    /// a 32-bit register keeps the low 32 bits of `v`.
    pub open spec fn with_reg(self, x86_off: int, x64_off: int, v: u64) -> RegistersView {
        match self.arch {
            SupportedArch::X86 => self.with_field(x86_off, 4, v as nat),
            SupportedArch::X64 => self.with_field(x64_off, 8, v as nat),
        }
    }

    /// The descriptor of register `regno` on this file's architecture.
    pub open spec fn info(self, regno: GdbRegister) -> RegisterValue {
        register_info(self.arch, regno)
    }

    /// The bytes that descriptor `rv` locates.
    pub open spec fn register_bytes(self, rv: RegisterValue) -> Seq<u8> {
        self.bytes.subrange(rv.offset as int, rv.offset + rv.nbytes)
    }

    /// The number that descriptor `rv` locates.
    pub open spec fn register_value(self, rv: RegisterValue) -> nat {
        le_value(self.register_bytes(rv))
    }

    /// This file after a write of `value` to register `regno`: the first
    /// bytes of `value`, as many as the register has, go to its offset; a
    /// register without a value is left alone.
    pub open spec fn after_write(self, regno: GdbRegister, value: Seq<u8>) -> RegistersView {
        let rv = self.info(regno);
        if !is_defined(rv) {
            self
        } else {
            let n = if value.len() < rv.nbytes { value.len() as int } else { rv.nbytes as int };
            RegistersView {
                arch: self.arch,
                bytes: splice(self.bytes, rv.offset as int, value.subrange(0, n)),
            }
        }
    }
}

/// The first register number at or after `start` whose defined descriptor on
/// `arch` sits at byte offset `offset`.
pub open spec fn register_at_offset_from(arch: SupportedArch, offset: usize, start: nat) -> Option<
    GdbRegister,
>
    decreases register_count(arch) - start,
{
    if start >= register_count(arch) {
        None
    } else if is_defined(register_info(arch, start as GdbRegister)) && register_info(
        arch,
        start as GdbRegister,
    ).offset == offset {
        Some(start as GdbRegister)
    } else {
        register_at_offset_from(arch, offset, start + 1)
    }
}

/// The register that sits at byte offset `offset` of the native layout of
/// `arch`, if any: the first in register-number order.
pub open spec fn register_at_offset(arch: SupportedArch, offset: usize) -> Option<GdbRegister> {
    register_at_offset_from(arch, offset, 0)
}

/// What became of a write to a register.
#[derive(Copy, Clone, Debug, PartialEq, Eq, Structural)]
pub enum RegisterWrite {
    /// The register took the value.
    Written,
    /// The register has no value on this architecture and is known to be
    /// safe to drop.
    Ignored,
    /// The register has no value on this architecture; the write was dropped
    /// and deserves a diagnostic.
    Unhandled,
}

/// A register file: values for all general-purpose registers of one
/// architecture, including those that pass syscall arguments and results.
#[derive(Copy, Clone)]
pub struct Registers {
    pub(crate) arch_: SupportedArch,
    pub(crate) u: RegistersUnion,
}

impl View for Registers {
    type V = RegistersView;

    closed spec fn view(&self) -> RegistersView {
        RegistersView { arch: self.arch_, bytes: self.u@ }
    }
}

impl Registers {
    /// A zeroed register file for `arch`.
    pub fn new(arch: SupportedArch) -> (r: Registers)
        ensures
            r@.arch == arch,
            r@.bytes == Seq::new(STORAGE_SIZE as nat, |i: int| 0u8),
    {
        Registers { arch_: arch, u: RegistersUnion::default() }
    }

    /// A register file's storage always holds `STORAGE_SIZE` bytes.
    pub proof fn lemma_wf(&self)
        ensures
            self@.wf(),
    {
    }

    pub fn arch(&self) -> (r: SupportedArch)
        ensures
            r == self@.arch,
    {
        self.arch_
    }

    /// Retags the file; the bytes stay as they are.
    pub fn set_arch(&mut self, arch: SupportedArch)
        ensures
            final(self)@ == (RegistersView { arch, bytes: old(self)@.bytes }),
    {
        self.arch_ = arch;
    }

    /// The `n`-byte value at `off` of the storage.
    pub(crate) fn load_field(&self, off: usize, n: usize) -> (v: u64)
        requires
            off + n <= STORAGE_SIZE,
            n <= 8,
        ensures
            v as nat == self@.field(off as int, n as int),
    {
        self.u.load(off, n)
    }

    /// Writes the low `n` bytes of `v` at `off` of the storage.
    pub(crate) fn store_field(&mut self, off: usize, n: usize, v: u64)
        requires
            off + n <= STORAGE_SIZE,
        ensures
            final(self)@ == old(self)@.with_field(off as int, n as int, v as nat),
    {
        self.u.store(off, n, v);
    }

    /// The register at `x86_off` or `x64_off`, by the tag; a 32-bit register
    /// is sign-extended.
    pub(crate) fn get_reg(&self, x86_off: usize, x64_off: usize) -> (r: u64)
        requires
            x86_off + 4 <= x86::USER_REGS_SIZE,
            x64_off + 8 <= x64::USER_REGS_SIZE,
        ensures
            r == self@.reg(x86_off as int, x64_off as int),
    {
        match self.arch_ {
            SupportedArch::X86 => {
                let v = self.u.load(x86_off, 4);
                proof {
                    lemma_le_value_bound(self@.bytes.subrange(x86_off as int, x86_off + 4));
                    lemma_pow256_values();
                }
                if v < 0x8000_0000 {
                    v
                } else {
                    v + 0xffff_ffff_0000_0000
                }
            },
            SupportedArch::X64 => self.u.load(x64_off, 8),
        }
    }

    /// Writes `v` to the register at `x86_off` or `x64_off`, by the tag; a
    /// 32-bit register keeps the low 32 bits.
    pub(crate) fn set_reg(&mut self, x86_off: usize, x64_off: usize, v: u64)
        requires
            x86_off + 4 <= x86::USER_REGS_SIZE,
            x64_off + 8 <= x64::USER_REGS_SIZE,
        ensures
            final(self)@ == old(self)@.with_reg(x86_off as int, x64_off as int, v),
    {
        match self.arch_ {
            SupportedArch::X86 => self.u.store(x86_off, 4, v),
            SupportedArch::X64 => self.u.store(x64_off, 8, v),
        }
    }

    /// Copies the value of register `regno` to the front of `buf`, which must
    /// hold the largest register. Returns the register's size, or `None`,
    /// with `buf` untouched, where the register has no value.
    pub fn read_register(&self, buf: &mut [u8], regno: GdbRegister) -> (r: Option<usize>)
        requires
            old(buf)@.len() >= MAX_REGISTER_SIZE,
        ensures
            is_defined(self@.info(regno)) ==> r == Some(self@.info(regno).nbytes) && final(buf)@
                == splice(old(buf)@, 0, self@.register_bytes(self@.info(regno))),
            !is_defined(self@.info(regno)) ==> r.is_none() && final(buf)@ == old(buf)@,
    {
        let rv = register_info_for(self.arch_, regno);
        proof {
            crate::catalog::lemma_catalogue_well_formed(self.arch_, regno);
            lemma_catalogue_in_layout(self.arch_, regno);
        }
        if rv.nbytes == 0 {
            None
        } else {
            self.u.copy_out(rv.offset, rv.nbytes, buf);
            Some(rv.nbytes)
        }
    }

    /// Writes `value` to register `regno`: as many of its first bytes as the
    /// register has. A register without a value is left alone, and the
    /// result says whether that deserves a diagnostic.
    pub fn write_register(&mut self, value: &[u8], regno: GdbRegister) -> (r: RegisterWrite)
        ensures
            final(self)@ == old(self)@.after_write(regno, value@),
            is_defined(old(self)@.info(regno)) ==> r == RegisterWrite::Written,
            !is_defined(old(self)@.info(regno)) ==> r == if undefined_registers_to_ignore(
                old(self)@.arch,
            ).contains(regno) {
                RegisterWrite::Ignored
            } else {
                RegisterWrite::Unhandled
            },
    {
        let rv = register_info_for(self.arch_, regno);
        proof {
            crate::catalog::lemma_catalogue_well_formed(self.arch_, regno);
            lemma_catalogue_in_layout(self.arch_, regno);
        }
        if rv.nbytes == 0 {
            if ignore_undefined_register_for(self.arch_, regno) {
                RegisterWrite::Ignored
            } else {
                RegisterWrite::Unhandled
            }
        } else {
            let n = if value.len() < rv.nbytes {
                value.len()
            } else {
                rv.nbytes
            };
            self.u.copy_in(rv.offset, value, n);
            RegisterWrite::Written
        }
    }

    /// The value that descriptor `rv` locates in this file.
    pub(crate) fn register_value_of(&self, rv: RegisterValue) -> (r: u64)
        requires
            rv.nbytes == 4 || rv.nbytes == 8,
            rv.offset + rv.nbytes <= STORAGE_SIZE,
        ensures
            r as nat == self@.register_value(rv),
    {
        if rv.nbytes == 4 {
            rv.u32_pointer_into(&self.u) as u64
        } else {
            rv.u64_pointer_into(&self.u)
        }
    }

    /// The register whose descriptor sits at byte offset `offset` of the
    /// native layout, if any.
    fn register_at_user_offset(&self, offset: usize) -> (r: Option<GdbRegister>)
        ensures
            r == register_at_offset(self@.arch, offset),
    {
        let n = num_registers_for(self.arch_);
        let mut i: u32 = 0;
        while i < n
            invariant
                i <= n,
                n == register_count(self@.arch),
                register_at_offset(self@.arch, offset) == register_at_offset_from(
                    self@.arch,
                    offset,
                    i as nat,
                ),
            decreases n - i,
        {
            let rv = register_info_for(self.arch_, i);
            if rv.nbytes > 0 && rv.offset == offset {
                return Some(i);
            }
            i = i + 1;
        }
        None
    }

    /// Writes the low bytes of `value`, as many as the register has, to the
    /// register at byte offset `offset` of the native layout; does nothing
    /// where no register sits there.
    pub fn write_register_by_user_offset(&mut self, offset: usize, value: usize)
        ensures
            register_at_offset(old(self)@.arch, offset) is None ==> final(self)@ == old(self)@,
            register_at_offset(old(self)@.arch, offset) matches Some(regno) ==> final(self)@
                == old(self)@.with_field(
                old(self)@.info(regno).offset as int,
                old(self)@.info(regno).nbytes as int,
                value as nat,
            ),
    {
        match self.register_at_user_offset(offset) {
            Some(regno) => {
                let rv = register_info_for(self.arch_, regno);
                proof {
                    lemma_catalogue_in_layout(self.arch_, regno);
                }
                self.u.store(rv.offset, rv.nbytes, value as u64);
            },
            None => {},
        }
    }

    /// Copies the value of the register at byte offset `offset` of the native
    /// layout to the front of `buf`, as `read_register` does; `None`, with
    /// `buf` untouched, where no register sits there.
    pub fn read_registers_by_user_offset(&self, buf: &mut [u8], offset: usize) -> (r: Option<
        usize,
    >)
        requires
            old(buf)@.len() >= MAX_REGISTER_SIZE,
        ensures
            register_at_offset(self@.arch, offset) is None ==> r.is_none() && final(buf)@ == old(
                buf,
            )@,
            register_at_offset(self@.arch, offset) matches Some(regno) ==> r == Some(
                self@.info(regno).nbytes,
            ) && final(buf)@ == splice(old(buf)@, 0, self@.register_bytes(self@.info(regno))),
    {
        match self.register_at_user_offset(offset) {
            Some(regno) => {
                proof {
                    assert(register_at_offset_from(self@.arch, offset, 0) matches Some(k)
                        ==> is_defined(self@.info(k))) by {
                        lemma_register_at_offset_defined(self@.arch, offset, 0);
                    }
                }
                self.read_register(buf, regno)
            },
            None => None,
        }
    }
}

impl RegisterValue {
    /// The 4-byte value that this descriptor locates in `regs`.
    pub fn u32_pointer_into(&self, regs: &RegistersUnion) -> (r: u32)
        requires
            self.offset + 4 <= STORAGE_SIZE,
        ensures
            r as nat == le_value(regs@.subrange(self.offset as int, self.offset + 4)),
    {
        proof {
            lemma_le_value_bound(regs@.subrange(self.offset as int, self.offset + 4));
            lemma_pow256_values();
        }
        regs.load(self.offset, 4) as u32
    }

    /// The 8-byte value that this descriptor locates in `regs`.
    pub fn u64_pointer_into(&self, regs: &RegistersUnion) -> (r: u64)
        requires
            self.offset + 8 <= STORAGE_SIZE,
        ensures
            r as nat == le_value(regs@.subrange(self.offset as int, self.offset + 8)),
    {
        regs.load(self.offset, 8)
    }

    /// Writes `value` as the 4-byte value that this descriptor locates in
    /// `regs`.
    pub fn mut_u32_pointer_into(&self, regs: &mut RegistersUnion, value: u32)
        requires
            self.offset + 4 <= STORAGE_SIZE,
        ensures
            final(regs)@ == splice(old(regs)@, self.offset as int, le_encode(value as nat, 4)),
    {
        regs.store(self.offset, 4, value as u64);
    }

    /// Writes `value` as the 8-byte value that this descriptor locates in
    /// `regs`.
    pub fn mut_u64_pointer_into(&self, regs: &mut RegistersUnion, value: u64)
        requires
            self.offset + 8 <= STORAGE_SIZE,
        ensures
            final(regs)@ == splice(old(regs)@, self.offset as int, le_encode(value as nat, 8)),
    {
        regs.store(self.offset, 8, value);
    }
}

/// All-zero native registers.
pub open spec fn zero_native() -> Seq<u8> {
    Seq::new(x64::USER_REGS_SIZE as nat, |i: int| 0u8)
}

/// The native registers for the file `v`: its own bytes when it is of the
/// native architecture, else its 32-bit layout widened into zeroed native
/// registers.
pub open spec fn native_of(v: RegistersView) -> Seq<u8> {
    if v.arch == RD_NATIVE_ARCH {
        v.bytes
    } else {
        widen_bytes(zero_native(), v.bytes)
    }
}

/// The bytes of the file `v` after it takes the native registers `native`:
/// a copy when it is of the native architecture, else the native fields
/// truncated into its 32-bit layout.
pub open spec fn bytes_from_native(v: RegistersView, native: Seq<u8>) -> Seq<u8> {
    if v.arch == RD_NATIVE_ARCH {
        native
    } else {
        narrow_bytes(v.bytes, native)
    }
}

impl Registers {
    /// The native registers for this file: a copy when it is of the native
    /// architecture, else its 32-bit layout widened into zeroed native
    /// registers.
    pub fn get_ptrace(&self) -> (r: RegistersNativeUnion)
        ensures
            r@ == native_of(self@),
    {
        if self.arch_ == RD_NATIVE_ARCH {
            RegistersNativeUnion::from_union(&self.u)
        } else {
            let mut result = RegistersNativeUnion::default();
            convert_x86_widen(&mut result, &self.u);
            result
        }
    }

    /// Takes the native registers `ptrace_regs`: a copy when this file is of
    /// the native architecture, else their fields truncated into its 32-bit
    /// layout.
    pub fn set_from_ptrace(&mut self, ptrace_regs: &RegistersNativeUnion)
        ensures
            final(self)@ == (RegistersView {
                arch: old(self)@.arch,
                bytes: bytes_from_native(old(self)@, ptrace_regs@),
            }),
    {
        if self.arch_ == RD_NATIVE_ARCH {
            self.u = RegistersUnion::from_native(ptrace_regs);
        } else {
            convert_x86_narrow(&mut self.u, ptrace_regs);
        }
    }

    /// The bytes of this file's own native layout.
    pub fn get_ptrace_for_self_arch(&self) -> (r: &[u8])
        ensures
            r@ == self@.bytes.subrange(0, layout_size(self@.arch) as int),
    {
        match self.arch_ {
            SupportedArch::X86 => self.u.prefix(x86::USER_REGS_SIZE),
            SupportedArch::X64 => self.u.prefix(x64::USER_REGS_SIZE),
        }
    }

    /// This file in the native layout of `arch`: its native registers taken
    /// into a zeroed file of that architecture.
    pub fn get_ptrace_for_arch(&self, arch: SupportedArch) -> (r: Vec<u8>)
        ensures
            r@ == bytes_from_native(
                RegistersView { arch, bytes: Seq::new(STORAGE_SIZE as nat, |i: int| 0u8) },
                native_of(self@),
            ).subrange(0, layout_size(arch) as int),
    {
        let mut tmp_regs = Registers::new(arch);
        let native = self.get_ptrace();
        tmp_regs.set_from_ptrace(&native);
        let l = match arch {
            SupportedArch::X86 => x86::USER_REGS_SIZE,
            SupportedArch::X64 => x64::USER_REGS_SIZE,
        };
        vstd::slice::slice_to_vec(tmp_regs.u.prefix(l))
    }

    /// Takes the native layout of `arch` from `data`: on the native
    /// architecture as `set_from_ptrace` does; for a 32-bit file, as a plain
    /// copy of its layout.
    pub fn set_from_ptrace_for_arch(&mut self, arch: SupportedArch, data: &[u8])
        requires
            arch == RD_NATIVE_ARCH ==> data@.len() == x64::USER_REGS_SIZE,
            arch != RD_NATIVE_ARCH ==> old(self)@.arch == SupportedArch::X86 && data@.len()
                == x86::USER_REGS_SIZE,
        ensures
            final(self)@.arch == old(self)@.arch,
            arch == RD_NATIVE_ARCH ==> final(self)@.bytes == bytes_from_native(old(self)@, data@),
            arch != RD_NATIVE_ARCH ==> final(self)@.bytes == splice(old(self)@.bytes, 0, data@),
    {
        if arch == RD_NATIVE_ARCH {
            let n = RegistersNativeUnion::from_bytes(data);
            self.set_from_ptrace(&n);
        } else {
            self.u.copy_in(0, data, x86::USER_REGS_SIZE);
            assert(data@.subrange(0, x86::USER_REGS_SIZE as int) =~= data@);
        }
    }
}

/// Writing a value as long as a register to that register and reading the
/// register back gives the value back.
pub proof fn lemma_write_read_round_trip(v: RegistersView, regno: GdbRegister, value: Seq<u8>)
    requires
        v.wf(),
        is_defined(v.info(regno)),
        value.len() == v.info(regno).nbytes,
    ensures
        v.after_write(regno, value).arch == v.arch,
        v.after_write(regno, value).register_bytes(v.info(regno)) == value,
{
    lemma_catalogue_in_layout(v.arch, regno);
    let rv = v.info(regno);
    assert(value.subrange(0, value.len() as int) =~= value);
    assert(splice(v.bytes, rv.offset as int, value).subrange(
        rv.offset as int,
        rv.offset + rv.nbytes,
    ) =~= value);
}

/// A 32-bit file that hands its registers to the tracing API and takes them
/// back, into itself or into another 32-bit file, gets every converted field
/// back exactly.
pub proof fn lemma_ptrace_round_trip(x: RegistersView, target: RegistersView)
    requires
        x.wf(),
        target.wf(),
        x.arch == SupportedArch::X86,
        target.arch == SupportedArch::X86,
    ensures
        forall|i: int|
            0 <= i < NUM_CONVERTED_FIELDS ==> #[trigger] field32(
                bytes_from_native(target, native_of(x)),
                converted_field(i).0 as int,
            ) == x.field(converted_field(i).0 as int, 4),
{
    lemma_narrow_widen_round_trip(x.bytes, zero_native(), target.bytes);
}

/// The register found at an offset has a value and sits at that offset.
pub proof fn lemma_register_at_offset_defined(arch: SupportedArch, offset: usize, start: nat)
    ensures
        register_at_offset_from(arch, offset, start) matches Some(k) ==> is_defined(
            register_info(arch, k),
        ) && register_info(arch, k).offset == offset,
    decreases register_count(arch) - start,
{
    if start < register_count(arch) {
        lemma_register_at_offset_defined(arch, offset, start + 1);
    }
}

} // verus!
