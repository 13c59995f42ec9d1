//! The register catalogue: for each architecture, the descriptor of every
//! register of the remote debugging protocol's numbering (where it lives in the
//! native `user_regs_struct`, how wide it is, and which of its bits take part
//! in comparisons), in register-number order.

use crate::gdb_register::{
    DREG_64_CS,
    DREG_64_DS,
    DREG_64_EFLAGS,
    DREG_64_ES,
    DREG_64_FOSEG,
    DREG_64_FS,
    DREG_64_GS,
    DREG_64_MXCSR,
    DREG_64_SS,
    DREG_CS,
    DREG_DS,
    DREG_EAX,
    DREG_EBP,
    DREG_EBX,
    DREG_ECX,
    DREG_EDI,
    DREG_EDX,
    DREG_EFLAGS,
    DREG_EIP,
    DREG_ES,
    DREG_ESI,
    DREG_ESP,
    DREG_FOSEG,
    DREG_FS,
    DREG_FS_BASE,
    DREG_GS,
    DREG_GS_BASE,
    DREG_MXCSR,
    DREG_NUM_LINUX_I386,
    DREG_NUM_LINUX_X86_64,
    DREG_ORIG_EAX,
    DREG_ORIG_RAX,
    DREG_R10,
    DREG_R11,
    DREG_R12,
    DREG_R13,
    DREG_R14,
    DREG_R15,
    DREG_R8,
    DREG_R9,
    DREG_RAX,
    DREG_RBP,
    DREG_RBX,
    DREG_RCX,
    DREG_RDI,
    DREG_RDX,
    DREG_RIP,
    DREG_RSI,
    DREG_RSP,
    DREG_SS,
    GdbRegister,
};
use crate::kernel_abi::x64;
use crate::kernel_abi::x86;
use crate::kernel_abi::SupportedArch;
use crate::le_bytes::{lemma_pow256_values, pow256};
use vstd::prelude::*;

verus! {

/// Where one register lives in a native register layout and how it compares.
#[derive(Copy, Clone, Debug)]
pub struct RegisterValue {
    /// The name of this register.
    pub name: &'static str,
    /// The byte offset of the register in `user_regs_struct`.
    pub offset: usize,
    /// The size of the register in bytes; 0 means it cannot be read or written.
    pub nbytes: usize,
    /// Mask applied to register values before they are compared: all bits of
    /// the register, but for registers with special comparison semantics.
    pub comparison_mask: u64,
}

/// All bits of a 4-byte register.
pub const FULL32: u64 = 0xffff_ffff;

/// All bits of an 8-byte register.
pub const FULL64: u64 = 0xffff_ffff_ffff_ffff;

/// A segment selector compares without its request-privilege-level bits: the
/// kernel rewrites them on return, and whether that is seen depends on whether
/// the value has been through the CPU yet.
pub const SELECTOR_MASK: u64 = 0xffff_fffc;

/// The mask with every bit of an `nbytes`-byte register set.
pub open spec fn full_width_mask(nbytes: nat) -> u64 {
    (pow256(nbytes) - 1) as u64
}

/// What the catalogue guarantees of each of its descriptors.
pub open spec fn descriptor_well_formed(rv: RegisterValue) -> bool {
    &&& (rv.nbytes == 0 || rv.nbytes == 4 || rv.nbytes == 8)
    &&& rv.comparison_mask & !full_width_mask(rv.nbytes as nat) == 0
}

/// The descriptor of a register number that the tracing API does not expose.
pub open spec fn undefined_register() -> RegisterValue {
    RegisterValue { name: "", offset: 0, nbytes: 0, comparison_mask: 0 }
}

/// How many register numbers the catalogue of `arch` covers.
pub open spec fn register_count(arch: SupportedArch) -> u32 {
    match arch {
        SupportedArch::X86 => DREG_NUM_LINUX_I386,
        SupportedArch::X64 => DREG_NUM_LINUX_X86_64,
    }
}

/// The 32-bit catalogue. The syscall-number pseudo-register has mask 0: the
/// comparator treats it on its own.
pub open spec fn x86_register(regno: GdbRegister) -> RegisterValue {
    if regno == DREG_EAX {
        RegisterValue { name: "eax", offset: x86::EAX, nbytes: 4, comparison_mask: FULL32 }
    } else if regno == DREG_ECX {
        RegisterValue { name: "ecx", offset: x86::ECX, nbytes: 4, comparison_mask: FULL32 }
    } else if regno == DREG_EDX {
        RegisterValue { name: "edx", offset: x86::EDX, nbytes: 4, comparison_mask: FULL32 }
    } else if regno == DREG_EBX {
        RegisterValue { name: "ebx", offset: x86::EBX, nbytes: 4, comparison_mask: FULL32 }
    } else if regno == DREG_ESP {
        RegisterValue { name: "esp", offset: x86::ESP, nbytes: 4, comparison_mask: FULL32 }
    } else if regno == DREG_EBP {
        RegisterValue { name: "ebp", offset: x86::EBP, nbytes: 4, comparison_mask: FULL32 }
    } else if regno == DREG_ESI {
        RegisterValue { name: "esi", offset: x86::ESI, nbytes: 4, comparison_mask: FULL32 }
    } else if regno == DREG_EDI {
        RegisterValue { name: "edi", offset: x86::EDI, nbytes: 4, comparison_mask: FULL32 }
    } else if regno == DREG_EIP {
        RegisterValue { name: "eip", offset: x86::EIP, nbytes: 4, comparison_mask: FULL32 }
    } else if regno == DREG_EFLAGS {
        RegisterValue { name: "eflags", offset: x86::EFLAGS, nbytes: 4, comparison_mask: FULL32 }
    } else if regno == DREG_CS {
        RegisterValue { name: "xcs", offset: x86::XCS, nbytes: 4, comparison_mask: SELECTOR_MASK }
    } else if regno == DREG_SS {
        RegisterValue { name: "xss", offset: x86::XSS, nbytes: 4, comparison_mask: SELECTOR_MASK }
    } else if regno == DREG_DS {
        RegisterValue { name: "xds", offset: x86::XDS, nbytes: 4, comparison_mask: SELECTOR_MASK }
    } else if regno == DREG_ES {
        RegisterValue { name: "xes", offset: x86::XES, nbytes: 4, comparison_mask: SELECTOR_MASK }
    } else if regno == DREG_FS {
        RegisterValue { name: "xfs", offset: x86::XFS, nbytes: 4, comparison_mask: SELECTOR_MASK }
    } else if regno == DREG_GS {
        RegisterValue { name: "xgs", offset: x86::XGS, nbytes: 4, comparison_mask: SELECTOR_MASK }
    } else if regno == DREG_ORIG_EAX {
        RegisterValue { name: "orig_eax", offset: x86::ORIG_EAX, nbytes: 4, comparison_mask: 0 }
    } else {
        undefined_register()
    }
}

/// The 64-bit catalogue. Flags and segment selectors are read as their low
/// four bytes.
pub open spec fn x64_register(regno: GdbRegister) -> RegisterValue {
    if regno == DREG_RAX {
        RegisterValue { name: "rax", offset: x64::RAX, nbytes: 8, comparison_mask: FULL64 }
    } else if regno == DREG_RCX {
        RegisterValue { name: "rcx", offset: x64::RCX, nbytes: 8, comparison_mask: FULL64 }
    } else if regno == DREG_RDX {
        RegisterValue { name: "rdx", offset: x64::RDX, nbytes: 8, comparison_mask: FULL64 }
    } else if regno == DREG_RBX {
        RegisterValue { name: "rbx", offset: x64::RBX, nbytes: 8, comparison_mask: FULL64 }
    } else if regno == DREG_RSP {
        RegisterValue { name: "rsp", offset: x64::RSP, nbytes: 8, comparison_mask: FULL64 }
    } else if regno == DREG_RBP {
        RegisterValue { name: "rbp", offset: x64::RBP, nbytes: 8, comparison_mask: FULL64 }
    } else if regno == DREG_RSI {
        RegisterValue { name: "rsi", offset: x64::RSI, nbytes: 8, comparison_mask: FULL64 }
    } else if regno == DREG_RDI {
        RegisterValue { name: "rdi", offset: x64::RDI, nbytes: 8, comparison_mask: FULL64 }
    } else if regno == DREG_R8 {
        RegisterValue { name: "r8", offset: x64::R8, nbytes: 8, comparison_mask: FULL64 }
    } else if regno == DREG_R9 {
        RegisterValue { name: "r9", offset: x64::R9, nbytes: 8, comparison_mask: FULL64 }
    } else if regno == DREG_R10 {
        RegisterValue { name: "r10", offset: x64::R10, nbytes: 8, comparison_mask: FULL64 }
    } else if regno == DREG_R11 {
        RegisterValue { name: "r11", offset: x64::R11, nbytes: 8, comparison_mask: FULL64 }
    } else if regno == DREG_R12 {
        RegisterValue { name: "r12", offset: x64::R12, nbytes: 8, comparison_mask: FULL64 }
    } else if regno == DREG_R13 {
        RegisterValue { name: "r13", offset: x64::R13, nbytes: 8, comparison_mask: FULL64 }
    } else if regno == DREG_R14 {
        RegisterValue { name: "r14", offset: x64::R14, nbytes: 8, comparison_mask: FULL64 }
    } else if regno == DREG_R15 {
        RegisterValue { name: "r15", offset: x64::R15, nbytes: 8, comparison_mask: FULL64 }
    } else if regno == DREG_RIP {
        RegisterValue { name: "rip", offset: x64::RIP, nbytes: 8, comparison_mask: FULL64 }
    } else if regno == DREG_64_EFLAGS {
        RegisterValue { name: "eflags", offset: x64::EFLAGS, nbytes: 4, comparison_mask: FULL32 }
    } else if regno == DREG_64_CS {
        RegisterValue { name: "cs", offset: x64::CS, nbytes: 4, comparison_mask: SELECTOR_MASK }
    } else if regno == DREG_64_SS {
        RegisterValue { name: "ss", offset: x64::SS, nbytes: 4, comparison_mask: SELECTOR_MASK }
    } else if regno == DREG_64_DS {
        RegisterValue { name: "ds", offset: x64::DS, nbytes: 4, comparison_mask: SELECTOR_MASK }
    } else if regno == DREG_64_ES {
        RegisterValue { name: "es", offset: x64::ES, nbytes: 4, comparison_mask: SELECTOR_MASK }
    } else if regno == DREG_64_FS {
        RegisterValue { name: "fs", offset: x64::FS, nbytes: 4, comparison_mask: SELECTOR_MASK }
    } else if regno == DREG_64_GS {
        RegisterValue { name: "gs", offset: x64::GS, nbytes: 4, comparison_mask: SELECTOR_MASK }
    } else if regno == DREG_ORIG_RAX {
        RegisterValue { name: "orig_rax", offset: x64::ORIG_RAX, nbytes: 8, comparison_mask: 0 }
    } else if regno == DREG_FS_BASE {
        RegisterValue { name: "fs_base", offset: x64::FS_BASE, nbytes: 8, comparison_mask: FULL64 }
    } else if regno == DREG_GS_BASE {
        RegisterValue { name: "gs_base", offset: x64::GS_BASE, nbytes: 8, comparison_mask: FULL64 }
    } else {
        undefined_register()
    }
}

/// The descriptor of register `regno` of `arch`.
pub open spec fn register_info(arch: SupportedArch, regno: GdbRegister) -> RegisterValue {
    match arch {
        SupportedArch::X86 => x86_register(regno),
        SupportedArch::X64 => x64_register(regno),
    }
}

/// The catalogue of `arch`, indexed by register number.
pub open spec fn regs_info(arch: SupportedArch) -> Seq<RegisterValue> {
    Seq::new(register_count(arch) as nat, |i: int| register_info(arch, i as GdbRegister))
}

/// The registers without a value on `arch` whose writes are dropped without a
/// diagnostic.
pub open spec fn undefined_registers_to_ignore(arch: SupportedArch) -> Seq<GdbRegister> {
    match arch {
        SupportedArch::X86 => seq![DREG_FOSEG, DREG_MXCSR],
        SupportedArch::X64 => seq![DREG_64_FOSEG, DREG_64_MXCSR],
    }
}

proof fn lemma_mask_facts()
    ensures
        full_width_mask(0) == 0,
        full_width_mask(4) == FULL32,
        full_width_mask(8) == FULL64,
        FULL32 & !FULL32 == 0,
        SELECTOR_MASK & !FULL32 == 0,
        FULL64 & !FULL64 == 0,
        SELECTOR_MASK & !FULL64 == 0,
        FULL32 & !FULL64 == 0,
        forall|m: u64| 0 & !m == 0,
{
    lemma_pow256_values();
    assert(FULL32 & !FULL32 == 0) by (bit_vector);
    assert(SELECTOR_MASK & !FULL32 == 0) by (bit_vector);
    assert(FULL64 & !FULL64 == 0) by (bit_vector);
    assert(SELECTOR_MASK & !FULL64 == 0) by (bit_vector);
    assert(FULL32 & !FULL64 == 0) by (bit_vector);
    assert(forall|m: u64| 0 & !m == 0) by (bit_vector);
}

/// Every descriptor of every catalogue is 0, 4 or 8 bytes wide and its
/// comparison mask has no bit outside the register's width.
pub proof fn lemma_catalogue_well_formed(arch: SupportedArch, regno: GdbRegister)
    ensures
        descriptor_well_formed(register_info(arch, regno)),
{
    lemma_mask_facts();
}

/// Every descriptor of every catalogue lies inside its architecture's native
/// layout.
pub proof fn lemma_catalogue_in_layout(arch: SupportedArch, regno: GdbRegister)
    ensures
        register_info(arch, regno).offset + register_info(arch, regno).nbytes <= match arch {
            SupportedArch::X86 => x86::USER_REGS_SIZE,
            SupportedArch::X64 => x64::USER_REGS_SIZE,
        },
{
}

impl RegisterValue {
    /// A descriptor whose mask covers the whole register.
    pub fn new(name: &'static str, offset: usize, nbytes: usize) -> (r: RegisterValue)
        requires
            nbytes <= 8,
        ensures
            r == (RegisterValue { name, offset, nbytes, comparison_mask: full_width_mask(nbytes as nat) }),
    {
        let comparison_mask: u64 = RegisterValue::mask_for_nbytes(nbytes);
        RegisterValue { name, offset, nbytes, comparison_mask }
    }

    /// A descriptor with a mask of its own, which must lie within the
    /// register's width.
    pub fn new_with_mask(name: &'static str, offset: usize, nbytes: usize, comparison_mask: u64) -> (r:
        RegisterValue)
        requires
            nbytes <= 8,
            comparison_mask & !full_width_mask(nbytes as nat) == 0,
        ensures
            r == (RegisterValue { name, offset, nbytes, comparison_mask }),
    {
        RegisterValue { name, offset, nbytes, comparison_mask }
    }

    /// A descriptor with a mask of its own that is read as `size_override`
    /// bytes, when that is not 0, rather than as the field's `nbytes`.
    pub fn new_with_mask_with_size_override(
        name: &'static str,
        offset: usize,
        nbytes: usize,
        comparison_mask: u64,
        size_override: usize,
    ) -> (r: RegisterValue)
        requires
            nbytes <= 8,
            comparison_mask & !full_width_mask(nbytes as nat) == 0,
        ensures
            r == (RegisterValue {
                name,
                offset,
                nbytes: if size_override > 0 { size_override } else { nbytes },
                comparison_mask,
            }),
    {
        let mut nbytes = nbytes;
        if size_override > 0 {
            nbytes = size_override;
        }
        RegisterValue { name, offset, nbytes, comparison_mask }
    }

    /// The mask with all bits of an `nbytes`-byte register set.
    pub fn mask_for_nbytes(nbytes: usize) -> (r: u64)
        requires
            nbytes <= 8,
        ensures
            r == full_width_mask(nbytes as nat),
    {
        proof {
            lemma_pow256_values();
        }
        if nbytes == 8 {
            return FULL64;
        }
        let mut p: u64 = 1;
        let mut i: usize = 0;
        while i < nbytes
            invariant
                i <= nbytes < 8,
                p == pow256(i as nat),
                pow256(7) == 0x100_0000_0000_0000,
            decreases nbytes - i,
        {
            proof {
                lemma_pow256_values();
            }
            assert(pow256((i + 1) as nat) == 256 * pow256(i as nat));
            p = p * 256;
            i = i + 1;
        }
        p - 1
    }
}

fn x86_register_info(regno: GdbRegister) -> (r: RegisterValue)
    ensures
        r == x86_register(regno),
{
    proof {
        lemma_mask_facts();
    }
    if regno == DREG_EAX {
        RegisterValue::new("eax", x86::EAX, 4)
    } else if regno == DREG_ECX {
        RegisterValue::new("ecx", x86::ECX, 4)
    } else if regno == DREG_EDX {
        RegisterValue::new("edx", x86::EDX, 4)
    } else if regno == DREG_EBX {
        RegisterValue::new("ebx", x86::EBX, 4)
    } else if regno == DREG_ESP {
        RegisterValue::new("esp", x86::ESP, 4)
    } else if regno == DREG_EBP {
        RegisterValue::new("ebp", x86::EBP, 4)
    } else if regno == DREG_ESI {
        RegisterValue::new("esi", x86::ESI, 4)
    } else if regno == DREG_EDI {
        RegisterValue::new("edi", x86::EDI, 4)
    } else if regno == DREG_EIP {
        RegisterValue::new("eip", x86::EIP, 4)
    } else if regno == DREG_EFLAGS {
        RegisterValue::new("eflags", x86::EFLAGS, 4)
    } else if regno == DREG_CS {
        RegisterValue::new_with_mask("xcs", x86::XCS, 4, SELECTOR_MASK)
    } else if regno == DREG_SS {
        RegisterValue::new_with_mask("xss", x86::XSS, 4, SELECTOR_MASK)
    } else if regno == DREG_DS {
        RegisterValue::new_with_mask("xds", x86::XDS, 4, SELECTOR_MASK)
    } else if regno == DREG_ES {
        RegisterValue::new_with_mask("xes", x86::XES, 4, SELECTOR_MASK)
    } else if regno == DREG_FS {
        RegisterValue::new_with_mask("xfs", x86::XFS, 4, SELECTOR_MASK)
    } else if regno == DREG_GS {
        RegisterValue::new_with_mask("xgs", x86::XGS, 4, SELECTOR_MASK)
    } else if regno == DREG_ORIG_EAX {
        RegisterValue::new_with_mask("orig_eax", x86::ORIG_EAX, 4, 0)
    } else {
        RegisterValue { name: "", offset: 0, nbytes: 0, comparison_mask: 0 }
    }
}

fn x64_register_info(regno: GdbRegister) -> (r: RegisterValue)
    ensures
        r == x64_register(regno),
{
    proof {
        lemma_mask_facts();
    }
    if regno == DREG_RAX {
        RegisterValue::new("rax", x64::RAX, 8)
    } else if regno == DREG_RCX {
        RegisterValue::new("rcx", x64::RCX, 8)
    } else if regno == DREG_RDX {
        RegisterValue::new("rdx", x64::RDX, 8)
    } else if regno == DREG_RBX {
        RegisterValue::new("rbx", x64::RBX, 8)
    } else if regno == DREG_RSP {
        RegisterValue::new("rsp", x64::RSP, 8)
    } else if regno == DREG_RBP {
        RegisterValue::new("rbp", x64::RBP, 8)
    } else if regno == DREG_RSI {
        RegisterValue::new("rsi", x64::RSI, 8)
    } else if regno == DREG_RDI {
        RegisterValue::new("rdi", x64::RDI, 8)
    } else if regno == DREG_R8 {
        RegisterValue::new("r8", x64::R8, 8)
    } else if regno == DREG_R9 {
        RegisterValue::new("r9", x64::R9, 8)
    } else if regno == DREG_R10 {
        RegisterValue::new("r10", x64::R10, 8)
    } else if regno == DREG_R11 {
        RegisterValue::new("r11", x64::R11, 8)
    } else if regno == DREG_R12 {
        RegisterValue::new("r12", x64::R12, 8)
    } else if regno == DREG_R13 {
        RegisterValue::new("r13", x64::R13, 8)
    } else if regno == DREG_R14 {
        RegisterValue::new("r14", x64::R14, 8)
    } else if regno == DREG_R15 {
        RegisterValue::new("r15", x64::R15, 8)
    } else if regno == DREG_RIP {
        RegisterValue::new("rip", x64::RIP, 8)
    } else if regno == DREG_64_EFLAGS {
        RegisterValue::new_with_mask_with_size_override("eflags", x64::EFLAGS, 8, FULL32, 4)
    } else if regno == DREG_64_CS {
        RegisterValue::new_with_mask_with_size_override("cs", x64::CS, 8, SELECTOR_MASK, 4)
    } else if regno == DREG_64_SS {
        RegisterValue::new_with_mask_with_size_override("ss", x64::SS, 8, SELECTOR_MASK, 4)
    } else if regno == DREG_64_DS {
        RegisterValue::new_with_mask_with_size_override("ds", x64::DS, 8, SELECTOR_MASK, 4)
    } else if regno == DREG_64_ES {
        RegisterValue::new_with_mask_with_size_override("es", x64::ES, 8, SELECTOR_MASK, 4)
    } else if regno == DREG_64_FS {
        RegisterValue::new_with_mask_with_size_override("fs", x64::FS, 8, SELECTOR_MASK, 4)
    } else if regno == DREG_64_GS {
        RegisterValue::new_with_mask_with_size_override("gs", x64::GS, 8, SELECTOR_MASK, 4)
    } else if regno == DREG_ORIG_RAX {
        RegisterValue::new_with_mask("orig_rax", x64::ORIG_RAX, 8, 0)
    } else if regno == DREG_FS_BASE {
        RegisterValue::new("fs_base", x64::FS_BASE, 8)
    } else if regno == DREG_GS_BASE {
        RegisterValue::new("gs_base", x64::GS_BASE, 8)
    } else {
        RegisterValue { name: "", offset: 0, nbytes: 0, comparison_mask: 0 }
    }
}

/// The descriptor of register `regno` of `arch`; a register number beyond
/// the catalogue gets the descriptor of a register without a value.
pub fn register_info_for(arch: SupportedArch, regno: GdbRegister) -> (r: RegisterValue)
    ensures
        r == register_info(arch, regno),
{
    match arch {
        SupportedArch::X86 => x86_register_info(regno),
        SupportedArch::X64 => x64_register_info(regno),
    }
}

/// How many register numbers the catalogue of `arch` covers.
pub fn num_registers_for(arch: SupportedArch) -> (r: u32)
    ensures
        r == register_count(arch),
{
    match arch {
        SupportedArch::X86 => DREG_NUM_LINUX_I386,
        SupportedArch::X64 => DREG_NUM_LINUX_X86_64,
    }
}

/// The catalogue of `arch`, indexed by register number.
pub fn regs_info_for(arch: SupportedArch) -> (r: Vec<RegisterValue>)
    ensures
        r@ == regs_info(arch),
{
    let n = num_registers_for(arch);
    let mut v: Vec<RegisterValue> = Vec::new();
    let mut i: u32 = 0;
    while i < n
        invariant
            i <= n,
            n == register_count(arch),
            v@ == regs_info(arch).subrange(0, i as int),
        decreases n - i,
    {
        v.push(register_info_for(arch, i));
        i = i + 1;
        assert(v@ =~= regs_info(arch).subrange(0, i as int));
    }
    assert(v@ =~= regs_info(arch));
    v
}

/// Whether a write to `regno`, which has no value on `arch`, is dropped
/// without a diagnostic.
pub fn ignore_undefined_register_for(arch: SupportedArch, regno: GdbRegister) -> (r: bool)
    ensures
        r == undefined_registers_to_ignore(arch).contains(regno),
{
    let table: Vec<GdbRegister> = match arch {
        SupportedArch::X86 => vec![DREG_FOSEG, DREG_MXCSR],
        SupportedArch::X64 => vec![DREG_64_FOSEG, DREG_64_MXCSR],
    };
    assert(table@ =~= undefined_registers_to_ignore(arch));
    let mut i: usize = 0;
    while i < table.len()
        invariant
            i <= table@.len(),
            table@ == undefined_registers_to_ignore(arch),
            forall|j: int| 0 <= j < i ==> table@[j] != regno,
        decreases table@.len() - i,
    {
        if table[i] == regno {
            return true;
        }
        i = i + 1;
    }
    false
}

/// The register catalogue of one architecture, with the facts about it that
/// the register file needs.
pub trait Architecture {
    spec fn spec_arch() -> SupportedArch;

    fn get_regs_info() -> (r: Vec<RegisterValue>)
        ensures
            r@ == regs_info(Self::spec_arch()),
    ;

    fn ignore_undefined_register(regno: GdbRegister) -> (r: bool)
        ensures
            r == undefined_registers_to_ignore(Self::spec_arch()).contains(regno),
    ;

    fn num_registers() -> (r: u32)
        ensures
            r == register_count(Self::spec_arch()),
    ;

    fn get_arch() -> (r: SupportedArch)
        ensures
            r == Self::spec_arch(),
    ;
}

/// The 32-bit architecture.
pub struct X86Arch;

/// The 64-bit architecture.
pub struct X64Arch;

impl Architecture for X86Arch {
    open spec fn spec_arch() -> SupportedArch {
        SupportedArch::X86
    }

    fn get_regs_info() -> (r: Vec<RegisterValue>) {
        regs_info_for(SupportedArch::X86)
    }

    fn ignore_undefined_register(regno: GdbRegister) -> (r: bool) {
        ignore_undefined_register_for(SupportedArch::X86, regno)
    }

    fn num_registers() -> (r: u32) {
        num_registers_for(SupportedArch::X86)
    }

    fn get_arch() -> (r: SupportedArch) {
        SupportedArch::X86
    }
}

impl Architecture for X64Arch {
    open spec fn spec_arch() -> SupportedArch {
        SupportedArch::X64
    }

    fn get_regs_info() -> (r: Vec<RegisterValue>) {
        regs_info_for(SupportedArch::X64)
    }

    fn ignore_undefined_register(regno: GdbRegister) -> (r: bool) {
        ignore_undefined_register_for(SupportedArch::X64, regno)
    }

    fn num_registers() -> (r: u32) {
        num_registers_for(SupportedArch::X64)
    }

    fn get_arch() -> (r: SupportedArch) {
        SupportedArch::X64
    }
}

/// The 32-bit catalogue.
pub fn x86regs() -> (r: Vec<RegisterValue>)
    ensures
        r@ == regs_info(SupportedArch::X86),
{
    regs_info_for(SupportedArch::X86)
}

/// The 64-bit catalogue.
pub fn x64regs() -> (r: Vec<RegisterValue>)
    ensures
        r@ == regs_info(SupportedArch::X64),
{
    regs_info_for(SupportedArch::X64)
}

} // verus!
