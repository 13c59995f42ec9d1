//! The width converter: field-by-field conversion between the 32-bit and
//! the 64-bit register layout, for a 64-bit tracer of a 32-bit process.

use crate::kernel_abi::x64;
use crate::kernel_abi::x86;
use crate::le_bytes::{le_encode, le_value, splice, lemma_le_encode_len, lemma_le_round_trip,
    lemma_le_value_bound, lemma_pow256_values};
use crate::registers::{sign_extend_32, RegistersNativeUnion, RegistersUnion, STORAGE_SIZE};
use vstd::prelude::*;

verus! {

/// How many fields the two layouts have in common.
pub const NUM_CONVERTED_FIELDS: usize = 17;

/// Converted field `i`, as its offsets in the 32-bit and in the 64-bit
/// layout: the general-purpose registers, the instruction and stack
/// pointers, the syscall-number pseudo-register, the flags and the segment
/// selectors. Field 0 is the accumulator.
pub open spec fn converted_field(i: int) -> (usize, usize) {
    if i == 0 {
        (x86::EAX, x64::RAX)
    } else if i == 1 {
        (x86::EBX, x64::RBX)
    } else if i == 2 {
        (x86::ECX, x64::RCX)
    } else if i == 3 {
        (x86::EDX, x64::RDX)
    } else if i == 4 {
        (x86::ESI, x64::RSI)
    } else if i == 5 {
        (x86::EDI, x64::RDI)
    } else if i == 6 {
        (x86::ESP, x64::RSP)
    } else if i == 7 {
        (x86::EBP, x64::RBP)
    } else if i == 8 {
        (x86::EIP, x64::RIP)
    } else if i == 9 {
        (x86::ORIG_EAX, x64::ORIG_RAX)
    } else if i == 10 {
        (x86::EFLAGS, x64::EFLAGS)
    } else if i == 11 {
        (x86::XCS, x64::CS)
    } else if i == 12 {
        (x86::XDS, x64::DS)
    } else if i == 13 {
        (x86::XES, x64::ES)
    } else if i == 14 {
        (x86::XFS, x64::FS)
    } else if i == 15 {
        (x86::XGS, x64::GS)
    } else {
        (x86::XSS, x64::SS)
    }
}

/// The value of the 4-byte field at `off`.
pub open spec fn field32(b: Seq<u8>, off: int) -> nat {
    le_value(b.subrange(off, off + 4))
}

/// The value of the 8-byte field at `off`.
pub open spec fn field64(b: Seq<u8>, off: int) -> nat {
    le_value(b.subrange(off, off + 8))
}

/// What converted field `i` holding `v` widens to: the accumulator is
/// sign-extended, since kernels restart syscalls wrongly when its upper half
/// is clear; every other field is zero-extended, since a sign-extended stack
/// pointer fails the kernel's checks while it sets up a signal frame.
pub open spec fn widened_value(i: int, v: nat) -> u64 {
    if i == 0 {
        sign_extend_32(v)
    } else {
        v as u64
    }
}

/// The 64-bit layout `base` with the first `n` converted fields widened from
/// the 32-bit layout `narrow`.
pub open spec fn widen_fields(base: Seq<u8>, narrow: Seq<u8>, n: nat) -> Seq<u8>
    decreases n,
{
    if n == 0 {
        base
    } else {
        let i = n - 1;
        splice(
            widen_fields(base, narrow, (n - 1) as nat),
            converted_field(i).1 as int,
            le_encode(widened_value(i, field32(narrow, converted_field(i).0 as int)) as nat, 8),
        )
    }
}

/// The 32-bit layout `base` with the first `n` converted fields truncated to
/// their low 32 bits from the 64-bit layout `wide`.
pub open spec fn narrow_fields(base: Seq<u8>, wide: Seq<u8>, n: nat) -> Seq<u8>
    decreases n,
{
    if n == 0 {
        base
    } else {
        let i = n - 1;
        splice(
            narrow_fields(base, wide, (n - 1) as nat),
            converted_field(i).0 as int,
            le_encode(field64(wide, converted_field(i).1 as int) % 0x1_0000_0000, 4),
        )
    }
}

/// `base` with every converted field widened from `narrow`.
pub open spec fn widen_bytes(base: Seq<u8>, narrow: Seq<u8>) -> Seq<u8> {
    widen_fields(base, narrow, NUM_CONVERTED_FIELDS as nat)
}

/// `base` with every converted field truncated from `wide`.
pub open spec fn narrow_bytes(base: Seq<u8>, wide: Seq<u8>) -> Seq<u8> {
    narrow_fields(base, wide, NUM_CONVERTED_FIELDS as nat)
}

fn converted_field_at(i: usize) -> (r: (usize, usize))
    requires
        i < NUM_CONVERTED_FIELDS,
    ensures
        r == converted_field(i as int),
{
    match i {
        0 => (x86::EAX, x64::RAX),
        1 => (x86::EBX, x64::RBX),
        2 => (x86::ECX, x64::RCX),
        3 => (x86::EDX, x64::RDX),
        4 => (x86::ESI, x64::RSI),
        5 => (x86::EDI, x64::RDI),
        6 => (x86::ESP, x64::RSP),
        7 => (x86::EBP, x64::RBP),
        8 => (x86::EIP, x64::RIP),
        9 => (x86::ORIG_EAX, x64::ORIG_RAX),
        10 => (x86::EFLAGS, x64::EFLAGS),
        11 => (x86::XCS, x64::CS),
        12 => (x86::XDS, x64::DS),
        13 => (x86::XES, x64::ES),
        14 => (x86::XFS, x64::FS),
        15 => (x86::XGS, x64::GS),
        _ => (x86::XSS, x64::SS),
    }
}

/// Truncates a 64-bit field to its low 32 bits.
fn to_x86_narrow(r32: &mut u32, r64: u64)
    ensures
        *final(r32) as nat == r64 as nat % 0x1_0000_0000,
{
    *r32 = (r64 % 0x1_0000_0000) as u32;
}

/// Zero-extends a 32-bit field.
fn from_x86_narrow(r64: &mut u64, r32: u32)
    ensures
        *final(r64) == r32 as u64,
{
    *r64 = r32 as u64;
}

/// Sign-extends a 32-bit field.
fn from_x86_narrow_signed(r64: &mut u64, r32: u32)
    ensures
        *final(r64) == sign_extend_32(r32 as nat),
{
    if r32 < 0x8000_0000 {
        *r64 = r32 as u64;
    } else {
        *r64 = r32 as u64 + 0xffff_ffff_0000_0000;
    }
}

/// Widens every converted field of the 32-bit layout `x86` into the 64-bit
/// layout `x64`; the rest of `x64` is left alone.
pub(crate) fn convert_x86_widen(x64: &mut RegistersNativeUnion, x86: &RegistersUnion)
    ensures
        final(x64)@ == widen_bytes(old(x64)@, x86@),
{
    let mut i: usize = 0;
    while i < NUM_CONVERTED_FIELDS
        invariant
            i <= NUM_CONVERTED_FIELDS,
            x64@ == widen_fields(old(x64)@, x86@, i as nat),
        decreases NUM_CONVERTED_FIELDS - i,
    {
        let (o32, o64) = converted_field_at(i);
        let v = x86.load(o32, 4);
        proof {
            x86.lemma_len();
            lemma_le_value_bound(x86@.subrange(o32 as int, o32 + 4));
            lemma_pow256_values();
            assert(v < 0x1_0000_0000);
        }
        let mut w: u64 = 0;
        if i == 0 {
            from_x86_narrow_signed(&mut w, v as u32);
        } else {
            from_x86_narrow(&mut w, v as u32);
        }
        x64.store(o64, 8, w);
        i = i + 1;
    }
}

/// Truncates every converted field of the 64-bit layout `x64` into the
/// 32-bit layout `x86`; the rest of `x86` is left alone.
pub(crate) fn convert_x86_narrow(x86: &mut RegistersUnion, x64: &RegistersNativeUnion)
    ensures
        final(x86)@ == narrow_bytes(old(x86)@, x64@),
{
    let mut i: usize = 0;
    while i < NUM_CONVERTED_FIELDS
        invariant
            i <= NUM_CONVERTED_FIELDS,
            x86@ == narrow_fields(old(x86)@, x64@, i as nat),
        decreases NUM_CONVERTED_FIELDS - i,
    {
        let (o32, o64) = converted_field_at(i);
        let v = x64.load(o64, 8);
        let mut w: u32 = 0;
        to_x86_narrow(&mut w, v);
        x86.store(o32, 4, w as u64);
        i = i + 1;
    }
}

/// The converted fields lie inside their layouts and do not overlap.
pub proof fn lemma_converted_fields_disjoint(i: int, k: int)
    requires
        0 <= i < NUM_CONVERTED_FIELDS,
        0 <= k < NUM_CONVERTED_FIELDS,
    ensures
        converted_field(i).0 + 4 <= x86::USER_REGS_SIZE,
        converted_field(i).1 + 8 <= x64::USER_REGS_SIZE,
        i != k ==> converted_field(i).0 + 4 <= converted_field(k).0 || converted_field(k).0 + 4
            <= converted_field(i).0,
        i != k ==> converted_field(i).1 + 8 <= converted_field(k).1 || converted_field(k).1 + 8
            <= converted_field(i).1,
{
}

proof fn lemma_splice_lengths(b: Seq<u8>, off: int, s: Seq<u8>)
    requires
        0 <= off,
        off + s.len() <= b.len(),
    ensures
        splice(b, off, s).len() == b.len(),
        splice(b, off, s).subrange(off, off + s.len()) == s,
{
    assert(splice(b, off, s).subrange(off, off + s.len()) =~= s);
}

/// Writing over one range of bytes leaves a range apart from it as it was.
proof fn lemma_splice_elsewhere(b: Seq<u8>, off: int, s: Seq<u8>, lo: int, hi: int)
    requires
        0 <= off,
        off + s.len() <= b.len(),
        0 <= lo <= hi <= b.len(),
        hi <= off || off + s.len() <= lo,
    ensures
        splice(b, off, s).subrange(lo, hi) == b.subrange(lo, hi),
{
    assert(splice(b, off, s).subrange(lo, hi) =~= b.subrange(lo, hi));
}

/// After the first `n` fields are widened, each of them holds its widened
/// value.
pub proof fn lemma_widen_fields(base: Seq<u8>, narrow: Seq<u8>, n: nat, i: int)
    requires
        base.len() == x64::USER_REGS_SIZE,
        narrow.len() >= x86::USER_REGS_SIZE,
        n <= NUM_CONVERTED_FIELDS,
        0 <= i < n,
    ensures
        widen_fields(base, narrow, n).len() == base.len(),
        field64(widen_fields(base, narrow, n), converted_field(i).1 as int) == widened_value(
            i,
            field32(narrow, converted_field(i).0 as int),
        ),
    decreases n,
{
    let k = n - 1;
    let prev = widen_fields(base, narrow, k as nat);
    let w = widened_value(k, field32(narrow, converted_field(k).0 as int));
    let enc = le_encode(w as nat, 8);
    lemma_le_encode_len(w as nat, 8);
    lemma_converted_fields_disjoint(i, k);
    lemma_converted_fields_disjoint(k, k);
    if k > 0 {
        lemma_widen_fields(base, narrow, k as nat, 0);
    }
    assert(prev.len() == base.len());
    lemma_splice_lengths(prev, converted_field(k).1 as int, enc);
    if i == k {
        lemma_le_round_trip(w as nat, 8);
        lemma_pow256_values();
    } else {
        lemma_widen_fields(base, narrow, k as nat, i);
        let o = converted_field(i).1 as int;
        lemma_splice_elsewhere(prev, converted_field(k).1 as int, enc, o, o + 8);
    }
}

/// After the first `n` fields are truncated, each of them holds the low 32
/// bits of its 64-bit counterpart.
pub proof fn lemma_narrow_fields(base: Seq<u8>, wide: Seq<u8>, n: nat, i: int)
    requires
        base.len() == STORAGE_SIZE,
        wide.len() >= x64::USER_REGS_SIZE,
        n <= NUM_CONVERTED_FIELDS,
        0 <= i < n,
    ensures
        narrow_fields(base, wide, n).len() == base.len(),
        field32(narrow_fields(base, wide, n), converted_field(i).0 as int) == field64(
            wide,
            converted_field(i).1 as int,
        ) % 0x1_0000_0000,
    decreases n,
{
    let k = n - 1;
    let prev = narrow_fields(base, wide, k as nat);
    let w = field64(wide, converted_field(k).1 as int) % 0x1_0000_0000;
    let enc = le_encode(w, 4);
    lemma_le_encode_len(w, 4);
    lemma_converted_fields_disjoint(i, k);
    lemma_converted_fields_disjoint(k, k);
    if k > 0 {
        lemma_narrow_fields(base, wide, k as nat, 0);
    }
    assert(prev.len() == base.len());
    lemma_splice_lengths(prev, converted_field(k).0 as int, enc);
    if i == k {
        lemma_le_round_trip(w, 4);
        lemma_pow256_values();
    } else {
        lemma_narrow_fields(base, wide, k as nat, i);
        let o = converted_field(i).0 as int;
        lemma_splice_elsewhere(prev, converted_field(k).0 as int, enc, o, o + 4);
    }
}

/// Widening a 32-bit register layout and truncating the result back gives
/// every converted field back exactly: the accumulator's sign extension only
/// fills the upper half, which truncation drops again.
pub proof fn lemma_narrow_widen_round_trip(
    narrow: Seq<u8>,
    wide_base: Seq<u8>,
    narrow_base: Seq<u8>,
)
    requires
        narrow.len() == STORAGE_SIZE,
        wide_base.len() == x64::USER_REGS_SIZE,
        narrow_base.len() == STORAGE_SIZE,
    ensures
        forall|i: int|
            0 <= i < NUM_CONVERTED_FIELDS ==> #[trigger] field32(
                narrow_bytes(narrow_base, widen_bytes(wide_base, narrow)),
                converted_field(i).0 as int,
            ) == field32(narrow, converted_field(i).0 as int),
{
    let wide = widen_bytes(wide_base, narrow);
    assert forall|i: int| 0 <= i < NUM_CONVERTED_FIELDS implies #[trigger] field32(
        narrow_bytes(narrow_base, wide),
        converted_field(i).0 as int,
    ) == field32(narrow, converted_field(i).0 as int) by {
        lemma_widen_fields(wide_base, narrow, NUM_CONVERTED_FIELDS as nat, i);
        lemma_narrow_fields(narrow_base, wide, NUM_CONVERTED_FIELDS as nat, i);
        lemma_converted_fields_disjoint(i, i);
        let o = converted_field(i).0 as int;
        lemma_le_value_bound(narrow.subrange(o, o + 4));
        lemma_pow256_values();
    }
}

} // verus!
