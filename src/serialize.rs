//! Textual renderings of a register file: the positional form that a trace
//! stores, its annotated variant, and a verbose dump for diagnostics.

use crate::catalog::{register_count, register_info, register_info_for, num_registers_for,
    lemma_catalogue_in_layout, lemma_catalogue_well_formed, RegisterValue};
use crate::accessors::arg_offsets;
use crate::kernel_abi::x64;
use crate::kernel_abi::x86;
use crate::kernel_abi::SupportedArch;
use crate::registers::{Registers, RegistersView};
use crate::le_bytes::{lemma_le_value_bound, lemma_pow256_values};
use vstd::prelude::*;
use vstd::string::{StrSliceExecFns, StringSliceAdditionalSpecFns};

verus! {

/// Whether the trace form names each register.
#[derive(Copy, Clone, Debug, PartialEq, Eq, Structural)]
pub enum TraceStyle {
    /// `name:value` for each register.
    Annotated,
    /// The values alone; their position tells which register each is.
    Raw,
}

/// The lower-case hexadecimal digit for `d`.
pub open spec fn hex_digit(d: nat) -> u8 {
    if d < 10 {
        (48 + d) as u8
    } else {
        (87 + d) as u8
    }
}

/// `v` in lower-case hexadecimal, without leading zeros.
pub open spec fn hex_text(v: nat) -> Seq<u8>
    decreases v,
{
    if v < 16 {
        seq![hex_digit(v)]
    } else {
        hex_text(v / 16).push(hex_digit(v % 16))
    }
}

/// `v` in decimal, without leading zeros.
pub open spec fn dec_text(v: nat) -> Seq<u8>
    decreases v,
{
    if v < 10 {
        seq![(48 + v) as u8]
    } else {
        dec_text(v / 10).push((48 + v % 10) as u8)
    }
}

/// `v` in decimal, with a minus sign when it is negative.
pub open spec fn signed_dec_text(v: int) -> Seq<u8> {
    if v < 0 {
        seq![45u8] + dec_text((-v) as nat)
    } else {
        dec_text(v as nat)
    }
}

/// `v` in lower-case hexadecimal after `0x`.
pub open spec fn prefixed_hex_text(v: nat) -> Seq<u8> {
    seq![48u8, 120u8] + hex_text(v)
}

/// The one-line summary of a file: its six syscall arguments in hexadecimal
/// and its syscall-number pseudo-register in decimal.
pub open spec fn summary_text(args: Seq<usize>, orig_syscall: isize) -> Seq<u8> {
    "{ args:(".spec_bytes() + prefixed_hex_text(args[0] as nat) + seq![44u8] + prefixed_hex_text(
        args[1] as nat,
    ) + seq![44u8] + prefixed_hex_text(args[2] as nat) + seq![44u8] + prefixed_hex_text(
        args[3] as nat,
    ) + seq![44u8] + prefixed_hex_text(args[4] as nat) + seq![44u8] + prefixed_hex_text(
        args[5] as nat,
    ) + ") orig_syscall:".spec_bytes() + signed_dec_text(orig_syscall as int) + " }".spec_bytes()
}

/// A 32-bit value read as a signed one.
pub open spec fn signed32(u: nat) -> int {
    if u < 0x8000_0000 {
        u as int
    } else {
        u - 0x1_0000_0000
    }
}

/// The 32-bit fields that the old raw trace form holds, in its order.
pub open spec fn raw_trace_offsets() -> Seq<usize> {
    seq![
        x86::EAX,
        x86::EBX,
        x86::ECX,
        x86::EDX,
        x86::ESI,
        x86::EDI,
        x86::EBP,
        x86::ORIG_EAX,
        x86::ESP,
        x86::EIP,
        x86::EFLAGS,
    ]
}

/// The raw trace form of the first `n` of those fields of `v`: each as a
/// space and its signed decimal value.
pub open spec fn raw_trace_text(v: RegistersView, n: nat) -> Seq<u8>
    decreases n,
{
    if n == 0 {
        seq![]
    } else {
        raw_trace_text(v, (n - 1) as nat) + seq![32u8] + signed_dec_text(
            signed32(v.field(raw_trace_offsets()[n - 1] as int, 4)),
        )
    }
}

/// The registers with a value on `arch` among the first `n`, in
/// register-number order.
pub open spec fn defined_registers(arch: SupportedArch, n: nat) -> Seq<RegisterValue>
    decreases n,
{
    if n == 0 {
        seq![]
    } else {
        let prev = defined_registers(arch, (n - 1) as nat);
        let rv = register_info(arch, (n - 1) as u32);
        if rv.nbytes > 0 {
            prev.push(rv)
        } else {
            prev
        }
    }
}

/// The fields that the renderings of `v` hold among the first `n` register
/// numbers: each register with a value, in catalogue order, with its value.
pub open spec fn fields_upto(v: RegistersView, n: nat) -> Seq<(RegisterValue, nat)> {
    defined_registers(v.arch, n).map_values(|rv: RegisterValue| (rv, v.register_value(rv)))
}

/// The fields that the renderings of `v` hold.
pub open spec fn trace_fields(v: RegistersView) -> Seq<(RegisterValue, nat)> {
    fields_upto(v, register_count(v.arch) as nat)
}

/// One field as text: `name:` and the value, or a space and the value where
/// no name is to be shown.
pub open spec fn field_text(name: Seq<u8>, value: nat) -> Seq<u8> {
    if name.len() > 0 {
        name + seq![58u8] + hex_text(value)
    } else {
        seq![32u8] + hex_text(value)
    }
}

/// The name that `style` shows for `rv`.
pub open spec fn shown_name(style: TraceStyle, rv: RegisterValue) -> Seq<u8> {
    match style {
        TraceStyle::Annotated => rv.name.spec_bytes(),
        TraceStyle::Raw => Seq::empty(),
    }
}

/// The trace form of `fields`: their texts, separated by spaces.
pub open spec fn join_fields(style: TraceStyle, fields: Seq<(RegisterValue, nat)>) -> Seq<u8>
    decreases fields.len(),
{
    if fields.len() == 0 {
        seq![]
    } else {
        let prev = fields.drop_last();
        let sep = if prev.len() == 0 {
            Seq::empty()
        } else {
            seq![32u8]
        };
        join_fields(style, prev) + sep + field_text(
            shown_name(style, fields.last().0),
            fields.last().1,
        )
    }
}

/// The verbose lines of `fields`: one `name:value` line each.
pub open spec fn verbose_lines(fields: Seq<(RegisterValue, nat)>) -> Seq<u8>
    decreases fields.len(),
{
    if fields.len() == 0 {
        seq![]
    } else {
        verbose_lines(fields.drop_last()) + field_text(
            fields.last().0.name.spec_bytes(),
            fields.last().1,
        ) + seq![10u8]
    }
}

/// The first line of the verbose dump.
pub open spec fn verbose_header() -> Seq<u8> {
    "Printing register file:\n".spec_bytes()
}

/// Two register files of one architecture are rendered with the same fields
/// in the same order, whatever their values.
pub proof fn lemma_trace_fields_follow_arch(v1: RegistersView, v2: RegistersView)
    requires
        v1.arch == v2.arch,
    ensures
        trace_fields(v1).len() == trace_fields(v2).len(),
        forall|i: int|
            0 <= i < trace_fields(v1).len() ==> #[trigger] trace_fields(v1)[i].0 == trace_fields(
                v2,
            )[i].0,
{
}

/// Appends `v` in lower-case hexadecimal.
fn append_hex(f: &mut Vec<u8>, v: u64)
    ensures
        final(f)@ == old(f)@ + hex_text(v as nat),
    decreases v,
{
    if v >= 16 {
        append_hex(f, v / 16);
    }
    let d = v % 16;
    let c: u8 = if d < 10 {
        48 + d as u8
    } else {
        87 + d as u8
    };
    f.push(c);
    proof {
        if v < 16 {
            assert(v % 16 == v);
        }
        assert(f@ =~= old(f)@ + hex_text(v as nat));
    }
}

/// Appends `v` in decimal.
fn append_dec(f: &mut Vec<u8>, v: u64)
    ensures
        final(f)@ == old(f)@ + dec_text(v as nat),
    decreases v,
{
    if v >= 10 {
        append_dec(f, v / 10);
    }
    f.push(48 + (v % 10) as u8);
    proof {
        if v < 10 {
            assert(v % 10 == v);
        }
        assert(f@ =~= old(f)@ + dec_text(v as nat));
    }
}

/// Appends `v` in decimal, with a minus sign when it is negative.
fn append_signed_dec(f: &mut Vec<u8>, v: i64)
    ensures
        final(f)@ == old(f)@ + signed_dec_text(v as int),
{
    if v < 0 {
        f.push(45u8);
        let magnitude: u64 = (-(v + 1)) as u64 + 1;
        append_dec(f, magnitude);
        assert(f@ =~= old(f)@ + signed_dec_text(v as int));
    } else {
        append_dec(f, v as u64);
    }
}

/// Appends `v` in lower-case hexadecimal after `0x`.
fn append_prefixed_hex(f: &mut Vec<u8>, v: usize)
    ensures
        final(f)@ == old(f)@ + prefixed_hex_text(v as nat),
{
    f.push(48u8);
    f.push(120u8);
    append_hex(f, v as u64);
    assert(f@ =~= old(f)@ + prefixed_hex_text(v as nat));
}

/// Appends the bytes of `s`.
fn append_str(f: &mut Vec<u8>, s: &str)
    ensures
        final(f)@ == old(f)@ + s.spec_bytes(),
{
    let mut b = s.as_bytes_vec();
    f.append(&mut b);
}

impl Registers {
    /// Appends one field: `name:value`, or a space and the value where the
    /// name is empty.
    fn write_single_register(f: &mut Vec<u8>, name: &str, value: u64)
        ensures
            final(f)@ == old(f)@ + field_text(name.spec_bytes(), value as nat),
    {
        let name_bytes = name.as_bytes_vec();
        if name_bytes.len() > 0 {
            append_str(f, name);
            f.push(58u8);
        } else {
            f.push(32u8);
        }
        append_hex(f, value);
        assert(f@ =~= old(f)@ + field_text(name.spec_bytes(), value as nat));
    }

    /// Appends the trace form of this file in `style`: one field for each
    /// register with a value, in catalogue order, separated by spaces.
    pub fn write_register_file_for_trace(&self, f: &mut Vec<u8>, style: TraceStyle)
        ensures
            final(f)@ == old(f)@ + join_fields(style, trace_fields(self@)),
    {
        let arch = self.arch();
        let n = num_registers_for(arch);
        let mut first = true;
        let mut i: u32 = 0;
        while i < n
            invariant
                i <= n,
                n == register_count(arch),
                arch == self@.arch,
                f@ == old(f)@ + join_fields(style, fields_upto(self@, i as nat)),
                first == (fields_upto(self@, i as nat).len() == 0),
            decreases n - i,
        {
            let rv = register_info_for(arch, i);
            proof {
                lemma_catalogue_well_formed(arch, i);
                lemma_catalogue_in_layout(arch, i);
            }
            let ghost prev = fields_upto(self@, i as nat);
            if rv.nbytes > 0 {
                if !first {
                    f.push(32u8);
                }
                first = false;
                let value = self.register_value_of(rv);
                match style {
                    TraceStyle::Annotated => Registers::write_single_register(f, rv.name, value),
                    TraceStyle::Raw => {
                        f.push(32u8);
                        append_hex(f, value);
                    },
                }
                proof {
                    let next = fields_upto(self@, (i + 1) as nat);
                    assert(next =~= prev.push((rv, self@.register_value(rv))));
                    assert(next.drop_last() =~= prev);
                }
            } else {
                proof {
                    assert(fields_upto(self@, (i + 1) as nat) =~= prev);
                }
            }
            i = i + 1;
        }
    }

    /// Appends the verbose dump of this file: a header line, one
    /// `name:value` line for each register with a value, and an empty line.
    pub fn write_register_file(&self, f: &mut Vec<u8>)
        ensures
            final(f)@ == old(f)@ + verbose_header() + verbose_lines(trace_fields(self@)) + seq![
                10u8,
            ],
    {
        append_str(f, "Printing register file:\n");
        let ghost start = f@;
        let arch = self.arch();
        let n = num_registers_for(arch);
        let mut i: u32 = 0;
        while i < n
            invariant
                i <= n,
                n == register_count(arch),
                arch == self@.arch,
                f@ == start + verbose_lines(fields_upto(self@, i as nat)),
            decreases n - i,
        {
            let rv = register_info_for(arch, i);
            proof {
                lemma_catalogue_well_formed(arch, i);
                lemma_catalogue_in_layout(arch, i);
            }
            let ghost prev = fields_upto(self@, i as nat);
            if rv.nbytes > 0 {
                let value = self.register_value_of(rv);
                Registers::write_single_register(f, rv.name, value);
                f.push(10u8);
                proof {
                    let next = fields_upto(self@, (i + 1) as nat);
                    assert(next =~= prev.push((rv, self@.register_value(rv))));
                    assert(next.drop_last() =~= prev);
                }
            } else {
                proof {
                    assert(fields_upto(self@, (i + 1) as nat) =~= prev);
                }
            }
            i = i + 1;
        }
        f.push(10u8);
    }

    /// Appends the one-line summary of this file: its six syscall arguments
    /// in hexadecimal and its syscall-number pseudo-register in decimal.
    pub fn fmt(&self, f: &mut Vec<u8>)
        ensures
            final(f)@ == old(f)@ + summary_text(
                seq![
                    self@.reg(arg_offsets(1).0, arg_offsets(1).1) as usize,
                    self@.reg(arg_offsets(2).0, arg_offsets(2).1) as usize,
                    self@.reg(arg_offsets(3).0, arg_offsets(3).1) as usize,
                    self@.reg(arg_offsets(4).0, arg_offsets(4).1) as usize,
                    self@.reg(arg_offsets(5).0, arg_offsets(5).1) as usize,
                    self@.reg(arg_offsets(6).0, arg_offsets(6).1) as usize,
                ],
                self@.reg(x86::ORIG_EAX as int, x64::ORIG_RAX as int) as isize,
            ),
    {
        let ghost start = f@;
        append_str(f, "{ args:(");
        append_prefixed_hex(f, self.arg1());
        f.push(44u8);
        append_prefixed_hex(f, self.arg2());
        f.push(44u8);
        append_prefixed_hex(f, self.arg3());
        f.push(44u8);
        append_prefixed_hex(f, self.arg4());
        f.push(44u8);
        append_prefixed_hex(f, self.arg5());
        f.push(44u8);
        append_prefixed_hex(f, self.arg6());
        append_str(f, ") orig_syscall:");
        append_signed_dec(f, self.original_syscallno() as i64);
        append_str(f, " }");
        assert(f@ =~= start + summary_text(
            seq![
                self@.reg(arg_offsets(1).0, arg_offsets(1).1) as usize,
                self@.reg(arg_offsets(2).0, arg_offsets(2).1) as usize,
                self@.reg(arg_offsets(3).0, arg_offsets(3).1) as usize,
                self@.reg(arg_offsets(4).0, arg_offsets(4).1) as usize,
                self@.reg(arg_offsets(5).0, arg_offsets(5).1) as usize,
                self@.reg(arg_offsets(6).0, arg_offsets(6).1) as usize,
            ],
            self@.reg(x86::ORIG_EAX as int, x64::ORIG_RAX as int) as isize,
        ));
    }

    /// Appends the old raw trace form of a 32-bit file: eleven of its
    /// fields, each as a space and its signed decimal value.
    pub fn write_register_file_for_trace_raw(&self, f: &mut Vec<u8>)
        requires
            self@.arch == SupportedArch::X86,
        ensures
            final(f)@ == old(f)@ + raw_trace_text(self@, 11),
    {
        let offsets: Vec<usize> = vec![
            x86::EAX,
            x86::EBX,
            x86::ECX,
            x86::EDX,
            x86::ESI,
            x86::EDI,
            x86::EBP,
            x86::ORIG_EAX,
            x86::ESP,
            x86::EIP,
            x86::EFLAGS,
        ];
        assert(offsets@ =~= raw_trace_offsets());
        let mut i: usize = 0;
        while i < offsets.len()
            invariant
                i <= offsets@.len(),
                offsets@ == raw_trace_offsets(),
                f@ == old(f)@ + raw_trace_text(self@, i as nat),
            decreases offsets@.len() - i,
        {
            let u = self.load_field(offsets[i], 4);
            proof {
                self.lemma_wf();
                lemma_le_value_bound(
                    self@.bytes.subrange(offsets@[i as int] as int, offsets@[i as int] + 4),
                );
                lemma_pow256_values();
            }
            let value: i64 = if u < 0x8000_0000 {
                u as i64
            } else {
                u as i64 - 0x1_0000_0000
            };
            f.push(32u8);
            append_signed_dec(f, value);
            i = i + 1;
            assert(f@ =~= old(f)@ + raw_trace_text(self@, i as nat));
        }
    }

    /// Appends the positional form of this file that a trace stores: the
    /// values alone, in catalogue order.
    pub fn write_register_file_compact(&self, f: &mut Vec<u8>)
        ensures
            final(f)@ == old(f)@ + join_fields(TraceStyle::Raw, trace_fields(self@)),
    {
        self.write_register_file_for_trace(f, TraceStyle::Raw);
    }
}

} // verus!
