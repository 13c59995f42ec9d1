//! Little-endian numbers in byte sequences: what a run of bytes encodes, the
//! bytes that encode a number, and verified loads and stores on buffers.

use vstd::arithmetic::div_mod::{lemma_div_denominator, lemma_mod_breakdown};
use vstd::prelude::*;

verus! {

/// 256 to the power `n`.
pub open spec fn pow256(n: nat) -> nat
    decreases n,
{
    if n == 0 {
        1
    } else {
        256 * pow256((n - 1) as nat)
    }
}

/// The number whose little-endian encoding is `s`.
pub open spec fn le_value(s: Seq<u8>) -> nat
    decreases s.len(),
{
    if s.len() == 0 {
        0
    } else {
        s[0] as nat + 256 * le_value(s.drop_first())
    }
}

/// The `n`-byte little-endian encoding of `v`: its low `n` bytes, least
/// significant first.
pub open spec fn le_encode(v: nat, n: nat) -> Seq<u8>
    decreases n,
{
    if n == 0 {
        Seq::empty()
    } else {
        seq![(v % 256) as u8] + le_encode(v / 256, (n - 1) as nat)
    }
}

/// `b` with `s` written over it from byte `off` on.
pub open spec fn splice(b: Seq<u8>, off: int, s: Seq<u8>) -> Seq<u8> {
    b.subrange(0, off) + s + b.subrange(off + s.len(), b.len() as int)
}

/// The powers of 256 that hold a register's value.
pub proof fn lemma_pow256_values()
    ensures
        pow256(0) == 1,
        pow256(1) == 0x100,
        pow256(2) == 0x1_0000,
        pow256(3) == 0x100_0000,
        pow256(4) == 0x1_0000_0000,
        pow256(5) == 0x100_0000_0000,
        pow256(6) == 0x1_0000_0000_0000,
        pow256(7) == 0x100_0000_0000_0000,
        pow256(8) == 0x1_0000_0000_0000_0000,
{
    reveal_with_fuel(pow256, 9);
}

pub proof fn lemma_pow256_positive(n: nat)
    ensures
        pow256(n) > 0,
    decreases n,
{
    if n > 0 {
        lemma_pow256_positive((n - 1) as nat);
    }
}

/// A run of `n` bytes encodes a number below `256^n`.
pub proof fn lemma_le_value_bound(s: Seq<u8>)
    ensures
        le_value(s) < pow256(s.len()),
    decreases s.len(),
{
    if s.len() > 0 {
        let rest = s.drop_first();
        lemma_le_value_bound(rest);
        let a = le_value(rest);
        let p = pow256(rest.len());
        assert(s[0] as nat + 256 * a < 256 * p) by (nonlinear_arith)
            requires
                a < p,
                s[0] < 256,
        ;
    }
}

pub proof fn lemma_le_encode_len(v: nat, n: nat)
    ensures
        le_encode(v, n).len() == n,
    decreases n,
{
    if n > 0 {
        lemma_le_encode_len(v / 256, (n - 1) as nat);
    }
}

/// Byte `j` of the encoding of `v` is digit `j` of `v` in base 256.
pub proof fn lemma_le_encode_index(v: nat, n: nat, j: int)
    requires
        0 <= j < n,
    ensures
        le_encode(v, n).len() == n,
        le_encode(v, n)[j] == ((v / pow256(j as nat)) % 256) as u8,
    decreases n,
{
    lemma_le_encode_len(v, n);
    lemma_le_encode_len(v / 256, (n - 1) as nat);
    let s = le_encode(v, n);
    let rest = le_encode(v / 256, (n - 1) as nat);
    assert(s == seq![(v % 256) as u8] + rest);
    if j == 0 {
        assert(pow256(0) == 1);
        assert(v / 1 == v);
    } else {
        assert(s[j] == rest[j - 1]);
        lemma_le_encode_index(v / 256, (n - 1) as nat, j - 1);
        lemma_pow256_positive((j - 1) as nat);
        lemma_div_denominator(v as int, 256, pow256((j - 1) as nat) as int);
        assert(pow256(j as nat) == 256 * pow256((j - 1) as nat));
        assert(v / 256 / pow256((j - 1) as nat) == v / pow256(j as nat));
        assert(rest[j - 1] == ((v / 256 / pow256((j - 1) as nat)) % 256) as u8);
    }
}

/// Decoding the `n`-byte encoding of `v` gives back `v` modulo `256^n`.
pub proof fn lemma_le_round_trip(v: nat, n: nat)
    ensures
        le_value(le_encode(v, n)) == v % pow256(n),
    decreases n,
{
    if n == 0 {
        assert(v % 1 == 0);
    } else {
        let s = le_encode(v, n);
        lemma_le_round_trip(v / 256, (n - 1) as nat);
        assert(s.drop_first() =~= le_encode(v / 256, (n - 1) as nat));
        lemma_pow256_positive((n - 1) as nat);
        lemma_mod_breakdown(v as int, 256, pow256((n - 1) as nat) as int);
    }
}

/// Encoding the value of `s` in as many bytes gives back `s`.
pub proof fn lemma_le_encode_value(s: Seq<u8>)
    ensures
        le_encode(le_value(s), s.len()) == s,
    decreases s.len(),
{
    if s.len() > 0 {
        let rest = s.drop_first();
        lemma_le_encode_value(rest);
        let v = le_value(s);
        assert(v % 256 == s[0] as nat && v / 256 == le_value(rest)) by (nonlinear_arith)
            requires
                v == s[0] as nat + 256 * le_value(rest),
                s[0] < 256,
        ;
        assert(le_encode(v, s.len()) =~= s);
    }
}

proof fn lemma_le_value_step(b: Seq<u8>, lo: int, hi: int)
    requires
        0 <= lo < hi <= b.len(),
    ensures
        le_value(b.subrange(lo, hi)) == b[lo] as nat + 256 * le_value(b.subrange(lo + 1, hi)),
{
    assert(b.subrange(lo, hi).drop_first() =~= b.subrange(lo + 1, hi));
}

/// Reads the `n`-byte little-endian number at `off` in `b`.
pub fn load_le(b: &[u8], off: usize, n: usize) -> (v: u64)
    requires
        off + n <= b@.len(),
        off + n <= usize::MAX,
        n <= 8,
    ensures
        v as nat == le_value(b@.subrange(off as int, off + n)),
{
    proof {
        lemma_pow256_values();
    }
    let mut v: u64 = 0;
    let mut i: usize = n;
    while i > 0
        invariant
            i <= n,
            n <= 8,
            off + n <= b@.len(),
            off + n <= usize::MAX,
            v as nat == le_value(b@.subrange(off + i, off + n)),
            v < pow256((n - i) as nat),
            pow256(0) == 1,
            pow256(7) == 0x100_0000_0000_0000,
            pow256(8) == 0x1_0000_0000_0000_0000,
        decreases i,
    {
        proof {
            lemma_le_value_step(b@, off + i - 1, off + n);
            lemma_le_value_bound(b@.subrange(off + i - 1, off + n));
            lemma_pow256_values();
        }
        let byte = b[off + i - 1];
        assert(v * 256 + byte < 0x1_0000_0000_0000_0000) by (nonlinear_arith)
            requires
                v < pow256((n - i) as nat),
                (n - i) as nat <= 7,
                pow256((n - i) as nat) <= 0x100_0000_0000_0000,
                byte < 256,
        {
        }
        v = v * 256 + byte as u64;
        i = i - 1;
    }
    v
}

/// Writes the low `n` bytes of `v` at `off` in `b`, least significant first.
pub fn store_le(b: &mut [u8], off: usize, n: usize, v: u64)
    requires
        off + n <= old(b)@.len(),
        off + n <= usize::MAX,
    ensures
        final(b)@ == splice(old(b)@, off as int, le_encode(v as nat, n as nat)),
        final(b)@.len() == old(b)@.len(),
{
    let ghost enc = le_encode(v as nat, n as nat);
    proof {
        lemma_le_encode_len(v as nat, n as nat);
        assert(pow256(0) == 1);
        assert(v as nat / 1 == v as nat);
    }
    let mut w: u64 = v;
    let mut i: usize = 0;
    while i < n
        invariant
            i <= n,
            off + n <= b@.len(),
            off + n <= usize::MAX,
            b@.len() == old(b)@.len(),
            enc == le_encode(v as nat, n as nat),
            enc.len() == n,
            w as nat == v as nat / pow256(i as nat),
            forall|j: int| 0 <= j < off || off + n <= j < b@.len() ==> b@[j] == old(b)@[j],
            forall|j: int| 0 <= j < i ==> b@[off + j] == enc[j],
        decreases n - i,
    {
        proof {
            lemma_le_encode_index(v as nat, n as nat, i as int);
            lemma_pow256_positive(i as nat);
            lemma_div_denominator(v as int, pow256(i as nat) as int, 256);
            assert(pow256((i + 1) as nat) == 256 * pow256(i as nat));
            assert(pow256(i as nat) * 256 == 256 * pow256(i as nat)) by (nonlinear_arith);
        }
        b[off + i] = (w % 256) as u8;
        w = w / 256;
        i = i + 1;
    }
    assert(b@ =~= splice(old(b)@, off as int, enc));
}

} // verus!
