//! Big-endian byte strings and their numeric values.
//!
//! Every multi-byte integer in the pubdata layout is big-endian and
//! zero-padded to a fixed width. `be_val` gives the numeric value of a byte
//! string, `be_bytes` the fixed-width byte string of a value; the lemmas here
//! relate the two and let the codec reason about concatenated fields.

use vstd::prelude::*;
use vstd::arithmetic::div_mod::{
    lemma_div_denominator,
    lemma_fundamental_div_mod,
    lemma_fundamental_div_mod_converse,
};

verus! {

/// 256^n, the number of byte strings of length n.
pub open spec fn pow256(n: nat) -> nat
    decreases n,
{
    if n == 0 {
        1
    } else {
        256 * pow256((n - 1) as nat)
    }
}

/// Numeric value of a big-endian byte string.
pub open spec fn be_val(s: Seq<u8>) -> nat
    decreases s.len(),
{
    if s.len() == 0 {
        0
    } else {
        (s.first() as nat) * pow256((s.len() - 1) as nat) + be_val(s.drop_first())
    }
}

/// The big-endian byte string of length n whose value is x % 256^n.
pub open spec fn be_bytes(x: nat, n: nat) -> Seq<u8>
    decreases n,
{
    if n == 0 {
        Seq::empty()
    } else {
        be_bytes(x / 256, (n - 1) as nat).push((x % 256) as u8)
    }
}

pub proof fn lemma_pow256_pos(n: nat)
    ensures
        pow256(n) >= 1,
    decreases n,
{
    if n > 0 {
        lemma_pow256_pos((n - 1) as nat);
    }
}

pub proof fn lemma_pow256_adds(a: nat, b: nat)
    ensures
        pow256(a + b) == pow256(a) * pow256(b),
    decreases a,
{
    if a == 0 {
        assert(pow256(0 + b) == 1 * pow256(b));
    } else {
        lemma_pow256_adds((a - 1) as nat, b);
        assert((a + b - 1) as nat == (a - 1) as nat + b);
        assert(256 * (pow256((a - 1) as nat) * pow256(b)) == (256 * pow256((a - 1) as nat))
            * pow256(b)) by (nonlinear_arith);
    }
}

pub proof fn lemma_pow256_increases(a: nat, b: nat)
    requires
        a <= b,
    ensures
        pow256(a) <= pow256(b),
    decreases b,
{
    if a < b {
        lemma_pow256_increases(a, (b - 1) as nat);
        lemma_pow256_pos((b - 1) as nat);
    }
}

/// A byte string of length n has value below 256^n.
pub proof fn lemma_be_val_bound(s: Seq<u8>)
    ensures
        be_val(s) < pow256(s.len()),
    decreases s.len(),
{
    if s.len() > 0 {
        lemma_be_val_bound(s.drop_first());
        let p = pow256((s.len() - 1) as nat);
        lemma_pow256_pos((s.len() - 1) as nat);
        assert((s.first() as nat) * p <= 255 * p) by (nonlinear_arith)
            requires
                s.first() <= 255,
                p >= 0,
        ;
    }
}

/// The value of a concatenation: the left part is shifted by the width of
/// the right part.
pub proof fn lemma_be_val_concat(a: Seq<u8>, b: Seq<u8>)
    ensures
        be_val(a + b) == be_val(a) * pow256(b.len()) + be_val(b),
    decreases a.len(),
{
    if a.len() == 0 {
        assert(a + b =~= b);
        assert(be_val(a) == 0);
    } else {
        lemma_be_val_concat(a.drop_first(), b);
        assert((a + b).drop_first() =~= a.drop_first() + b);
        lemma_pow256_adds((a.len() - 1) as nat, b.len());
        let a0 = a.first() as nat;
        let p1 = pow256((a.len() - 1) as nat);
        let pb = pow256(b.len());
        let r = be_val(a.drop_first());
        assert((a + b).first() == a.first());
        assert((a + b).len() == a.len() + b.len());
        assert(((a + b).len() - 1) as nat == (a.len() - 1) as nat + b.len());
        assert(be_val(a + b) == a0 * pow256(((a + b).len() - 1) as nat) + be_val(
            (a + b).drop_first(),
        ));
        assert(pow256(((a + b).len() - 1) as nat) == p1 * pb);
        assert(be_val(a + b) == a0 * (p1 * pb) + (r * pb + be_val(b)));
        assert(a0 * (p1 * pb) + (r * pb + be_val(b)) == (a0 * p1 + r) * pb + be_val(b))
            by (nonlinear_arith);
        assert(be_val(a) == a0 * p1 + r);
    }
}

/// The value of a byte string with one byte appended.
pub proof fn lemma_be_val_push(s: Seq<u8>, x: u8)
    ensures
        be_val(s.push(x)) == be_val(s) * 256 + x,
{
    assert(s.push(x) =~= s + seq![x]);
    lemma_be_val_concat(s, seq![x]);
    assert(seq![x].drop_first() =~= Seq::<u8>::empty());
    assert(pow256(0) == 1);
    assert(be_val(Seq::<u8>::empty()) == 0);
    assert(be_val(seq![x].drop_first()) == 0);
    assert((x as nat) * pow256(0) == x) by (nonlinear_arith)
        requires
            pow256(0) == 1,
    ;
    assert(be_val(seq![x]) == (x as nat) * pow256(0) + be_val(seq![x].drop_first()));
    assert(be_val(seq![x]) == x);
}

pub proof fn lemma_be_bytes_len(x: nat, n: nat)
    ensures
        be_bytes(x, n).len() == n,
    decreases n,
{
    if n > 0 {
        lemma_be_bytes_len(x / 256, (n - 1) as nat);
    }
}

/// Encoding then reading back yields the value, for values in range.
pub proof fn lemma_be_val_of_be_bytes(x: nat, n: nat)
    requires
        x < pow256(n),
    ensures
        be_val(be_bytes(x, n)) == x,
    decreases n,
{
    if n > 0 {
        lemma_fundamental_div_mod(x as int, 256);
        assert(x / 256 < pow256((n - 1) as nat)) by (nonlinear_arith)
            requires
                x < 256 * pow256((n - 1) as nat),
                x == 256 * (x / 256) + x % 256,
                x % 256 >= 0,
        ;
        lemma_be_val_of_be_bytes(x / 256, (n - 1) as nat);
        lemma_be_val_push(be_bytes(x / 256, (n - 1) as nat), (x % 256) as u8);
    }
}

/// A byte string is the encoding of its own value at its own length.
pub proof fn lemma_be_bytes_of_be_val(s: Seq<u8>)
    ensures
        be_bytes(be_val(s), s.len()) =~= s,
    decreases s.len(),
{
    if s.len() > 0 {
        let d = s.drop_last();
        assert(s =~= d.push(s.last()));
        lemma_be_val_push(d, s.last());
        lemma_fundamental_div_mod_converse(
            be_val(s) as int,
            256,
            be_val(d) as int,
            s.last() as int,
        );
        lemma_be_bytes_of_be_val(d);
    }
}

/// A byte string of zero bytes has value zero.
pub proof fn lemma_be_val_zero(s: Seq<u8>)
    requires
        forall|i: int| 0 <= i < s.len() ==> s[i] == 0u8,
    ensures
        be_val(s) == 0,
    decreases s.len(),
{
    if s.len() > 0 {
        lemma_be_val_zero(s.drop_first());
    }
}

/// A nonzero byte makes the value nonzero.
pub proof fn lemma_be_val_nonzero(s: Seq<u8>, i: int)
    requires
        0 <= i < s.len(),
        s[i] != 0u8,
    ensures
        be_val(s) != 0,
    decreases s.len(),
{
    lemma_pow256_pos((s.len() - 1) as nat);
    if i == 0 {
        assert((s.first() as nat) * pow256((s.len() - 1) as nat) >= 1) by (nonlinear_arith)
            requires
                s.first() >= 1,
                pow256((s.len() - 1) as nat) >= 1,
        ;
    } else {
        lemma_be_val_nonzero(s.drop_first(), i - 1);
    }
}

/// The small powers of 256 that the fixed layouts use, as literals.
pub proof fn lemma_pow256_values()
    ensures
        pow256(1) == 0x100,
        pow256(2) == 0x10000,
        pow256(4) == 0x100000000,
        pow256(8) == 0x10000000000000000,
{
    assert(pow256(0) == 1);
    assert(pow256(1) == 0x100);
    assert(pow256(2) == 0x10000);
    assert(pow256(3) == 0x1000000);
    assert(pow256(4) == 0x100000000);
    assert(pow256(5) == 0x10000000000);
    assert(pow256(6) == 0x1000000000000);
    assert(pow256(7) == 0x100000000000000);
    assert(pow256(8) == 0x10000000000000000);
}

/// 256^k for k up to 8, as an executable table.
pub fn pow256_exec(k: usize) -> (r: u64)
    requires
        k <= 7,
    ensures
        r as nat == pow256(k as nat),
{
    proof {
        assert(pow256(0) == 1);
        assert(pow256(1) == 256);
        assert(pow256(2) == 0x10000);
        assert(pow256(3) == 0x1000000);
        assert(pow256(4) == 0x100000000);
        assert(pow256(5) == 0x10000000000);
        assert(pow256(6) == 0x1000000000000);
        assert(pow256(7) == 0x100000000000000);
    }
    if k == 0 {
        1
    } else if k == 1 {
        0x100
    } else if k == 2 {
        0x10000
    } else if k == 3 {
        0x1000000
    } else if k == 4 {
        0x100000000
    } else if k == 5 {
        0x10000000000
    } else if k == 6 {
        0x1000000000000
    } else {
        0x100000000000000
    }
}

/// Reads the n-byte big-endian integer at `off`.
pub fn read_be(data: &Vec<u8>, off: usize, n: usize) -> (r: u64)
    requires
        n <= 8,
        off + n <= data@.len(),
    ensures
        r as nat == be_val(data@.subrange(off as int, off as int + n as int)),
{
    let mut r: u64 = 0;
    let mut i: usize = 0;
    let dlen = data.len();
    proof {
        assert(data@.subrange(off as int, off as int) =~= Seq::<u8>::empty());
    }
    while i < n
        invariant
            i <= n,
            n <= 8,
            off + n <= data@.len(),
            data@.len() == dlen,
            r as nat == be_val(data@.subrange(off as int, off as int + i as int)),
            (r as nat) < pow256(i as nat),
        decreases n - i,
    {
        let b = data[off + i];
        proof {
            let s = data@.subrange(off as int, off as int + i as int);
            assert(data@.subrange(off as int, off as int + i as int + 1) =~= s.push(b));
            lemma_be_val_push(s, b);
            assert(pow256((i + 1) as nat) == 256 * pow256(i as nat));
            lemma_pow256_increases((i + 1) as nat, 8);
            assert(pow256(8) == 256 * pow256(7));
            assert(pow256(7) == 0x100000000000000) by {
                assert(pow256(0) == 1);
                assert(pow256(1) == 256);
                assert(pow256(2) == 0x10000);
                assert(pow256(3) == 0x1000000);
                assert(pow256(4) == 0x100000000);
                assert(pow256(5) == 0x10000000000);
                assert(pow256(6) == 0x1000000000000);
            }
        }
        r = r * 256 + (b as u64);
        i = i + 1;
    }
    r
}

/// Appends the n-byte big-endian encoding of x.
pub fn push_be(out: &mut Vec<u8>, x: u64, n: usize)
    requires
        n <= 8,
        (x as nat) < pow256(n as nat),
    ensures
        final(out)@ == old(out)@ + be_bytes(x as nat, n as nat),
{
    let mut i: usize = 0;
    proof {
        assert(old(out)@ + be_bytes((x as nat) / pow256((n - 0) as nat), 0) =~= old(out)@);
        assert((x as nat) / pow256(n as nat) == 0) by (nonlinear_arith)
            requires
                (x as nat) < pow256(n as nat),
                pow256(n as nat) >= 1,
        ;
        lemma_pow256_pos(n as nat);
    }
    while i < n
        invariant
            i <= n,
            n <= 8,
            (x as nat) < pow256(n as nat),
            out@ == old(out)@ + be_bytes((x as nat) / pow256((n - i) as nat), i as nat),
        decreases n - i,
    {
        let k = n - 1 - i;
        let p = pow256_exec(k);
        proof {
            lemma_pow256_pos(k as nat);
        }
        let b = ((x / p) % 256) as u8;
        proof {
            let y = (x as nat) / pow256((n - i - 1) as nat);
            // peel one level of the definition of be_bytes at length i + 1
            assert(be_bytes(y, (i + 1) as nat) == be_bytes(y / 256, i as nat).push(
                (y % 256) as u8,
            ));
            lemma_pow256_pos((n - i - 1) as nat);
            // y / 256 == x / 256^(n - i)
            lemma_div_denominator(x as int, pow256((n - i - 1) as nat) as int, 256);
            assert(pow256((n - i) as nat) == 256 * pow256((n - i - 1) as nat)) by {
                assert((n - i) as nat != 0);
            }
            assert(out@.push(b) =~= old(out)@ + be_bytes(y, (i + 1) as nat));
        }
        out.push(b);
        i = i + 1;
    }
    proof {
        assert(pow256(0) == 1);
        assert((x as nat) / pow256(0) == x as nat);
    }
}

} // verus!
