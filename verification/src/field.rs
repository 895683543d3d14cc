//! Field elements of the proving circuit's scalar field.
//!
//! A `FieldEl` holds the canonical 32-byte big-endian encoding of an element,
//! so its numeric value is always below the field order and two elements are
//! equal exactly when their bytes are. Arithmetic on elements is not needed
//! here: the transaction core only constructs elements from machine integers,
//! tests them for zero, and moves their bytes through the pubdata layout.

use vstd::prelude::*;
use vstd::arithmetic::div_mod::lemma_fundamental_div_mod_converse;
use crate::bytes::{
    be_val, be_bytes, read_be, push_be, lemma_be_val_bound, lemma_be_val_concat,
    lemma_be_val_push, lemma_be_val_zero, lemma_be_val_nonzero, lemma_be_val_of_be_bytes,
    lemma_be_bytes_len, lemma_pow256_values,
};

verus! {

/// Order of the scalar field of the proving circuit's curve.
pub open spec fn fr_order() -> nat {
    ((0x30644e72e131a029 * 0x10000000000000000 + 0xb85045b68181585d) * 0x10000000000000000
        + 0x2833e84879b97091) * 0x10000000000000000 + 0x43e1f593f0000001
}

/// A field element, held as its canonical 32-byte big-endian encoding.
#[derive(Debug)]
pub struct FieldEl {
    pub bytes: Vec<u8>,
}

impl View for FieldEl {
    type V = nat;

    open spec fn view(&self) -> nat {
        be_val(self.bytes@)
    }
}

impl Clone for FieldEl {
    fn clone(&self) -> (r: Self)
        ensures
            r.bytes@ == self.bytes@,
    {
        let bytes = self.bytes.clone();
        proof {
            assert(bytes@ =~= self.bytes@);
        }
        FieldEl { bytes }
    }
}

impl PartialEq for FieldEl {
    fn eq(&self, other: &Self) -> (r: bool) {
        let mut i: usize = 0;
        let n = self.bytes.len();
        if n != other.bytes.len() {
            return false;
        }
        while i < n
            invariant
                i <= n,
                n == self.bytes@.len(),
                n == other.bytes@.len(),
                forall|j: int| 0 <= j < i ==> self.bytes@[j] == other.bytes@[j],
            decreases n - i,
        {
            if self.bytes[i] != other.bytes[i] {
                return false;
            }
            i = i + 1;
        }
        proof {
            assert(self.bytes@ =~= other.bytes@);
        }
        true
    }
}

impl vstd::std_specs::cmp::PartialEqSpecImpl for FieldEl {
    open spec fn obeys_eq_spec() -> bool {
        true
    }

    open spec fn eq_spec(&self, other: &Self) -> bool {
        self.bytes@ == other.bytes@
    }
}

impl Eq for FieldEl {

}

impl FieldEl {
    /// A well-formed element is canonical: 32 bytes, value below the order.
    pub open spec fn wf(self) -> bool {
        self.bytes@.len() == 32 && be_val(self.bytes@) < fr_order()
    }

    pub fn from_u64(x: u64) -> (r: FieldEl)
        ensures
            r.wf(),
            r@ == x as nat,
    {
        let mut bytes: Vec<u8> = Vec::new();
        let mut i: usize = 0;
        while i < 24
            invariant
                i <= 24,
                bytes@.len() == i,
                forall|j: int| 0 <= j < i ==> bytes@[j] == 0u8,
            decreases 24 - i,
        {
            bytes.push(0u8);
            i = i + 1;
        }
        proof {
            lemma_pow256_values();
        }
        let ghost zeros = bytes@;
        push_be(&mut bytes, x, 8);
        proof {
            lemma_be_val_concat(zeros, be_bytes(x as nat, 8));
            lemma_be_val_zero(zeros);
            lemma_be_val_of_be_bytes(x as nat, 8);
            lemma_be_bytes_len(x as nat, 8);
        }
        FieldEl { bytes }
    }

    pub fn from_u32(x: u32) -> (r: FieldEl)
        ensures
            r.wf(),
            r@ == x as nat,
    {
        Self::from_u64(x as u64)
    }

    pub fn zero() -> (r: FieldEl)
        ensures
            r.wf(),
            r@ == 0,
    {
        Self::from_u64(0)
    }

    pub fn one() -> (r: FieldEl)
        ensures
            r.wf(),
            r@ == 1,
    {
        Self::from_u64(1)
    }

    pub fn is_zero_el(&self) -> (r: bool)
        ensures
            r == (self@ == 0),
    {
        let mut i: usize = 0;
        let n = self.bytes.len();
        while i < n
            invariant
                i <= n,
                n == self.bytes@.len(),
                forall|j: int| 0 <= j < i ==> self.bytes@[j] == 0u8,
            decreases n - i,
        {
            if self.bytes[i] != 0 {
                proof {
                    lemma_be_val_nonzero(self.bytes@, i as int);
                }
                return false;
            }
            i = i + 1;
        }
        proof {
            lemma_be_val_zero(self.bytes@);
        }
        true
    }

    /// The lowest byte of a well-formed element, its value modulo 256.
    pub fn low_byte(&self) -> (r: u8)
        requires
            self.wf(),
        ensures
            r as nat == self@ % 256,
    {
        let r = self.bytes[31];
        proof {
            let s = self.bytes@;
            assert(s =~= s.drop_last().push(s.last()));
            lemma_be_val_push(s.drop_last(), s.last());
            lemma_fundamental_div_mod_converse(
                be_val(s) as int,
                256,
                be_val(s.drop_last()) as int,
                s.last() as int,
            );
        }
        r
    }

    /// Whether the 32-byte big-endian window at `off` is below the field
    /// order, decided limb by limb from the most significant end.
    pub fn lt_order(data: &Vec<u8>, off: usize) -> (r: bool)
        requires
            off + 32 <= data@.len(),
        ensures
            r == (be_val(data@.subrange(off as int, off as int + 32)) < fr_order()),
    {
        let dlen = data.len();
        let l0 = read_be(data, off, 8);
        let l1 = read_be(data, off + 8, 8);
        let l2 = read_be(data, off + 16, 8);
        let l3 = read_be(data, off + 24, 8);
        proof {
            let s = data@.subrange(off as int, off as int + 32);
            let s0 = data@.subrange(off as int, off as int + 8);
            let s1 = data@.subrange(off as int + 8, off as int + 16);
            let s2 = data@.subrange(off as int + 16, off as int + 24);
            let s3 = data@.subrange(off as int + 24, off as int + 32);
            assert(s =~= s0 + s1 + s2 + s3);
            lemma_be_val_concat(s0, s1);
            lemma_be_val_concat(s0 + s1, s2);
            lemma_be_val_concat(s0 + s1 + s2, s3);
            lemma_be_val_bound(s1);
            lemma_be_val_bound(s2);
            lemma_be_val_bound(s3);
            lemma_pow256_values();
            assert(be_val(s) == ((l0 as nat * 0x10000000000000000 + l1 as nat)
                * 0x10000000000000000 + l2 as nat) * 0x10000000000000000 + l3 as nat);
        }
        if l0 != 0x30644e72e131a029 {
            l0 < 0x30644e72e131a029
        } else if l1 != 0xb85045b68181585d {
            l1 < 0xb85045b68181585d
        } else if l2 != 0x2833e84879b97091 {
            l2 < 0x2833e84879b97091
        } else {
            l3 < 0x43e1f593f0000001
        }
    }

    /// Reads the field element held in the 32-byte big-endian window at
    /// `off`, or nothing when the window's value is not in the field.
    pub fn from_be_window(data: &Vec<u8>, off: usize) -> (r: Option<FieldEl>)
        requires
            off + 32 <= data@.len(),
        ensures
            match r {
                Some(f) => f.wf() && f.bytes@ == data@.subrange(off as int, off as int + 32),
                None => be_val(data@.subrange(off as int, off as int + 32)) >= fr_order(),
            },
    {
        if !Self::lt_order(data, off) {
            return None;
        }
        let dlen = data.len();
        let mut bytes: Vec<u8> = Vec::new();
        let mut i: usize = 0;
        while i < 32
            invariant
                i <= 32,
                off + 32 <= data@.len(),
                data@.len() == dlen,
                bytes@ == data@.subrange(off as int, off as int + i as int),
            decreases 32 - i,
        {
            proof {
                assert(data@.subrange(off as int, off as int + i as int + 1) =~= data@.subrange(
                    off as int,
                    off as int + i as int,
                ).push(data@[off as int + i as int]));
            }
            bytes.push(data[off + i]);
            i = i + 1;
        }
        Some(FieldEl { bytes })
    }
}

} // verus!
