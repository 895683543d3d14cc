//! Fixed-point amounts.
//!
//! An amount is `significand * 10^exponent`, carried through pubdata as a
//! fixed 9-byte encoding: one exponent byte followed by the 8-byte big-endian
//! significand. The core treats the amount as a byte-stable value: it never
//! rounds or adds, it only encodes, decodes and scales for digest preimages.

use vstd::prelude::*;
use crate::bytes::{be_val, be_bytes, read_be, push_be, lemma_pow256_values, lemma_be_bytes_len};
use crate::types::DecodeError;

verus! {

/// 10^n.
pub open spec fn pow10(n: nat) -> nat
    decreases n,
{
    if n == 0 {
        1
    } else {
        10 * pow10((n - 1) as nat)
    }
}

/// A fixed-point amount with an 8-bit decimal exponent and 64-bit
/// significand.
#[derive(Debug, Clone, Copy, PartialEq, Eq, Structural)]
pub struct Amount {
    pub significand: u64,
    pub exponent: u8,
}

pub type AmountType = Amount;

impl Amount {
    /// The raw integer value, `significand * 10^exponent`.
    pub open spec fn units(self) -> nat {
        (self.significand as nat) * pow10(self.exponent as nat)
    }

    /// The fixed 9-byte encoding: exponent, then big-endian significand.
    pub open spec fn bytes_of(self) -> Seq<u8> {
        seq![self.exponent] + be_bytes(self.significand as nat, 8)
    }

    /// The digest term of this amount: the value truncated to 32 bits and
    /// then stripped of its six lowest decimal digits. The truncation is a
    /// compatibility requirement of an external signing toolchain and must be
    /// reproduced exactly.
    pub open spec fn scaled_units(self) -> nat {
        (self.units() % 0x100000000) / 1000000
    }

    pub fn encode(&self) -> (r: Vec<u8>)
        ensures
            r@ == self.bytes_of(),
            r@.len() == 9,
    {
        let mut out: Vec<u8> = Vec::new();
        out.push(self.exponent);
        proof {
            lemma_pow256_values();
        }
        push_be(&mut out, self.significand, 8);
        proof {
            lemma_be_bytes_len(self.significand as nat, 8);
            assert(out@ =~= self.bytes_of());
        }
        out
    }

    /// Decodes a 9-byte amount; any other length is rejected.
    pub fn decode(data: &Vec<u8>) -> (r: Result<Amount, DecodeError>)
        ensures
            data@.len() == 9 ==> (r matches Ok(a) && a.exponent == data@[0] && a.significand
                as nat == be_val(data@.subrange(1, 9))),
            data@.len() != 9 ==> r == Err::<Amount, DecodeError>(DecodeError::InvalidLength),
    {
        if data.len() != 9 {
            return Err(DecodeError::InvalidLength);
        }
        let exponent = data[0];
        let significand = read_be(data, 1, 8);
        Ok(Amount { significand, exponent })
    }

    /// Computes the digest term of this amount.
    pub fn scaled(&self) -> (r: u32)
        requires
            self.units() < 0x8000000000000000,
        ensures
            r as nat == self.scaled_units(),
    {
        let mut acc: u64 = self.significand;
        let mut i: u8 = 0;
        proof {
            assert(pow10(0) == 1);
            assert((self.significand as nat) * 1 == self.significand as nat)
                by (nonlinear_arith);
        }
        while i < self.exponent
            invariant
                i <= self.exponent,
                acc as nat == (self.significand as nat) * pow10(i as nat),
                (acc as nat) * pow10((self.exponent - i) as nat) == self.units(),
                self.units() < 0x8000000000000000,
            decreases self.exponent - i,
        {
            proof {
                let rest = (self.exponent - i - 1) as nat;
                assert(pow10((self.exponent - i) as nat) == 10 * pow10(rest));
                assert((acc as nat) * (10 * pow10(rest)) == ((acc as nat) * 10) * pow10(rest))
                    by (nonlinear_arith);
                assert(pow10(rest) >= 1) by {
                    lemma_pow10_pos(rest);
                }
                assert((acc as nat) * 10 <= ((acc as nat) * 10) * pow10(rest))
                    by (nonlinear_arith)
                    requires
                        pow10(rest) >= 1,
                ;
                assert(((self.significand as nat) * pow10(i as nat)) * 10 == (
                self.significand as nat) * pow10((i + 1) as nat)) by (nonlinear_arith)
                    requires
                        pow10((i + 1) as nat) == 10 * pow10(i as nat),
                ;
                assert(pow10((i + 1) as nat) == 10 * pow10(i as nat));
            }
            acc = acc * 10;
            i = i + 1;
        }
        proof {
            assert(pow10(0) == 1);
            assert((acc as nat) * pow10(0) == acc as nat) by (nonlinear_arith)
                requires
                    pow10(0) == 1,
            ;
        }
        ((acc % 0x100000000) / 1000000) as u32
    }
}

pub proof fn lemma_pow10_pos(n: nat)
    ensures
        pow10(n) >= 1,
    decreases n,
{
    if n > 0 {
        lemma_pow10_pos((n - 1) as nat);
    }
}

} // verus!
