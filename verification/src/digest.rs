//! The digest engine: composition of field elements into one signable hash.
//!
//! Each digest is the field hash of an ordered preimage of field elements;
//! the preimage, including the truncation applied to the amount, is stated
//! here as a spec function, so a digest is provably a pure function of its
//! declared inputs. The hash itself is the external field library's Poseidon
//! permutation, reached through the one trusted wrapper below.

use vstd::prelude::*;
use vstd::arithmetic::div_mod::lemma_small_mod;
use ff_ce::PrimeField;
use ff_ce::PrimeFieldRepr;
use crate::field::FieldEl;
use crate::types::{TxType, tag_of, TransferTx, WithdrawTx};

verus! {

/// The field hash's result on an input list, named: it is computed by the
/// external field library and is a function of the input values alone.
pub uninterp spec fn poseidon_digest(inputs: Seq<nat>) -> nat;

/// Relies on poseidon_rs::Poseidon::hash, the Poseidon hash over the
/// circuit's scalar field: a deterministic function of the input elements,
/// which errs only on an empty input or one of more than 16 elements; and on
/// ff_ce's from_repr / into_repr, the canonical big-endian conversions,
/// which fail only on values outside the field.
#[verifier::external_body]
fn poseidon_hash(inputs: &Vec<FieldEl>) -> (r: FieldEl)
    requires
        1 <= inputs@.len() <= 16,
        forall|i: int| 0 <= i < inputs@.len() ==> inputs@[i].wf(),
    ensures
        r.wf(),
        r@ == poseidon_digest(inputs@.map_values(|f: FieldEl| f@)),
{
    let mut elems: Vec<poseidon_rs::Fr> = Vec::new();
    for f in inputs.iter() {
        let mut repr = <poseidon_rs::Fr as PrimeField>::Repr::default();
        repr.read_be(&f.bytes[..]).unwrap();
        elems.push(poseidon_rs::Fr::from_repr(repr).unwrap());
    }
    let h = poseidon_rs::Poseidon::new().hash(elems).unwrap();
    let mut bytes: Vec<u8> = Vec::new();
    h.into_repr().write_be(&mut bytes).unwrap();
    FieldEl { bytes }
}

/// Transfer digest preimage, in wire order: tag, token, scaled amount,
/// sender, sender nonce, receiver.
pub open spec fn transfer_preimage(t: TransferTx) -> Seq<nat> {
    seq![
        tag_of(TxType::Transfer) as nat,
        t.token_id as nat,
        t.amount.scaled_units(),
        t.from as nat,
        t.from_nonce@,
        t.to as nat,
    ]
}

/// The transfer digest: the field hash of the transfer preimage.
pub open spec fn transfer_digest(t: TransferTx) -> nat {
    poseidon_digest(transfer_preimage(t))
}

/// Withdraw digest preimage, in wire order: tag, account, token, scaled
/// amount, nonce, old balance.
pub open spec fn withdraw_preimage(t: WithdrawTx) -> Seq<nat> {
    seq![
        tag_of(TxType::Withdraw) as nat,
        t.account_id as nat,
        t.token_id as nat,
        t.amount.scaled_units(),
        t.nonce@,
        t.old_balance@,
    ]
}

/// The withdraw digest: the field hash of the withdraw preimage.
pub open spec fn withdraw_digest(t: WithdrawTx) -> nat {
    poseidon_digest(withdraw_preimage(t))
}

impl TransferTx {
    /// The signable transfer message. The amount's six lowest decimal digits
    /// are truncated first, after a cut to 32 bits: an intentional
    /// compatibility shim with an external signing toolchain, reproduced
    /// exactly.
    pub fn hash(&self) -> (r: FieldEl)
        requires
            self.from_nonce.wf(),
            self.amount.units() < 0x8000000000000000,
        ensures
            r.wf(),
            r@ == transfer_digest(*self),
    {
        let mut inputs: Vec<FieldEl> = Vec::new();
        inputs.push(FieldEl::from_u32(TxType::Transfer.tag() as u32));
        inputs.push(FieldEl::from_u32(self.token_id));
        inputs.push(FieldEl::from_u32(self.amount.scaled()));
        inputs.push(FieldEl::from_u32(self.from));
        inputs.push(self.from_nonce.clone());
        inputs.push(FieldEl::from_u32(self.to));
        let r = poseidon_hash(&inputs);
        proof {
            assert(inputs@.map_values(|f: FieldEl| f@) =~= transfer_preimage(*self));
        }
        r
    }
}

impl WithdrawTx {
    /// The signable withdraw message, with the same amount truncation as the
    /// transfer digest.
    pub fn hash(&self) -> (r: FieldEl)
        requires
            self.nonce.wf(),
            self.old_balance.wf(),
            self.amount.units() < 0x8000000000000000,
        ensures
            r.wf(),
            r@ == withdraw_digest(*self),
    {
        let mut inputs: Vec<FieldEl> = Vec::new();
        inputs.push(FieldEl::from_u32(TxType::Withdraw.tag() as u32));
        inputs.push(FieldEl::from_u32(self.account_id));
        inputs.push(FieldEl::from_u32(self.token_id));
        inputs.push(FieldEl::from_u32(self.amount.scaled()));
        inputs.push(self.nonce.clone());
        inputs.push(self.old_balance.clone());
        let r = poseidon_hash(&inputs);
        proof {
            assert(inputs@.map_values(|f: FieldEl| f@) =~= withdraw_preimage(*self));
        }
        r
    }
}

/// The transfer digest is a pure function of its declared inputs: two
/// transfers equal on token, amount, sender, nonce and receiver share one
/// digest, whatever their signatures or keys.
pub proof fn lemma_transfer_digest_deterministic(a: TransferTx, b: TransferTx)
    requires
        a.token_id == b.token_id,
        a.amount == b.amount,
        a.from == b.from,
        a.from_nonce@ == b.from_nonce@,
        a.to == b.to,
    ensures
        transfer_digest(a) == transfer_digest(b),
{
    assert(transfer_preimage(a) =~= transfer_preimage(b));
}

/// The withdraw digest is a pure function of its declared inputs.
pub proof fn lemma_withdraw_digest_deterministic(a: WithdrawTx, b: WithdrawTx)
    requires
        a.account_id == b.account_id,
        a.token_id == b.token_id,
        a.amount == b.amount,
        a.nonce@ == b.nonce@,
        a.old_balance@ == b.old_balance@,
    ensures
        withdraw_digest(a) == withdraw_digest(b),
{
    assert(withdraw_preimage(a) =~= withdraw_preimage(b));
}

/// An amount change below the truncation granularity does not reach the
/// digest: two transfers whose amount values fit 32 bits and agree after the
/// six-digit truncation hash identically. (Values past 32 bits are cut first
/// by the shim, so the granularity statement holds only below that cut.)
pub proof fn lemma_transfer_digest_ignores_truncated_digits(a: TransferTx, b: TransferTx)
    requires
        a.token_id == b.token_id,
        a.from == b.from,
        a.from_nonce@ == b.from_nonce@,
        a.to == b.to,
        a.amount.units() < 0x100000000,
        b.amount.units() < 0x100000000,
        a.amount.units() / 1000000 == b.amount.units() / 1000000,
    ensures
        transfer_digest(a) == transfer_digest(b),
{
    lemma_small_mod(a.amount.units(), 0x100000000);
    lemma_small_mod(b.amount.units(), 0x100000000);
    assert(transfer_preimage(a) =~= transfer_preimage(b));
}

/// An amount change that crosses the truncation granularity does reach the
/// digest preimage: the two transfers hand the field hash different inputs.
pub proof fn lemma_transfer_digest_amount_sensitive(a: TransferTx, b: TransferTx)
    requires
        a.amount.units() < 0x100000000,
        b.amount.units() < 0x100000000,
        a.amount.units() / 1000000 != b.amount.units() / 1000000,
    ensures
        transfer_preimage(a) != transfer_preimage(b),
{
    lemma_small_mod(a.amount.units(), 0x100000000);
    lemma_small_mod(b.amount.units(), 0x100000000);
    assert(transfer_preimage(a)[2] != transfer_preimage(b)[2]);
}

} // verus!
