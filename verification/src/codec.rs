//! The pubdata codec for deposits.
//!
//! Pubdata is the bit-exact wire format shared with the external proving
//! circuit and on-chain parser: a fixed total length, a leading type tag,
//! big-endian fixed-width fields in a declared order, and zero padding.
//! `deposit_pubdata_of` is the layout table as a function; `parse_deposit`
//! says exactly which byte strings decode and to what. The round-trip lemmas
//! at the end state the codec laws, including the documented ambiguity that
//! an absent key and a key with a zero `ay` coordinate encode identically.

use vstd::prelude::*;
use crate::bytes::{
    be_val, be_bytes, pow256, read_be, push_be, lemma_be_val_bound, lemma_be_val_of_be_bytes,
    lemma_be_bytes_len, lemma_be_bytes_of_be_val, lemma_pow256_values, lemma_pow256_adds,
    lemma_pow256_pos,
};
use crate::field::{FieldEl, fr_order};
use crate::types::{DecodeError, TxType, tag_of, L2Key, L2KeyView, DepositTx, DepositView};
use crate::amount::Amount;

verus! {

/// Total pubdata length of every variant; shorter layouts are zero-padded.
pub const PUBDATA_LEN: usize = 81;

pub const ACCOUNT_ID_LEN: usize = 4;

pub const TOKEN_ID_LEN: usize = 2;

pub const AMOUNT_LEN: usize = 9;

pub const FR_LEN: usize = 32;

/// The key a deposit encodes: its own key, or the all-zero key when absent.
pub open spec fn key_or_default(v: DepositView) -> L2KeyView {
    match v.l2key {
        Some(k) => k,
        None => L2KeyView { eth_addr: 0, sign: 0, ay: 0 },
    }
}

/// The deposit pubdata layout: tag, account id, 16-bit token id, 9-byte
/// amount, then the key as `ay`, sign byte, `eth_addr`.
pub open spec fn deposit_pubdata_of(v: DepositView) -> Seq<u8> {
    let key = key_or_default(v);
    seq![tag_of(TxType::Deposit)] + be_bytes(v.account_id as nat, 4) + be_bytes(
        (v.token_id % 0x10000) as nat,
        2,
    ) + v.amount.bytes_of() + be_bytes(key.ay, 32) + seq![key.sign as u8] + be_bytes(
        key.eth_addr,
        32,
    )
}

/// Which byte strings decode as a deposit, and to what. A zero `ay` window
/// means "no key"; the sign and address windows then carry no meaning.
pub open spec fn parse_deposit(data: Seq<u8>) -> Result<DepositView, DecodeError> {
    if data.len() != 81 {
        Err(DecodeError::InvalidLength)
    } else if data[0] != tag_of(TxType::Deposit) {
        Err(DecodeError::InvalidTag)
    } else {
        let account_id = be_val(data.subrange(1, 5)) as u32;
        let token_id = be_val(data.subrange(5, 7)) as u32;
        let amount = Amount {
            significand: be_val(data.subrange(8, 16)) as u64,
            exponent: data[7],
        };
        let ay = be_val(data.subrange(16, 48));
        if ay >= fr_order() {
            Err(DecodeError::InvalidFieldElement)
        } else if ay == 0 {
            Ok(DepositView { account_id, token_id, amount, l2key: None })
        } else if data[48] != 0 && data[48] != 1 {
            Err(DecodeError::InvalidSign)
        } else {
            let eth_addr = be_val(data.subrange(49, 81));
            if eth_addr >= fr_order() {
                Err(DecodeError::InvalidFieldElement)
            } else {
                Ok(
                    DepositView {
                        account_id,
                        token_id,
                        amount,
                        l2key: Some(
                            L2KeyView { eth_addr, sign: data[48] as nat, ay },
                        ),
                    },
                )
            }
        }
    }
}

/// Appends all of `src`.
fn append_bytes(out: &mut Vec<u8>, src: &Vec<u8>)
    ensures
        final(out)@ == old(out)@ + src@,
{
    let n = src.len();
    let mut i: usize = 0;
    proof {
        assert(out@ =~= old(out)@ + src@.subrange(0, 0));
    }
    while i < n
        invariant
            i <= n,
            n == src@.len(),
            out@ == old(out)@ + src@.subrange(0, i as int),
        decreases n - i,
    {
        proof {
            assert(src@.subrange(0, i as int + 1) =~= src@.subrange(0, i as int).push(
                src@[i as int],
            ));
            assert((old(out)@ + src@.subrange(0, i as int)).push(src@[i as int]) =~= old(out)@
                + src@.subrange(0, i as int + 1));
        }
        out.push(src[i]);
        i = i + 1;
    }
    proof {
        assert(src@.subrange(0, n as int) =~= src@);
    }
}

/// Appends n zero bytes, the encoding of the zero value.
fn push_zero_bytes(out: &mut Vec<u8>, n: usize)
    ensures
        final(out)@ == old(out)@ + be_bytes(0, n as nat),
{
    let mut i: usize = 0;
    proof {
        assert(out@ =~= old(out)@ + be_bytes(0, 0));
    }
    while i < n
        invariant
            i <= n,
            out@ == old(out)@ + be_bytes(0, i as nat),
        decreases n - i,
    {
        proof {
            assert(be_bytes(0, (i + 1) as nat) == be_bytes(0, i as nat).push(0u8));
            assert((old(out)@ + be_bytes(0, i as nat)).push(0u8) =~= old(out)@ + be_bytes(
                0,
                (i + 1) as nat,
            ));
        }
        out.push(0u8);
        i = i + 1;
    }
}

impl DepositTx {
    /// Encodes this deposit into its 81-byte pubdata. The layout arithmetic
    /// is verified, so the running length can never exceed the fixed length;
    /// no padding remains for this variant.
    pub fn to_pubdata(&self) -> (r: Vec<u8>)
        requires
            self.wf(),
        ensures
            r@ == deposit_pubdata_of(self@),
            r@.len() == 81,
    {
        let mut result: Vec<u8> = Vec::new();
        result.push(TxType::Deposit.tag());
        proof {
            lemma_pow256_values();
        }
        push_be(&mut result, self.account_id as u64, 4);
        push_be(&mut result, (self.token_id % 0x10000) as u64, 2);
        result.push(self.amount.exponent);
        push_be(&mut result, self.amount.significand, 8);
        match &self.l2key {
            Some(k) => {
                proof {
                    lemma_be_bytes_of_be_val(k.ay.bytes@);
                    lemma_be_bytes_of_be_val(k.eth_addr.bytes@);
                }
                append_bytes(&mut result, &k.ay.bytes);
                let sb = k.sign.low_byte();
                result.push(sb);
                append_bytes(&mut result, &k.eth_addr.bytes);
            },
            None => {
                push_zero_bytes(&mut result, 32);
                result.push(0u8);
                push_zero_bytes(&mut result, 32);
            },
        }
        proof {
            let v = self@;
            let key = key_or_default(v);
            lemma_be_bytes_len(v.account_id as nat, 4);
            lemma_be_bytes_len((v.token_id % 0x10000) as nat, 2);
            lemma_be_bytes_len(v.amount.significand as nat, 8);
            lemma_be_bytes_len(key.ay, 32);
            lemma_be_bytes_len(key.eth_addr, 32);
            assert(result@ =~= deposit_pubdata_of(v));
        }
        result
    }

    /// Decodes 81-byte pubdata into a deposit, or says exactly why the bytes
    /// are invalid. Decoding is the inverse of `parse_deposit`'s description.
    pub fn from_pubdata(data: &Vec<u8>) -> (r: Result<DepositTx, DecodeError>)
        ensures
            r matches Ok(tx) ==> tx.wf() && parse_deposit(data@) == Ok::<
                DepositView,
                DecodeError,
            >(tx@),
            r matches Err(e) ==> parse_deposit(data@) == Err::<DepositView, DecodeError>(e),
    {
        if data.len() != PUBDATA_LEN {
            return Err(DecodeError::InvalidLength);
        }
        if data[0] != TxType::Deposit.tag() {
            return Err(DecodeError::InvalidTag);
        }
        proof {
            lemma_pow256_values();
            lemma_be_val_bound(data@.subrange(1, 5));
            lemma_be_val_bound(data@.subrange(5, 7));
        }
        let account_id = read_be(data, 1, 4) as u32;
        let token_id = read_be(data, 5, 2) as u32;
        let exponent = data[7];
        let significand = read_be(data, 8, 8);
        let amount = Amount { significand, exponent };
        let ay = match FieldEl::from_be_window(data, 16) {
            Some(f) => f,
            None => {
                return Err(DecodeError::InvalidFieldElement);
            },
        };
        if ay.is_zero_el() {
            return Ok(DepositTx { account_id, token_id, amount, l2key: None });
        }
        let signb = data[48];
        if signb != 0 && signb != 1 {
            return Err(DecodeError::InvalidSign);
        }
        let sign = FieldEl::from_u32(signb as u32);
        let eth_addr = match FieldEl::from_be_window(data, 49) {
            Some(f) => f,
            None => {
                return Err(DecodeError::InvalidFieldElement);
            },
        };
        Ok(DepositTx { account_id, token_id, amount, l2key: Some(L2Key { eth_addr, sign, ay }) })
    }
}

/// The position of each field inside the encoded layout.
proof fn lemma_deposit_layout(v: DepositView)
    ensures
        deposit_pubdata_of(v).len() == 81,
        deposit_pubdata_of(v)[0] == tag_of(TxType::Deposit),
        deposit_pubdata_of(v).subrange(1, 5) == be_bytes(v.account_id as nat, 4),
        deposit_pubdata_of(v).subrange(5, 7) == be_bytes((v.token_id % 0x10000) as nat, 2),
        deposit_pubdata_of(v)[7] == v.amount.exponent,
        deposit_pubdata_of(v).subrange(8, 16) == be_bytes(v.amount.significand as nat, 8),
        deposit_pubdata_of(v).subrange(16, 48) == be_bytes(key_or_default(v).ay, 32),
        deposit_pubdata_of(v)[48] == key_or_default(v).sign as u8,
        deposit_pubdata_of(v).subrange(49, 81) == be_bytes(key_or_default(v).eth_addr, 32),
{
    let key = key_or_default(v);
    lemma_be_bytes_len(v.account_id as nat, 4);
    lemma_be_bytes_len((v.token_id % 0x10000) as nat, 2);
    lemma_be_bytes_len(v.amount.significand as nat, 8);
    lemma_be_bytes_len(key.ay, 32);
    lemma_be_bytes_len(key.eth_addr, 32);
    let d = deposit_pubdata_of(v);
    assert(d.subrange(1, 5) =~= be_bytes(v.account_id as nat, 4));
    assert(d.subrange(5, 7) =~= be_bytes((v.token_id % 0x10000) as nat, 2));
    assert(d.subrange(8, 16) =~= be_bytes(v.amount.significand as nat, 8));
    assert(d.subrange(16, 48) =~= be_bytes(key.ay, 32));
    assert(d.subrange(49, 81) =~= be_bytes(key.eth_addr, 32));
}

/// 256^32, the bound of a 32-byte window, exceeds the field order.
proof fn lemma_order_fits_32_bytes()
    ensures
        fr_order() < pow256(32),
{
    lemma_pow256_values();
    lemma_pow256_adds(8, 8);
    lemma_pow256_adds(16, 8);
    lemma_pow256_adds(24, 8);
}

/// Round trip without a key: a deposit into an existing account decodes from
/// its own encoding with the same fields and still no key. The token id must
/// fit the layout's 16 bits: wider ids are truncated by the wire format.
pub proof fn lemma_deposit_roundtrip_no_key(v: DepositView)
    requires
        v.l2key is None,
        v.token_id < 0x10000,
    ensures
        parse_deposit(deposit_pubdata_of(v)) == Ok::<DepositView, DecodeError>(v),
{
    let d = deposit_pubdata_of(v);
    lemma_deposit_layout(v);
    lemma_pow256_values();
    lemma_order_fits_32_bytes();
    lemma_be_val_of_be_bytes(v.account_id as nat, 4);
    lemma_be_val_of_be_bytes((v.token_id % 0x10000) as nat, 2);
    lemma_be_val_of_be_bytes(v.amount.significand as nat, 8);
    lemma_pow256_pos(32);
    lemma_be_val_of_be_bytes(0, 32);
}

/// Round trip with a key: a deposit that establishes a key with a nonzero
/// `ay` decodes from its own encoding with the full key reproduced.
pub proof fn lemma_deposit_roundtrip_with_key(v: DepositView)
    requires
        v.l2key matches Some(k) && k.ay != 0 && k.ay < fr_order() && k.eth_addr < fr_order() && (
        k.sign == 0 || k.sign == 1),
        v.token_id < 0x10000,
    ensures
        parse_deposit(deposit_pubdata_of(v)) == Ok::<DepositView, DecodeError>(v),
{
    let d = deposit_pubdata_of(v);
    let key = key_or_default(v);
    lemma_deposit_layout(v);
    lemma_pow256_values();
    lemma_order_fits_32_bytes();
    lemma_be_val_of_be_bytes(v.account_id as nat, 4);
    lemma_be_val_of_be_bytes((v.token_id % 0x10000) as nat, 2);
    lemma_be_val_of_be_bytes(v.amount.significand as nat, 8);
    lemma_be_val_of_be_bytes(key.ay, 32);
    lemma_be_val_of_be_bytes(key.eth_addr, 32);
}

/// The documented ambiguity: a key whose `ay` coordinate is the zero element
/// encodes exactly like an absent key, so it decodes as no key at all.
pub proof fn lemma_deposit_zero_ay_reads_as_no_key(v: DepositView)
    requires
        v.l2key matches Some(k) && k.ay == 0,
        v.token_id < 0x10000,
    ensures
        parse_deposit(deposit_pubdata_of(v)) == Ok::<DepositView, DecodeError>(
            DepositView {
                account_id: v.account_id,
                token_id: v.token_id,
                amount: v.amount,
                l2key: None,
            },
        ),
{
    let d = deposit_pubdata_of(v);
    lemma_deposit_layout(v);
    lemma_pow256_values();
    lemma_order_fits_32_bytes();
    lemma_be_val_of_be_bytes(v.account_id as nat, 4);
    lemma_be_val_of_be_bytes((v.token_id % 0x10000) as nat, 2);
    lemma_be_val_of_be_bytes(v.amount.significand as nat, 8);
    lemma_pow256_pos(32);
    lemma_be_val_of_be_bytes(0, 32);
}

/// Any input whose length is not the fixed pubdata length is rejected.
pub proof fn lemma_parse_rejects_length(data: Seq<u8>)
    requires
        data.len() != 81,
    ensures
        parse_deposit(data) == Err::<DepositView, DecodeError>(DecodeError::InvalidLength),
{
}

/// Any 81-byte input whose leading byte is not the deposit tag is rejected.
pub proof fn lemma_parse_rejects_tag(data: Seq<u8>)
    requires
        data.len() == 81,
        data[0] != tag_of(TxType::Deposit),
    ensures
        parse_deposit(data) == Err::<DepositView, DecodeError>(DecodeError::InvalidTag),
{
}

/// Any 81-byte deposit input with a nonzero `ay` window and a sign byte
/// outside {0, 1} is rejected (as a bad sign, or already as a bad field
/// element when the `ay` window is out of the field).
pub proof fn lemma_parse_rejects_sign(data: Seq<u8>)
    requires
        data.len() == 81,
        data[0] == tag_of(TxType::Deposit),
        be_val(data.subrange(16, 48)) != 0,
        data[48] != 0,
        data[48] != 1,
    ensures
        parse_deposit(data) is Err,
        be_val(data.subrange(16, 48)) < fr_order() ==> parse_deposit(data) == Err::<
            DepositView,
            DecodeError,
        >(DecodeError::InvalidSign),
{
}

} // verus!

