//! Transaction variants, the account key, and the witness aggregate.
//!
//! Every type here is a pure value: constructed once, immutable afterwards
//! except for the fields an external signing step fills in (nonce,
//! signature), and consumed by encoding or hashing.

use vstd::prelude::*;
use crate::field::FieldEl;
use crate::amount::AmountType;

verus! {

/// A recoverable data error of a decode: the input bytes do not hold a
/// well-formed transaction or amount.
#[derive(Debug, Clone, Copy, PartialEq, Eq, Structural)]
pub enum DecodeError {
    /// The input's length is not the fixed length of the layout.
    InvalidLength,
    /// The leading byte is not the expected transaction type tag.
    InvalidTag,
    /// A 32-byte window does not hold a canonical field element.
    InvalidFieldElement,
    /// The account key's sign byte is neither 0 nor 1.
    InvalidSign,
}

/// Transaction type tag. The numeric values are a wire contract shared with
/// the external circuit and contract parser; existing members must never be
/// renumbered.
#[derive(Debug, Clone, Copy, PartialEq, Eq, Structural)]
pub enum TxType {
    Nop,
    Deposit,
    Transfer,
    Withdraw,
    PlaceOrder,
    SpotTrade,
}

/// The stable tag value of each transaction type.
pub open spec fn tag_of(t: TxType) -> u8 {
    match t {
        TxType::Nop => 0,
        TxType::Deposit => 1,
        TxType::Transfer => 2,
        TxType::Withdraw => 3,
        TxType::PlaceOrder => 4,
        TxType::SpotTrade => 5,
    }
}

impl TxType {
    /// The tag byte: the leading pubdata byte and a digest preimage term.
    pub fn tag(self) -> (r: u8)
        ensures
            r == tag_of(self),
    {
        match self {
            TxType::Nop => 0,
            TxType::Deposit => 1,
            TxType::Transfer => 2,
            TxType::Withdraw => 3,
            TxType::PlaceOrder => 4,
            TxType::SpotTrade => 5,
        }
    }
}

/// The L2 public key binding a rollup account to an L1 identity. A dumb
/// container: the sign domain is checked only where pubdata is decoded.
#[derive(Debug, Clone, PartialEq, Eq)]
pub struct L2Key {
    pub eth_addr: FieldEl,
    pub sign: FieldEl,
    pub ay: FieldEl,
}

/// The value of each key component.
pub ghost struct L2KeyView {
    pub eth_addr: nat,
    pub sign: nat,
    pub ay: nat,
}

impl View for L2Key {
    type V = L2KeyView;

    open spec fn view(&self) -> L2KeyView {
        L2KeyView { eth_addr: self.eth_addr@, sign: self.sign@, ay: self.ay@ }
    }
}

impl L2Key {
    /// Canonical components with a sign of exactly 0 or 1.
    pub open spec fn wf(self) -> bool {
        &&& self.eth_addr.wf()
        &&& self.sign.wf()
        &&& self.ay.wf()
        &&& (self.sign@ == 0 || self.sign@ == 1)
    }
}

impl Default for L2Key {
    fn default() -> (r: Self)
        ensures
            r.wf(),
            r@ == (L2KeyView { eth_addr: 0, sign: 0, ay: 0 }),
    {
        L2Key { eth_addr: FieldEl::zero(), sign: FieldEl::zero(), ay: FieldEl::zero() }
    }
}

/// A signature produced by an external signing step; default until then.
#[derive(Debug, Clone)]
pub struct Signature {
    pub r8x: FieldEl,
    pub r8y: FieldEl,
    pub s: FieldEl,
}

impl Signature {
    pub open spec fn wf(self) -> bool {
        self.r8x.wf() && self.r8y.wf() && self.s.wf()
    }

    /// The all-zero placeholder value.
    pub open spec fn is_placeholder(self) -> bool {
        self.r8x@ == 0 && self.r8y@ == 0 && self.s@ == 0
    }
}

impl Default for Signature {
    fn default() -> (r: Self)
        ensures
            r.wf(),
            r.is_placeholder(),
    {
        Signature { r8x: FieldEl::zero(), r8y: FieldEl::zero(), s: FieldEl::zero() }
    }
}

/// An order as this core carries it through a spot trade; matching and
/// bookkeeping on orders belong to the external global-state component.
#[derive(Debug, Clone)]
pub struct Order {
    pub account_id: u32,
    pub order_id: u32,
    pub token_sell: u32,
    pub token_buy: u32,
    pub total_sell: AmountType,
    pub total_buy: AmountType,
    pub filled_sell: AmountType,
    pub filled_buy: AmountType,
    pub sig: Signature,
}

/// Deposit into an account: `l2key` is absent when the account already has a
/// bound key, and present when the deposit also establishes the key.
#[derive(Debug)]
pub struct DepositTx {
    pub account_id: u32,
    pub token_id: u32,
    pub amount: AmountType,
    pub l2key: Option<L2Key>,
}

/// The value of each deposit field.
pub ghost struct DepositView {
    pub account_id: u32,
    pub token_id: u32,
    pub amount: AmountType,
    pub l2key: Option<L2KeyView>,
}

impl View for DepositTx {
    type V = DepositView;

    open spec fn view(&self) -> DepositView {
        DepositView {
            account_id: self.account_id,
            token_id: self.token_id,
            amount: self.amount,
            l2key: match self.l2key {
                Some(k) => Some(k@),
                None => None,
            },
        }
    }
}

impl DepositTx {
    pub open spec fn wf(self) -> bool {
        match self.l2key {
            Some(k) => k.wf(),
            None => true,
        }
    }
}

/// Transfer between two rollup accounts. Created with a zero nonce and a
/// placeholder signature; an external signing step fills both in.
#[derive(Debug, Clone)]
pub struct TransferTx {
    pub from: u32,
    pub to: u32,
    pub token_id: u32,
    pub amount: AmountType,
    pub from_nonce: FieldEl,
    pub sig: Signature,
    pub l2key: Option<L2Key>,
}

impl TransferTx {
    pub fn new(from: u32, to: u32, token_id: u32, amount: AmountType) -> (r: Self)
        ensures
            r.from == from,
            r.to == to,
            r.token_id == token_id,
            r.amount == amount,
            r.from_nonce.wf() && r.from_nonce@ == 0,
            r.sig.wf() && r.sig.is_placeholder(),
            r.l2key is None,
    {
        Self {
            from,
            to,
            token_id,
            amount,
            from_nonce: FieldEl::zero(),
            sig: Signature::default(),
            l2key: None,
        }
    }
}

/// Withdrawal to the L1 address owning the account (ownership is enforced by
/// an external collaborator, not here).
#[derive(Debug)]
pub struct WithdrawTx {
    pub account_id: u32,
    pub token_id: u32,
    pub amount: AmountType,
    pub nonce: FieldEl,
    pub old_balance: FieldEl,
    pub sig: Signature,
}

impl WithdrawTx {
    /// The balance argument is accepted for the construction flow but the
    /// stored balance starts at zero, like the nonce: an external signing
    /// step supplies the real values later.
    pub fn new(account_id: u32, token_id: u32, amount: AmountType, _old_balance: FieldEl) -> (r:
        Self)
        ensures
            r.account_id == account_id,
            r.token_id == token_id,
            r.amount == amount,
            r.nonce.wf() && r.nonce@ == 0,
            r.old_balance.wf() && r.old_balance@ == 0,
            r.sig.wf() && r.sig.is_placeholder(),
    {
        Self {
            account_id,
            token_id,
            amount,
            nonce: FieldEl::zero(),
            old_balance: FieldEl::zero(),
            sig: Signature::default(),
        }
    }
}

/// The matched-amounts result of pairing two orders.
#[derive(Debug)]
pub struct SpotTradeTx {
    pub order1_account_id: u32,
    pub order2_account_id: u32,
    pub token_id_1to2: u32,
    pub token_id_2to1: u32,
    pub amount_1to2: AmountType,
    pub amount_2to1: AmountType,
    pub order1_id: u32,
    pub order2_id: u32,
}

/// A spot trade together with the orders it introduces: an order is absent
/// when the global state already holds it.
#[derive(Debug)]
pub struct FullSpotTradeTx {
    pub trade: SpotTradeTx,
    pub maker_order: Option<Order>,
    pub taker_order: Option<Order>,
}

/// One rollup operation; exactly one variant is active per value.
pub enum L2Tx {
    Deposit(DepositTx),
    Transfer(TransferTx),
    FullSpotTrade(FullSpotTradeTx),
    Withdraw(WithdrawTx),
}

/// A Merkle authentication path of sibling hashes.
pub type MerklePath = Vec<Vec<FieldEl>>;

/// The witness aggregate handed to the proving pipeline: one transaction's
/// field-element payload with the Merkle paths and roots of its state
/// transition. Produced once by an external state manager and consumed once;
/// this core defines the shape and validates nothing about the paths.
pub struct RawTx {
    pub tx_type: TxType,
    pub payload: Vec<FieldEl>,
    pub balance_path0: MerklePath,
    pub balance_path1: MerklePath,
    pub balance_path2: MerklePath,
    pub balance_path3: MerklePath,
    pub order_path0: MerklePath,
    pub order_path1: MerklePath,
    pub order_root0: FieldEl,
    pub order_root1: FieldEl,
    pub account_path0: MerklePath,
    pub account_path1: MerklePath,
    pub root_before: FieldEl,
    pub root_after: FieldEl,
    pub offset: Option<i64>,
}

} // verus!
