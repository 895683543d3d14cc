//! Classification of upstream broker messages.
//!
//! An external ingestion component delivers already-serialized payloads
//! keyed by a message-type label from a fixed set. Only the classification
//! of the label is this crate's logic; transport, threads and payload
//! deserialization stay with the caller, which must not crash on an unknown
//! label — `msg_kind_of` returns nothing for it instead.

use vstd::prelude::*;

verus! {

/// The fixed set of upstream message kinds.
#[derive(Debug, Clone, Copy, PartialEq, Eq, Structural)]
pub enum MsgKind {
    Balance,
    User,
    Order,
    Trade,
}

/// The bytes of "balances", the balance-update label.
pub open spec fn balances_label() -> Seq<u8> {
    seq![98u8, 97, 108, 97, 110, 99, 101, 115]
}

/// The bytes of "registeruser", the user-registration label.
pub open spec fn users_label() -> Seq<u8> {
    seq![114u8, 101, 103, 105, 115, 116, 101, 114, 117, 115, 101, 114]
}

/// The bytes of "orders", the order label.
pub open spec fn orders_label() -> Seq<u8> {
    seq![111u8, 114, 100, 101, 114, 115]
}

/// The bytes of "trades", the trade label.
pub open spec fn trades_label() -> Seq<u8> {
    seq![116u8, 114, 97, 100, 101, 115]
}

/// The kind a message-type label denotes, if any.
pub open spec fn msg_kind_spec(key: Seq<u8>) -> Option<MsgKind> {
    if key == balances_label() {
        Some(MsgKind::Balance)
    } else if key == users_label() {
        Some(MsgKind::User)
    } else if key == orders_label() {
        Some(MsgKind::Order)
    } else if key == trades_label() {
        Some(MsgKind::Trade)
    } else {
        None
    }
}

fn bytes_eq(a: &Vec<u8>, b: &Vec<u8>) -> (r: bool)
    ensures
        r == (a@ == b@),
{
    let n = a.len();
    if n != b.len() {
        return false;
    }
    let mut i: usize = 0;
    while i < n
        invariant
            i <= n,
            n == a@.len(),
            n == b@.len(),
            forall|j: int| 0 <= j < i ==> a@[j] == b@[j],
        decreases n - i,
    {
        if a[i] != b[i] {
            return false;
        }
        i = i + 1;
    }
    proof {
        assert(a@ =~= b@);
    }
    true
}

fn balances_label_vec() -> (v: Vec<u8>)
    ensures
        v@ == balances_label(),
{
    let v: Vec<u8> = vec![98, 97, 108, 97, 110, 99, 101, 115];
    proof {
        assert(v@ =~= balances_label());
    }
    v
}

fn users_label_vec() -> (v: Vec<u8>)
    ensures
        v@ == users_label(),
{
    let v: Vec<u8> = vec![114, 101, 103, 105, 115, 116, 101, 114, 117, 115, 101, 114];
    proof {
        assert(v@ =~= users_label());
    }
    v
}

fn orders_label_vec() -> (v: Vec<u8>)
    ensures
        v@ == orders_label(),
{
    let v: Vec<u8> = vec![111, 114, 100, 101, 114, 115];
    proof {
        assert(v@ =~= orders_label());
    }
    v
}

fn trades_label_vec() -> (v: Vec<u8>)
    ensures
        v@ == trades_label(),
{
    let v: Vec<u8> = vec![116, 114, 97, 100, 101, 115];
    proof {
        assert(v@ =~= trades_label());
    }
    v
}

/// Classifies a message-type label; an unknown label is no error, only an
/// absent kind, so a malformed upstream message cannot crash the process.
pub fn msg_kind_of(key: &Vec<u8>) -> (r: Option<MsgKind>)
    ensures
        r == msg_kind_spec(key@),
{
    if bytes_eq(key, &balances_label_vec()) {
        Some(MsgKind::Balance)
    } else if bytes_eq(key, &users_label_vec()) {
        Some(MsgKind::User)
    } else if bytes_eq(key, &orders_label_vec()) {
        Some(MsgKind::Order)
    } else if bytes_eq(key, &trades_label_vec()) {
        Some(MsgKind::Trade)
    } else {
        None
    }
}

} // verus!
