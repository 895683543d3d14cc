use rollup_tx::amount::AmountType;
use rollup_tx::codec::PUBDATA_LEN;
use rollup_tx::config::{Settings, SettingsSlot};
use rollup_tx::field::FieldEl;
use rollup_tx::msg::{msg_kind_of, MsgKind};
use rollup_tx::types::{DecodeError, DepositTx, L2Key, TransferTx, TxType, WithdrawTx};

#[test]
fn test_deposit_to_old_pubdata() {
    let tx = DepositTx {
        account_id: 1323,
        token_id: 232,
        amount: AmountType {
            significand: 756,
            exponent: 11,
        },
        l2key: None,
    };
    let pubdata1 = tx.to_pubdata();
    println!("pubdata {:?}", pubdata1);
    let tx2 = DepositTx::from_pubdata(&pubdata1).unwrap();
    assert_eq!(tx.account_id, tx2.account_id);
    assert_eq!(tx.token_id, tx2.token_id);
    assert_eq!(tx.amount, tx2.amount);
    assert!(tx2.l2key.is_none());
}

#[test]
fn test_deposit_to_new_pubdata() {
    let tx = DepositTx {
        account_id: 1323,
        token_id: 232,
        amount: AmountType {
            significand: 756,
            exponent: 11,
        },
        l2key: Some(L2Key {
            eth_addr: FieldEl::from_u64(1223232332323233),
            sign: FieldEl::from_u64(1),
            ay: FieldEl::from_u64(987657654765),
        }),
    };
    let pubdata1 = tx.to_pubdata();
    println!("pubdata {:?}", pubdata1);
    let tx2 = DepositTx::from_pubdata(&pubdata1).unwrap();
    assert_eq!(tx.account_id, tx2.account_id);
    assert_eq!(tx.token_id, tx2.token_id);
    assert_eq!(tx.amount, tx2.amount);
    assert_eq!(tx.l2key.unwrap(), tx2.l2key.unwrap());
}

#[test]
fn deposit_pubdata_concrete_layout() {
    let tx = DepositTx {
        account_id: 1323,
        token_id: 232,
        amount: AmountType {
            significand: 756,
            exponent: 11,
        },
        l2key: None,
    };
    let p = tx.to_pubdata();
    assert_eq!(p.len(), 81);
    assert_eq!(p.len(), PUBDATA_LEN);
    assert_eq!(p[0], TxType::Deposit.tag());
    assert_eq!(p[0], 1);
    assert_eq!(&p[1..5], &[0, 0, 5, 43]);
    assert_eq!(&p[5..7], &[0, 232]);
    for i in 16..48 {
        assert_eq!(p[i], 0);
    }
    let tx2 = DepositTx::from_pubdata(&p).unwrap();
    assert_eq!(tx2.account_id, 1323);
    assert_eq!(tx2.token_id, 232);
    assert_eq!(
        tx2.amount,
        AmountType {
            significand: 756,
            exponent: 11
        }
    );
    assert!(tx2.l2key.is_none());
}

#[test]
fn deposit_rejects_wrong_length() {
    assert_eq!(
        DepositTx::from_pubdata(&vec![0u8; 80]).unwrap_err(),
        DecodeError::InvalidLength
    );
    assert_eq!(
        DepositTx::from_pubdata(&vec![0u8; 82]).unwrap_err(),
        DecodeError::InvalidLength
    );
    assert_eq!(
        DepositTx::from_pubdata(&vec![0u8; 0]).unwrap_err(),
        DecodeError::InvalidLength
    );
}

#[test]
fn deposit_rejects_wrong_tag() {
    // all zero: the leading byte is the Nop tag, not Deposit
    assert_eq!(
        DepositTx::from_pubdata(&vec![0u8; 81]).unwrap_err(),
        DecodeError::InvalidTag
    );
    let mut p = vec![0u8; 81];
    p[0] = TxType::Transfer.tag();
    assert_eq!(
        DepositTx::from_pubdata(&p).unwrap_err(),
        DecodeError::InvalidTag
    );
}

#[test]
fn deposit_rejects_bad_sign() {
    let tx = DepositTx {
        account_id: 7,
        token_id: 9,
        amount: AmountType {
            significand: 1,
            exponent: 0,
        },
        l2key: Some(L2Key {
            eth_addr: FieldEl::from_u64(5),
            sign: FieldEl::from_u64(1),
            ay: FieldEl::from_u64(3),
        }),
    };
    let mut p = tx.to_pubdata();
    p[48] = 2;
    assert_eq!(
        DepositTx::from_pubdata(&p).unwrap_err(),
        DecodeError::InvalidSign
    );
    p[48] = 255;
    assert_eq!(
        DepositTx::from_pubdata(&p).unwrap_err(),
        DecodeError::InvalidSign
    );
}

#[test]
fn deposit_rejects_noncanonical_field_element() {
    let mut p = vec![0u8; 81];
    p[0] = 1;
    for i in 16..48 {
        p[i] = 0xFF;
    }
    assert_eq!(
        DepositTx::from_pubdata(&p).unwrap_err(),
        DecodeError::InvalidFieldElement
    );
}

#[test]
fn deposit_zero_ay_key_reads_back_as_no_key() {
    // the documented ambiguity: a key whose ay coordinate is zero encodes
    // exactly like an absent key
    let tx = DepositTx {
        account_id: 1,
        token_id: 2,
        amount: AmountType {
            significand: 3,
            exponent: 4,
        },
        l2key: Some(L2Key {
            eth_addr: FieldEl::from_u64(77),
            sign: FieldEl::from_u64(1),
            ay: FieldEl::from_u64(0),
        }),
    };
    let tx2 = DepositTx::from_pubdata(&tx.to_pubdata()).unwrap();
    assert!(tx2.l2key.is_none());
    assert_eq!(tx2.account_id, 1);
}

#[test]
fn amount_encode_decode_round_trip() {
    let a = AmountType {
        significand: 0xDEADBEEF00,
        exponent: 17,
    };
    let bytes = a.encode();
    assert_eq!(bytes.len(), 9);
    assert_eq!(bytes[0], 17);
    let b = AmountType::decode(&bytes).unwrap();
    assert_eq!(a, b);
    assert_eq!(
        AmountType::decode(&vec![0u8; 8]).unwrap_err(),
        DecodeError::InvalidLength
    );
    assert_eq!(
        AmountType::decode(&vec![0u8; 10]).unwrap_err(),
        DecodeError::InvalidLength
    );
}

#[test]
fn transfer_new_starts_unsigned() {
    let tx = TransferTx::new(
        10,
        20,
        3,
        AmountType {
            significand: 5,
            exponent: 6,
        },
    );
    assert_eq!(tx.from, 10);
    assert_eq!(tx.to, 20);
    assert_eq!(tx.token_id, 3);
    assert!(tx.from_nonce.is_zero_el());
    assert!(tx.sig.r8x.is_zero_el());
    assert!(tx.sig.r8y.is_zero_el());
    assert!(tx.sig.s.is_zero_el());
    assert!(tx.l2key.is_none());
}

#[test]
fn withdraw_new_starts_with_zero_nonce_and_balance() {
    let tx = WithdrawTx::new(
        4,
        5,
        AmountType {
            significand: 1,
            exponent: 2,
        },
        FieldEl::from_u64(999),
    );
    assert_eq!(tx.account_id, 4);
    assert_eq!(tx.token_id, 5);
    // the passed balance is not stored: signing fills in the real one later
    assert!(tx.old_balance.is_zero_el());
    assert!(tx.nonce.is_zero_el());
    assert!(tx.sig.s.is_zero_el());
}

#[test]
fn transfer_digest_is_deterministic() {
    let a = TransferTx::new(
        1,
        2,
        3,
        AmountType {
            significand: 5_000_000,
            exponent: 0,
        },
    );
    let b = TransferTx::new(
        1,
        2,
        3,
        AmountType {
            significand: 5_000_000,
            exponent: 0,
        },
    );
    let d1 = a.hash();
    let d2 = a.hash();
    let d3 = b.hash();
    assert_eq!(d1, d2);
    assert_eq!(d1, d3);
    // the digest is a real hash, not an echoed preimage term
    assert_ne!(d1, FieldEl::from_u32(TxType::Transfer.tag() as u32));
    assert_ne!(d1, FieldEl::from_u32(3));
}

#[test]
fn withdraw_digest_is_deterministic() {
    let a = WithdrawTx::new(
        9,
        8,
        AmountType {
            significand: 123_000_000,
            exponent: 0,
        },
        FieldEl::from_u64(0),
    );
    let d1 = a.hash();
    let d2 = a.hash();
    assert_eq!(d1, d2);
    assert_ne!(d1, FieldEl::from_u32(TxType::Withdraw.tag() as u32));
}

#[test]
fn transfer_digest_truncates_low_digits() {
    // below the granularity of one million raw units the digest must not move
    let a = TransferTx::new(
        1,
        2,
        3,
        AmountType {
            significand: 5_000_000,
            exponent: 0,
        },
    );
    let b = TransferTx::new(
        1,
        2,
        3,
        AmountType {
            significand: 5_999_999,
            exponent: 0,
        },
    );
    assert_eq!(a.hash(), b.hash());
    // a full granularity step must move it
    let c = TransferTx::new(
        1,
        2,
        3,
        AmountType {
            significand: 6_000_000,
            exponent: 0,
        },
    );
    assert_ne!(a.hash(), c.hash());
}

#[test]
fn transfer_digest_scales_exponent() {
    // 7 * 10^6 raw units and 7_000_000 * 10^0 are the same value
    let a = TransferTx::new(
        1,
        2,
        3,
        AmountType {
            significand: 7,
            exponent: 6,
        },
    );
    let b = TransferTx::new(
        1,
        2,
        3,
        AmountType {
            significand: 7_000_000,
            exponent: 0,
        },
    );
    assert_eq!(a.hash(), b.hash());
}

#[test]
fn field_elements_are_canonical_bytes() {
    let one = FieldEl::from_u64(1);
    assert_eq!(one.bytes.len(), 32);
    assert_eq!(one.bytes[31], 1);
    assert!(one.bytes[..31].iter().all(|&b| b == 0));
    assert!(FieldEl::zero().is_zero_el());
    assert!(!FieldEl::one().is_zero_el());
    assert_eq!(FieldEl::from_u32(77), FieldEl::from_u64(77));
    assert_ne!(FieldEl::from_u32(77), FieldEl::from_u64(78));
}

#[test]
fn tx_type_tags_are_stable() {
    assert_eq!(TxType::Nop.tag(), 0);
    assert_eq!(TxType::Deposit.tag(), 1);
    assert_eq!(TxType::Transfer.tag(), 2);
    assert_eq!(TxType::Withdraw.tag(), 3);
    assert_eq!(TxType::PlaceOrder.tag(), 4);
    assert_eq!(TxType::SpotTrade.tag(), 5);
}

#[test]
fn msg_labels_classify() {
    assert_eq!(msg_kind_of(&b"balances".to_vec()), Some(MsgKind::Balance));
    assert_eq!(msg_kind_of(&b"registeruser".to_vec()), Some(MsgKind::User));
    assert_eq!(msg_kind_of(&b"orders".to_vec()), Some(MsgKind::Order));
    assert_eq!(msg_kind_of(&b"trades".to_vec()), Some(MsgKind::Trade));
    assert_eq!(msg_kind_of(&b"unknown".to_vec()), None);
    assert_eq!(msg_kind_of(&b"".to_vec()), None);
    assert_eq!(msg_kind_of(&b"balance".to_vec()), None);
}

#[test]
fn default_key_and_signature_are_zero() {
    let k = L2Key::default();
    assert!(k.eth_addr.is_zero_el());
    assert!(k.sign.is_zero_el());
    assert!(k.ay.is_zero_el());
    let s = rollup_tx::types::Signature::default();
    assert!(s.r8x.is_zero_el());
    assert!(s.r8y.is_zero_el());
    assert!(s.s.is_zero_el());
}

#[test]
fn settings_slot_set_then_get() {
    let mut slot = SettingsSlot::new();
    let settings = Settings {
        brokers: "127.0.0.1:9092".to_string(),
        prover_cluster_db: "prover".to_string(),
        rollup_state_manager_db: "rollup".to_string(),
        persist_every_n_block: 100,
    };
    Settings::set(&mut slot, settings.clone());
    let read = Settings::get(&slot);
    assert_eq!(*read, settings);
}
