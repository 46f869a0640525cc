use tx_admission::{
    check_balance_for_total_fees_and_transfers, get_total_transaction_cost, Action, Address,
    CheckBalanceError, Denom, FeeParams, SequenceAction, SignedTransaction, Snapshot,
    TransactionParams, TransferAction, UnsignedTransaction,
};

fn nria() -> Denom {
    Denom::TracePrefixed(b"nria".to_vec())
}

fn other_asset() -> Denom {
    Denom::TracePrefixed(b"other".to_vec())
}

fn test_fees() -> FeeParams {
    FeeParams {
        transfer_base_fee: 12,
        sequence_base_fee: 0,
        sequence_byte_cost_multiplier: 1,
        ics20_withdrawal_base_fee: 1,
        init_bridge_account_base_fee: 12,
        bridge_lock_byte_cost_multiplier: 1,
        bridge_sudo_change_base_fee: 24,
    }
}

fn alice_address_bytes() -> Vec<u8> {
    vec![1u8; 20]
}

fn transfer_and_sequence_tx() -> SignedTransaction {
    let actions = vec![
        Action::Transfer(TransferAction {
            to: Address { prefix: b"astria".to_vec(), bytes: vec![0u8; 20] },
            amount: 100,
            asset: other_asset(),
            fee_asset: nria(),
        }),
        Action::Sequence(SequenceAction {
            rollup_id: vec![0u8; 32],
            data: vec![0u8; 32],
            fee_asset: nria(),
        }),
    ];
    SignedTransaction {
        address_bytes: alice_address_bytes(),
        body: UnsignedTransaction {
            actions,
            params: TransactionParams { nonce: 0, chain_id: b"test-chain-id".to_vec() },
        },
    }
}

fn snapshot_with_fees() -> Snapshot {
    Snapshot::new(b"astria".to_vec(), b"test-chain-id".to_vec(), test_fees())
}

#[test]
fn check_balance_total_fees_transfers_ok() {
    let mut state = snapshot_with_fees();
    let alice = state.try_base_prefixed(&alice_address_bytes());
    // transfer fee (12) plus the sequence fee of 32 zero bytes (0 + 32 * 1).
    state.increase_balance(&alice, &nria().to_ibc_prefixed(), 12 + 32);
    state.increase_balance(&alice, &other_asset().to_ibc_prefixed(), 100);

    let signed_tx = transfer_and_sequence_tx();
    let r = check_balance_for_total_fees_and_transfers(&signed_tx, &state);
    assert!(r.is_ok(), "sufficient balance for all actions");
}

#[test]
fn check_balance_total_fees_and_transfers_insufficient_other_asset_balance() {
    let mut state = snapshot_with_fees();
    let alice = state.try_base_prefixed(&alice_address_bytes());
    state.increase_balance(&alice, &nria().to_ibc_prefixed(), 12 + 32);

    let signed_tx = transfer_and_sequence_tx();
    let err = check_balance_for_total_fees_and_transfers(&signed_tx, &state)
        .err()
        .unwrap();
    let expected = other_asset().to_ibc_prefixed().display_string();
    assert!(err.message().contains(&expected));
}

#[test]
fn total_cost_of_transfer_and_sequence() {
    let state = snapshot_with_fees();
    let signed_tx = transfer_and_sequence_tx();
    let cost = get_total_transaction_cost(&signed_tx, &state).unwrap();
    assert_eq!(cost.get(&nria().to_ibc_prefixed()), Some(12 + 32));
    assert_eq!(cost.get(&other_asset().to_ibc_prefixed()), Some(100));
    assert_eq!(cost.len(), 2);
}

#[test]
fn insufficient_funds_error_names_the_offending_asset() {
    let mut state = snapshot_with_fees();
    let alice = state.try_base_prefixed(&alice_address_bytes());
    state.increase_balance(&alice, &nria().to_ibc_prefixed(), 12 + 32);

    let signed_tx = transfer_and_sequence_tx();
    match check_balance_for_total_fees_and_transfers(&signed_tx, &state) {
        Err(CheckBalanceError::InsufficientFunds(asset)) => {
            assert_eq!(asset.as_bytes(), other_asset().to_ibc_prefixed().as_bytes());
        }
        other => panic!("expected an insufficient-funds error, got {:?}", other.is_ok()),
    }
}

#[test]
fn cost_aggregation_saturates_instead_of_wrapping() {
    let mut fees = test_fees();
    fees.transfer_base_fee = u128::MAX;
    let state = Snapshot::new(b"astria".to_vec(), b"test-chain-id".to_vec(), fees);
    let actions = vec![Action::Transfer(TransferAction {
        to: Address { prefix: b"astria".to_vec(), bytes: vec![0u8; 20] },
        amount: 5,
        asset: nria(),
        fee_asset: nria(),
    })];
    let signed_tx = SignedTransaction {
        address_bytes: alice_address_bytes(),
        body: UnsignedTransaction {
            actions,
            params: TransactionParams { nonce: 0, chain_id: b"test-chain-id".to_vec() },
        },
    };
    let cost = get_total_transaction_cost(&signed_tx, &state).unwrap();
    // u128::MAX in fees, plus the moved 5: caps at the maximum, no wrap.
    assert_eq!(cost.get(&nria().to_ibc_prefixed()), Some(u128::MAX));
}

#[test]
fn sequence_fee_overflow_is_a_hard_error() {
    let mut fees = test_fees();
    fees.sequence_byte_cost_multiplier = u128::MAX;
    let state = Snapshot::new(b"astria".to_vec(), b"test-chain-id".to_vec(), fees);
    let data = vec![0u8; 2];
    assert_eq!(tx_admission::calculate_fee_from_state(&data, &state), None);

    let actions = vec![Action::Sequence(SequenceAction {
        rollup_id: vec![0u8; 32],
        data,
        fee_asset: nria(),
    })];
    let signed_tx = SignedTransaction {
        address_bytes: alice_address_bytes(),
        body: UnsignedTransaction {
            actions,
            params: TransactionParams { nonce: 0, chain_id: b"test-chain-id".to_vec() },
        },
    };
    let err = get_total_transaction_cost(&signed_tx, &state).err().unwrap();
    assert!(err.message().contains("data too large"));
}

#[test]
fn bridge_unlock_costs_the_declared_bridge_asset() {
    let mut state = snapshot_with_fees();
    let bridge_asset = other_asset().to_ibc_prefixed();
    state.put_bridge_account_ibc_asset(&alice_address_bytes(), &bridge_asset);
    let actions = vec![Action::BridgeUnlock(tx_admission::BridgeUnlockAction {
        amount: 7,
        fee_asset: nria(),
    })];
    let signed_tx = SignedTransaction {
        address_bytes: alice_address_bytes(),
        body: UnsignedTransaction {
            actions,
            params: TransactionParams { nonce: 0, chain_id: b"test-chain-id".to_vec() },
        },
    };
    let cost = get_total_transaction_cost(&signed_tx, &state).unwrap();
    assert_eq!(cost.get(&nria().to_ibc_prefixed()), Some(12));
    assert_eq!(cost.get(&bridge_asset), Some(7));
}

#[test]
fn bridge_unlock_without_declared_asset_fails() {
    let state = snapshot_with_fees();
    let actions = vec![Action::BridgeUnlock(tx_admission::BridgeUnlockAction {
        amount: 7,
        fee_asset: nria(),
    })];
    let signed_tx = SignedTransaction {
        address_bytes: alice_address_bytes(),
        body: UnsignedTransaction {
            actions,
            params: TransactionParams { nonce: 0, chain_id: b"test-chain-id".to_vec() },
        },
    };
    let err = get_total_transaction_cost(&signed_tx, &state).err().unwrap();
    assert!(err.message().contains("bridge account asset id"));
}

#[test]
fn cost_computation_is_pure() {
    let state = snapshot_with_fees();
    let a = get_total_transaction_cost(&transfer_and_sequence_tx(), &state).unwrap();
    let b = get_total_transaction_cost(&transfer_and_sequence_tx(), &state).unwrap();
    assert_eq!(a.len(), b.len());
    assert_eq!(a.get(&nria().to_ibc_prefixed()), b.get(&nria().to_ibc_prefixed()));
    assert_eq!(a.get(&other_asset().to_ibc_prefixed()), b.get(&other_asset().to_ibc_prefixed()));
}

#[test]
fn cost_vector_keys_are_ibc_prefixed() {
    let state = snapshot_with_fees();
    let cost = get_total_transaction_cost(&transfer_and_sequence_tx(), &state).unwrap();
    let mut i = 0;
    while i < cost.len() {
        let (asset, _) = cost.entry_at(i);
        assert_eq!(asset.as_bytes().len(), 32);
        let shown = asset.display_string();
        assert!(shown.starts_with("ibc/"));
        assert_eq!(shown.len(), 4 + 64);
        i += 1;
    }
}
