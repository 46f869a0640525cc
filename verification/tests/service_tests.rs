use tx_admission::{
    handle_check_tx, sha256, Action, Address, Denom, FeeParams, Mempool, ParseOutcome,
    RemovalReason, SequenceAction, SignedTransaction, Snapshot, TransactionParams, TransferAction,
    UnsignedTransaction, ABCI_CODE_INTERNAL_ERROR, ABCI_CODE_INVALID_CHAIN_ID,
    ABCI_CODE_INVALID_NONCE, ABCI_CODE_INVALID_PARAMETER, ABCI_CODE_LOWER_NONCE_INVALIDATED,
    ABCI_CODE_OK, ABCI_CODE_TRANSACTION_EXPIRED, ABCI_CODE_TRANSACTION_FAILED,
    ABCI_CODE_TRANSACTION_INSERTION_FAILED, ABCI_CODE_TRANSACTION_TOO_LARGE,
};

fn nria() -> Denom {
    Denom::TracePrefixed(b"nria".to_vec())
}

fn test_fees() -> FeeParams {
    FeeParams {
        transfer_base_fee: 12,
        sequence_base_fee: 0,
        sequence_byte_cost_multiplier: 1,
        ics20_withdrawal_base_fee: 1,
        init_bridge_account_base_fee: 12,
        bridge_lock_byte_cost_multiplier: 1,
        bridge_sudo_change_base_fee: 24,
    }
}

fn test_state() -> Snapshot {
    Snapshot::new(b"astria".to_vec(), b"test-chain-id".to_vec(), test_fees())
}

fn signer_bytes() -> Vec<u8> {
    vec![7u8; 20]
}

fn valid_tx(nonce: u32, chain_id: &[u8]) -> SignedTransaction {
    let actions = vec![
        Action::Transfer(TransferAction {
            to: Address { prefix: b"astria".to_vec(), bytes: vec![0u8; 20] },
            amount: 100,
            asset: Denom::TracePrefixed(b"other".to_vec()),
            fee_asset: nria(),
        }),
        Action::Sequence(SequenceAction {
            rollup_id: vec![0u8; 32],
            data: vec![0u8; 32],
            fee_asset: nria(),
        }),
    ];
    SignedTransaction {
        address_bytes: signer_bytes(),
        body: UnsignedTransaction {
            actions,
            params: TransactionParams { nonce, chain_id: chain_id.to_vec() },
        },
    }
}

#[test]
fn oversize_payload_is_rejected_without_decoding() {
    let state = test_state();
    let mut mempool = Mempool::new();
    let tx_bytes = vec![9u8; 300_000];
    let r = handle_check_tx(
        &tx_bytes,
        ParseOutcome::DecodeFailed(String::new()),
        &state,
        &mut mempool,
    );
    assert_eq!(r.code, ABCI_CODE_TRANSACTION_TOO_LARGE);
    assert!(r.log.contains("256000"));
    assert!(r.log.contains("300000"));
    assert_eq!(mempool.len(), 0);
}

#[test]
fn bad_protobuf_is_an_invalid_parameter() {
    let state = test_state();
    let mut mempool = Mempool::new();
    let tx_bytes = vec![0xff, 0xff, 0xff, 0xff];
    let r = handle_check_tx(
        &tx_bytes,
        ParseOutcome::DecodeFailed("buffer underflow".to_string()),
        &state,
        &mut mempool,
    );
    assert_eq!(r.code, ABCI_CODE_INVALID_PARAMETER);
    assert!(r.info.contains("protobuf"));
    assert_eq!(r.log, "buffer underflow");
    assert_eq!(mempool.len(), 0);
}

#[test]
fn bad_signature_is_an_invalid_parameter() {
    let state = test_state();
    let mut mempool = Mempool::new();
    let r = handle_check_tx(
        &b"tx".to_vec(),
        ParseOutcome::InvalidSignedTx("bad signature".to_string()),
        &state,
        &mut mempool,
    );
    assert_eq!(r.code, ABCI_CODE_INVALID_PARAMETER);
    assert!(r.info.contains("signature was invalid"));
}

#[test]
fn empty_action_list_fails_the_stateless_check() {
    let state = test_state();
    let mut mempool = Mempool::new();
    let tx = SignedTransaction {
        address_bytes: signer_bytes(),
        body: UnsignedTransaction {
            actions: Vec::new(),
            params: TransactionParams { nonce: 0, chain_id: b"test-chain-id".to_vec() },
        },
    };
    let r = handle_check_tx(&b"tx".to_vec(), ParseOutcome::Parsed(tx), &state, &mut mempool);
    assert_eq!(r.code, ABCI_CODE_INVALID_PARAMETER);
    assert!(r.info.contains("stateless"));
}

#[test]
fn stale_nonce_is_rejected() {
    let mut state = test_state();
    let signer = state.try_base_prefixed(&signer_bytes());
    state.put_account_nonce(&signer, 5);
    let mut mempool = Mempool::new();
    let r = handle_check_tx(
        &b"tx".to_vec(),
        ParseOutcome::Parsed(valid_tx(4, b"test-chain-id")),
        &state,
        &mut mempool,
    );
    assert_eq!(r.code, ABCI_CODE_INVALID_NONCE);
    assert!(r.log.contains("nonce already used"));
    assert_eq!(mempool.len(), 0);
}

#[test]
fn chain_id_mismatch_is_rejected() {
    let state = test_state();
    let mut mempool = Mempool::new();
    let r = handle_check_tx(
        &b"tx".to_vec(),
        ParseOutcome::Parsed(valid_tx(0, b"other")),
        &state,
        &mut mempool,
    );
    assert_eq!(r.code, ABCI_CODE_INVALID_CHAIN_ID);
    assert_eq!(mempool.len(), 0);
}

#[test]
fn valid_transaction_is_admitted_and_grows_the_pool() {
    let state = test_state();
    let mut mempool = Mempool::new();
    let r = handle_check_tx(
        &b"tx-1".to_vec(),
        ParseOutcome::Parsed(valid_tx(0, b"test-chain-id")),
        &state,
        &mut mempool,
    );
    assert_eq!(r.code, ABCI_CODE_OK);
    assert!(r.info.is_empty());
    assert!(r.log.is_empty());
    assert_eq!(mempool.len(), 1);
}

#[test]
fn second_insertion_of_the_same_hash_fails() {
    let state = test_state();
    let mut mempool = Mempool::new();
    let first = handle_check_tx(
        &b"tx-1".to_vec(),
        ParseOutcome::Parsed(valid_tx(0, b"test-chain-id")),
        &state,
        &mut mempool,
    );
    assert_eq!(first.code, ABCI_CODE_OK);
    let second = handle_check_tx(
        &b"tx-1".to_vec(),
        ParseOutcome::Parsed(valid_tx(0, b"test-chain-id")),
        &state,
        &mut mempool,
    );
    assert_eq!(second.code, ABCI_CODE_TRANSACTION_INSERTION_FAILED);
    assert!(second.log.contains("transaction already in mempool"));
    assert_eq!(mempool.len(), 1);
}

#[test]
fn expired_removal_reason_is_surfaced() {
    let state = test_state();
    let mut mempool = Mempool::new();
    let tx_bytes = b"tx-expired".to_vec();
    mempool.record_removal_comet_bft(sha256(&tx_bytes), RemovalReason::Expired);
    let r = handle_check_tx(
        &tx_bytes,
        ParseOutcome::Parsed(valid_tx(0, b"test-chain-id")),
        &state,
        &mut mempool,
    );
    assert_eq!(r.code, ABCI_CODE_TRANSACTION_EXPIRED);
    assert_eq!(mempool.len(), 0);
}

#[test]
fn failed_prepare_proposal_reason_attaches_the_message() {
    let state = test_state();
    let mut mempool = Mempool::new();
    let tx_bytes = b"tx-failed".to_vec();
    mempool.record_removal_comet_bft(
        sha256(&tx_bytes),
        RemovalReason::FailedPrepareProposal("out of gas".to_string()),
    );
    let r = handle_check_tx(
        &tx_bytes,
        ParseOutcome::Parsed(valid_tx(0, b"test-chain-id")),
        &state,
        &mut mempool,
    );
    assert_eq!(r.code, ABCI_CODE_TRANSACTION_FAILED);
    assert!(r.log.contains("out of gas"));
}

#[test]
fn stale_nonce_removal_reason_maps_to_invalid_nonce() {
    let state = test_state();
    let mut mempool = Mempool::new();
    let tx_bytes = b"tx-stale".to_vec();
    mempool.record_removal_comet_bft(sha256(&tx_bytes), RemovalReason::NonceStale);
    let r = handle_check_tx(
        &tx_bytes,
        ParseOutcome::Parsed(valid_tx(0, b"test-chain-id")),
        &state,
        &mut mempool,
    );
    assert_eq!(r.code, ABCI_CODE_INVALID_NONCE);
}

#[test]
fn lower_nonce_invalidated_reason_is_surfaced() {
    let state = test_state();
    let mut mempool = Mempool::new();
    let tx_bytes = b"tx-lower".to_vec();
    mempool.record_removal_comet_bft(sha256(&tx_bytes), RemovalReason::LowerNonceInvalidated);
    let r = handle_check_tx(
        &tx_bytes,
        ParseOutcome::Parsed(valid_tx(0, b"test-chain-id")),
        &state,
        &mut mempool,
    );
    assert_eq!(r.code, ABCI_CODE_LOWER_NONCE_INVALIDATED);
}

#[test]
fn cost_failure_is_an_internal_error() {
    let mut fees = test_fees();
    fees.sequence_byte_cost_multiplier = u128::MAX;
    let state = Snapshot::new(b"astria".to_vec(), b"test-chain-id".to_vec(), fees);
    let mut mempool = Mempool::new();
    let r = handle_check_tx(
        &b"tx".to_vec(),
        ParseOutcome::Parsed(valid_tx(0, b"test-chain-id")),
        &state,
        &mut mempool,
    );
    assert_eq!(r.code, ABCI_CODE_INTERNAL_ERROR);
    assert!(r.log.contains("data too large"));
    assert_eq!(mempool.len(), 0);
}

#[test]
fn removal_reason_wins_over_sufficient_everything() {
    // The signer is funded and fresh; only the cache entry rejects it.
    let mut state = test_state();
    let signer = state.try_base_prefixed(&signer_bytes());
    state.increase_balance(&signer, &nria().to_ibc_prefixed(), 1_000_000);
    let mut mempool = Mempool::new();
    let tx_bytes = b"tx-cached".to_vec();
    mempool.record_removal_comet_bft(sha256(&tx_bytes), RemovalReason::Expired);
    let r = handle_check_tx(
        &tx_bytes,
        ParseOutcome::Parsed(valid_tx(0, b"test-chain-id")),
        &state,
        &mut mempool,
    );
    assert_eq!(r.code, ABCI_CODE_TRANSACTION_EXPIRED);
}

#[test]
fn each_distinct_admission_grows_the_pool_by_one() {
    let state = test_state();
    let mut mempool = Mempool::new();
    let first = handle_check_tx(
        &b"tx-a".to_vec(),
        ParseOutcome::Parsed(valid_tx(0, b"test-chain-id")),
        &state,
        &mut mempool,
    );
    assert_eq!(first.code, ABCI_CODE_OK);
    assert_eq!(mempool.len(), 1);
    let second = handle_check_tx(
        &b"tx-b".to_vec(),
        ParseOutcome::Parsed(valid_tx(0, b"test-chain-id")),
        &state,
        &mut mempool,
    );
    assert_eq!(second.code, ABCI_CODE_OK);
    assert_eq!(mempool.len(), 2);
}

#[test]
fn nonce_check_precedes_the_removal_cache() {
    // The stages run in order: a stale nonce is reported even when the
    // hash also sits in the removal cache with another reason.
    let mut state = test_state();
    let signer = state.try_base_prefixed(&signer_bytes());
    state.put_account_nonce(&signer, 5);
    let mut mempool = Mempool::new();
    let tx_bytes = b"tx-stale-cached".to_vec();
    mempool.record_removal_comet_bft(sha256(&tx_bytes), RemovalReason::Expired);
    let r = handle_check_tx(
        &tx_bytes,
        ParseOutcome::Parsed(valid_tx(4, b"test-chain-id")),
        &state,
        &mut mempool,
    );
    assert_eq!(r.code, ABCI_CODE_INVALID_NONCE);
}
