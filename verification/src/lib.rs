//! The transaction-admission core of an application-layer blockchain node:
//! the CheckTx pipeline that decides whether a candidate signed transaction
//! may enter the application mempool, the per-asset transaction-cost
//! calculator, and the mempool interaction surface with its removal cache.

mod amounts;
mod api;
mod assets;
mod bridge;
mod checks;
mod digest;
mod mempool;
mod service;
mod state;
mod text;
mod transaction;

pub use amounts::{
    lemma_bump_never_decreases, lemma_saturating_add_caps, spec_bump, spec_cap, spec_sat_add,
    AssetAmounts,
};
pub use api::{readyz, spec_readyz_body, Readyz};
pub use assets::{bytes_eq, spec_ibc_display, spec_to_ibc_prefixed, AssetId, Denom};
pub use bridge::{calculate_base_deposit_fee, spec_deposit_byte_len, spec_varint_len, Deposit};
pub use checks::{
    calculate_fee_from_state, check_balance_for_total_fees_and_transfers, check_chain_id_mempool,
    check_nonce_mempool, get_fees_for_transaction, get_total_transaction_cost,
    lemma_cost_computation_pure, lemma_cost_keys_normalized, spec_action_names_key,
    spec_chain_id_ok, spec_fees_for_transaction, spec_nonce_ok, spec_sequence_fee,
    spec_total_transaction_cost, spec_tx_names_key, CheckBalanceError, CostError,
};
pub use digest::{sha256, sha256_of};
pub use mempool::{
    spec_lookup_removal, spec_reason_matches, InsertionError, Mempool, MempoolEntry,
    RemovalCacheEntry, RemovalReason,
};
pub use service::{
    handle_check_tx, lemma_admission_success_grows_pool, lemma_duplicate_admission_rejected,
    lemma_removal_cache_decides, spec_check_tx_code, spec_reason_code, spec_tx_too_large,
    tx_too_large, CheckTxResponse, ParseOutcome, ABCI_CODE_INTERNAL_ERROR,
    ABCI_CODE_INVALID_CHAIN_ID, ABCI_CODE_INVALID_NONCE, ABCI_CODE_INVALID_PARAMETER, ABCI_CODE_OK,
    ABCI_CODE_LOWER_NONCE_INVALIDATED, ABCI_CODE_TRANSACTION_EXPIRED, ABCI_CODE_TRANSACTION_FAILED,
    ABCI_CODE_TRANSACTION_INSERTION_FAILED, ABCI_CODE_TRANSACTION_TOO_LARGE, MAX_TX_SIZE,
};
pub use state::{
    spec_lookup_account, spec_lookup_bridge, Account, BridgeAccountAsset, FeeParams, Snapshot,
};
pub use text::{decimal_string, hex_string, spec_decimal, spec_digit, spec_hex, spec_hex_digit};
pub use transaction::{
    spec_bech32_len, Action, Address, BridgeLockAction, BridgeSudoChangeAction, BridgeUnlockAction,
    Ics20WithdrawalAction, InitBridgeAccountAction, SequenceAction, SignedTransaction,
    TransactionParams, TransferAction, UnsignedTransaction,
};
