use vstd::prelude::*;
use vstd::string::StringExecFns;

use std::sync::Arc;

use crate::checks::{
    get_total_transaction_cost, spec_chain_id_ok, spec_fees_for_transaction, spec_nonce_ok,
    spec_total_transaction_cost, CostError,
};
use crate::digest::{sha256, sha256_of};
use crate::mempool::{Mempool, RemovalReason};
use crate::state::Snapshot;
use crate::text::{decimal_string, spec_decimal};
use crate::transaction::SignedTransaction;

verus! {

/// Maximum accepted wire size of a transaction, in bytes.
pub const MAX_TX_SIZE: usize = 256_000;

/// Success.
pub const ABCI_CODE_OK: u32 = 0;

/// The wire size exceeds the limit.
pub const ABCI_CODE_TRANSACTION_TOO_LARGE: u32 = 1;

/// Decode, signature, or stateless-check failure.
pub const ABCI_CODE_INVALID_PARAMETER: u32 = 2;

/// The nonce is below the signer's current nonce, or the transaction was
/// evicted for a stale nonce.
pub const ABCI_CODE_INVALID_NONCE: u32 = 3;

/// The transaction's chain identifier is not this chain's.
pub const ABCI_CODE_INVALID_CHAIN_ID: u32 = 4;

/// The transaction expired in the application mempool.
pub const ABCI_CODE_TRANSACTION_EXPIRED: u32 = 5;

/// The transaction failed execution during proposal preparation.
pub const ABCI_CODE_TRANSACTION_FAILED: u32 = 6;

/// A lower nonce of the signer was invalidated.
pub const ABCI_CODE_LOWER_NONCE_INVALIDATED: u32 = 7;

/// The mempool rejected the insertion.
pub const ABCI_CODE_TRANSACTION_INSERTION_FAILED: u32 = 8;

/// An unexpected failure while reading state.
pub const ABCI_CODE_INTERNAL_ERROR: u32 = 9;

/// True when a payload of `len` bytes exceeds the admission size limit.
pub open spec fn spec_tx_too_large(len: nat) -> bool {
    len > MAX_TX_SIZE
}

/// Size gate of the admission pipeline: decides whether a payload is too
/// large before any decoding work is spent on it.
pub fn tx_too_large(len: usize) -> (r: bool)
    ensures
        r == spec_tx_too_large(len as nat),
{
    len > MAX_TX_SIZE
}

/// The ABCI response of one admission call: a status code from the fixed
/// taxonomy, a short stable `info` tag, and a human-readable `log`.
pub struct CheckTxResponse {
    pub code: u32,
    pub info: String,
    pub log: String,
}

/// What the wire codec made of the payload. Decoding and signature
/// verification are the codec's own concern; the pipeline consumes its
/// verdict.
pub enum ParseOutcome {
    /// The bytes were not a protobuf-encoded signed transaction.
    DecodeFailed(String),
    /// Decoded, but not a valid signed transaction, or the signature was
    /// invalid.
    InvalidSignedTx(String),
    /// A structurally valid signed transaction.
    Parsed(SignedTransaction),
}

/// The response code that a stored removal reason translates to.
pub open spec fn spec_reason_code(r: RemovalReason) -> u32 {
    match r {
        RemovalReason::Expired => ABCI_CODE_TRANSACTION_EXPIRED,
        RemovalReason::FailedPrepareProposal(_) => ABCI_CODE_TRANSACTION_FAILED,
        RemovalReason::NonceStale => ABCI_CODE_INVALID_NONCE,
        RemovalReason::LowerNonceInvalidated => ABCI_CODE_LOWER_NONCE_INVALIDATED,
    }
}

/// The status code of one admission call, stage by stage: the size gate,
/// the codec's verdict, the stateless check, nonce freshness, chain
/// identity, the removal cache, the cost computation, and at-most-once
/// insertion.
pub open spec fn spec_check_tx_code(
    tx_bytes: Seq<u8>,
    parsed: ParseOutcome,
    state: Snapshot,
    pool: Mempool,
) -> u32 {
    if tx_bytes.len() > MAX_TX_SIZE {
        ABCI_CODE_TRANSACTION_TOO_LARGE
    } else {
        match parsed {
            ParseOutcome::DecodeFailed(_) => ABCI_CODE_INVALID_PARAMETER,
            ParseOutcome::InvalidSignedTx(_) => ABCI_CODE_INVALID_PARAMETER,
            ParseOutcome::Parsed(t) => {
                if !t.spec_stateless_ok() {
                    ABCI_CODE_INVALID_PARAMETER
                } else if !spec_nonce_ok(t, state) {
                    ABCI_CODE_INVALID_NONCE
                } else if !spec_chain_id_ok(t, state) {
                    ABCI_CODE_INVALID_CHAIN_ID
                } else {
                    match pool.spec_removal_reason(sha256_of(tx_bytes)) {
                        Some(reason) => spec_reason_code(reason),
                        None => {
                            if spec_total_transaction_cost(t, state) is None {
                                ABCI_CODE_INTERNAL_ERROR
                            } else if pool.spec_contains_hash(sha256_of(tx_bytes)) {
                                ABCI_CODE_TRANSACTION_INSERTION_FAILED
                            } else {
                                ABCI_CODE_OK
                            }
                        },
                    }
                }
            },
        }
    }
}

/// Handles one CheckTx request: every stage of the admission pipeline
/// after the wire codec, in order, each able to short-circuit with its
/// typed rejection; on success the transaction enters the mempool with
/// the signer's nonce, balance snapshot and cost vector.
///
/// A failure reading state would be classified as an internal error; in
/// this model the only fallible reads are the cost computation's.
pub fn handle_check_tx(
    tx: &Vec<u8>,
    parsed: ParseOutcome,
    state: &Snapshot,
    mempool: &mut Mempool,
) -> (r: CheckTxResponse)
    requires
        state.wf(),
        parsed matches ParseOutcome::Parsed(t) ==> t.wf(),
    ensures
        r.code == spec_check_tx_code(tx@, parsed, *state, *old(mempool)),
        r.code != ABCI_CODE_OK ==> *final(mempool) == *old(mempool),
        r.code == ABCI_CODE_OK ==> {
            &&& parsed matches ParseOutcome::Parsed(t)
            &&& final(mempool).spec_removal_cache() == old(mempool).spec_removal_cache()
            &&& final(mempool).spec_entries().len() == old(mempool).spec_entries().len() + 1
            &&& final(mempool).spec_entries().drop_last() == old(mempool).spec_entries()
            &&& final(mempool).spec_entries().last().tx_hash@ == sha256_of(tx@)
            &&& final(mempool).spec_entries().last().signed_tx == t
            &&& final(mempool).spec_entries().last().current_account_nonce == state.spec_nonce(
                t.address_bytes@,
            )
            &&& final(mempool).spec_entries().last().account_balances@ == state.spec_balances(
                t.address_bytes@,
            )
            &&& final(mempool).spec_entries().last().transaction_cost@
                == spec_total_transaction_cost(t, *state).unwrap()
        },
        spec_tx_too_large(tx@.len()) ==> r.info@ == "transaction too large"@ && r.log@
            == "transaction size too large; allowed: "@ + spec_decimal(MAX_TX_SIZE as nat)
            + " bytes, got "@ + spec_decimal(tx@.len()),
        !spec_tx_too_large(tx@.len()) ==> match parsed {
            ParseOutcome::DecodeFailed(msg) => r.info@
                == "failed decoding bytes as a protobuf SignedTransaction"@ && r.log@ == msg@,
            ParseOutcome::InvalidSignedTx(msg) => r.info@
                == "the provided bytes was not a valid protobuf-encoded SignedTransaction, or the signature was invalid"@
                && r.log@ == msg@,
            ParseOutcome::Parsed(t) => {
                &&& !t.spec_stateless_ok() ==> r.info@ == "transaction failed stateless check"@
                    && r.log@ == "transaction has no actions"@
                &&& t.spec_stateless_ok() && !spec_nonce_ok(t, *state) ==> r.info@
                    == "failed verifying transaction nonce"@ && r.log@
                    == "nonce already used by account"@
                &&& t.spec_stateless_ok() && spec_nonce_ok(t, *state) && !spec_chain_id_ok(
                    t,
                    *state,
                ) ==> r.info@ == "failed verifying chain id"@ && r.log@ == "chain id mismatch"@
            },
        },
        r.code == ABCI_CODE_TRANSACTION_EXPIRED ==> r.info@ == "transaction expired in app's mempool"@
            && r.log@ == "Transaction expired in the app's mempool"@,
        r.code == ABCI_CODE_TRANSACTION_FAILED ==> r.info@
            == "transaction failed execution in prepare_proposal()"@ && r.log@
            == "transaction failed execution because: "@ + old(mempool).spec_removal_reason(
            sha256_of(tx@),
        ).unwrap()->FailedPrepareProposal_0@,
        ({
            &&& !spec_tx_too_large(tx@.len())
            &&& parsed matches ParseOutcome::Parsed(t)
            &&& t.spec_stateless_ok()
            &&& spec_nonce_ok(t, *state)
            &&& spec_chain_id_ok(t, *state)
            &&& old(mempool).spec_removal_reason(sha256_of(tx@)) matches Some(
                RemovalReason::NonceStale,
            )
        }) ==> r.info@ == "transaction removed from app mempool due to stale nonce"@ && r.log@
            == "Transaction from app mempool due to stale nonce"@,
        r.code == ABCI_CODE_LOWER_NONCE_INVALIDATED ==> r.info@
            == "transaction removed from app mempool due to lower nonce being invalidated"@
            && r.log@
            == "Transaction removed from app mempool due to lower nonce being invalidated"@,
        r.code == ABCI_CODE_INTERNAL_ERROR ==> r.info@ == "internal error"@ && r.log@
            == "failed to fetch cost of the transaction because: "@ + (
        if parsed matches ParseOutcome::Parsed(t) && spec_fees_for_transaction(t.body, state.fees)
            is None {
            "fee for sequence action overflowed; data too large"@
        } else {
            "failed to get bridge account asset id"@
        }),
        r.code == ABCI_CODE_TRANSACTION_INSERTION_FAILED ==> r.info@
            == "transaction insertion failed"@ && r.log@
            == "transaction insertion failed because: "@ + "transaction already in mempool"@,
        r.code == ABCI_CODE_OK ==> r.info@.len() == 0 && r.log@.len() == 0,
{
    let tx_hash = sha256(tx.as_slice());
    let tx_len = tx.len();

    if tx_len > MAX_TX_SIZE {
        let mut log = String::from_str("transaction size too large; allowed: ");
        log.append(decimal_string(MAX_TX_SIZE).as_str());
        log.append(" bytes, got ");
        log.append(decimal_string(tx_len).as_str());
        return CheckTxResponse {
            code: ABCI_CODE_TRANSACTION_TOO_LARGE,
            info: String::from_str("transaction too large"),
            log,
        };
    }

    let signed_tx = match parsed {
        ParseOutcome::DecodeFailed(msg) => {
            return CheckTxResponse {
                code: ABCI_CODE_INVALID_PARAMETER,
                info: String::from_str("failed decoding bytes as a protobuf SignedTransaction"),
                log: msg,
            };
        },
        ParseOutcome::InvalidSignedTx(msg) => {
            return CheckTxResponse {
                code: ABCI_CODE_INVALID_PARAMETER,
                info: String::from_str(
                    "the provided bytes was not a valid protobuf-encoded SignedTransaction, or the signature was invalid",
                ),
                log: msg,
            };
        },
        ParseOutcome::Parsed(t) => t,
    };

    if !signed_tx.check_stateless() {
        return CheckTxResponse {
            code: ABCI_CODE_INVALID_PARAMETER,
            info: String::from_str("transaction failed stateless check"),
            log: String::from_str("transaction has no actions"),
        };
    }

    if !crate::checks::check_nonce_mempool(&signed_tx, state) {
        return CheckTxResponse {
            code: ABCI_CODE_INVALID_NONCE,
            info: String::from_str("failed verifying transaction nonce"),
            log: String::from_str("nonce already used by account"),
        };
    }

    if !crate::checks::check_chain_id_mempool(&signed_tx, state) {
        return CheckTxResponse {
            code: ABCI_CODE_INVALID_CHAIN_ID,
            info: String::from_str("failed verifying chain id"),
            log: String::from_str("chain id mismatch"),
        };
    }

    match mempool.check_removed_comet_bft(&tx_hash) {
        Some(removal_reason) => {
            match removal_reason {
                RemovalReason::Expired => {
                    return CheckTxResponse {
                        code: ABCI_CODE_TRANSACTION_EXPIRED,
                        info: String::from_str("transaction expired in app's mempool"),
                        log: String::from_str("Transaction expired in the app's mempool"),
                    };
                },
                RemovalReason::FailedPrepareProposal(err) => {
                    let mut log = String::from_str("transaction failed execution because: ");
                    log.append(err.as_str());
                    return CheckTxResponse {
                        code: ABCI_CODE_TRANSACTION_FAILED,
                        info: String::from_str(
                            "transaction failed execution in prepare_proposal()",
                        ),
                        log,
                    };
                },
                RemovalReason::NonceStale => {
                    return CheckTxResponse {
                        code: ABCI_CODE_INVALID_NONCE,
                        info: String::from_str(
                            "transaction removed from app mempool due to stale nonce",
                        ),
                        log: String::from_str("Transaction from app mempool due to stale nonce"),
                    };
                },
                RemovalReason::LowerNonceInvalidated => {
                    return CheckTxResponse {
                        code: ABCI_CODE_LOWER_NONCE_INVALIDATED,
                        info: String::from_str(
                            "transaction removed from app mempool due to lower nonce being invalidated",
                        ),
                        log: String::from_str(
                            "Transaction removed from app mempool due to lower nonce being invalidated",
                        ),
                    };
                },
            }
        },
        None => {},
    }

    let address = state.try_base_prefixed(signed_tx.verification_key_address_bytes());
    let current_account_nonce = state.get_account_nonce(&address);

    let transaction_cost = match get_total_transaction_cost(&signed_tx, state) {
        Ok(cost) => cost,
        Err(e) => {
            let mut log = String::from_str("failed to fetch cost of the transaction because: ");
            match e {
                CostError::SequenceFeeOverflow => {
                    log.append("fee for sequence action overflowed; data too large");
                },
                CostError::BridgeAssetMissing => {
                    log.append("failed to get bridge account asset id");
                },
            }
            return CheckTxResponse {
                code: ABCI_CODE_INTERNAL_ERROR,
                info: String::from_str("internal error"),
                log,
            };
        },
    };

    let current_account_balance = state.get_account_balances(&address);

    match mempool.insert(
        Arc::new(signed_tx),
        tx_hash,
        current_account_nonce,
        current_account_balance,
        transaction_cost,
    ) {
        Ok(_) => {},
        Err(err) => {
            let mut log = String::from_str("transaction insertion failed because: ");
            log.append(err.message().as_str());
            return CheckTxResponse {
                code: ABCI_CODE_TRANSACTION_INSERTION_FAILED,
                info: String::from_str("transaction insertion failed"),
                log,
            };
        },
    }

    CheckTxResponse { code: ABCI_CODE_OK, info: String::new(), log: String::new() }
}

/// An accepted transaction grows the mempool by exactly one entry, whose
/// hash is the payload's digest.
pub proof fn lemma_admission_success_grows_pool(
    tx_bytes: Seq<u8>,
    parsed: ParseOutcome,
    state: Snapshot,
    before: Mempool,
    after: Mempool,
)
    requires
        spec_check_tx_code(tx_bytes, parsed, state, before) == ABCI_CODE_OK,
        after.spec_entries().len() == before.spec_entries().len() + 1,
        after.spec_entries().drop_last() == before.spec_entries(),
        after.spec_entries().last().tx_hash@ == sha256_of(tx_bytes),
    ensures
        after.spec_contains_hash(sha256_of(tx_bytes)),
        !before.spec_contains_hash(sha256_of(tx_bytes)),
{
    assert(after.spec_entries()[after.spec_entries().len() - 1].tx_hash@ == sha256_of(tx_bytes));
}

/// A transaction whose hash is present in the removal cache is rejected
/// with the code of the stored reason, whatever the signer's balances;
/// the stages before the cache (size, codec, stateless, nonce, chain
/// identity) must pass for the lookup to be reached.
pub proof fn lemma_removal_cache_decides(
    tx_bytes: Seq<u8>,
    t: SignedTransaction,
    state: Snapshot,
    pool: Mempool,
)
    requires
        tx_bytes.len() <= MAX_TX_SIZE,
        t.spec_stateless_ok(),
        spec_nonce_ok(t, state),
        spec_chain_id_ok(t, state),
        pool.spec_removal_reason(sha256_of(tx_bytes)) is Some,
    ensures
        spec_check_tx_code(tx_bytes, ParseOutcome::Parsed(t), state, pool) == spec_reason_code(
            pool.spec_removal_reason(sha256_of(tx_bytes)).unwrap(),
        ),
{
}

/// Admitting the same payload twice in succession fails: the second call
/// is rejected as a duplicate insertion.
pub proof fn lemma_duplicate_admission_rejected(
    tx_bytes: Seq<u8>,
    parsed: ParseOutcome,
    state: Snapshot,
    before: Mempool,
    after: Mempool,
)
    requires
        spec_check_tx_code(tx_bytes, parsed, state, before) == ABCI_CODE_OK,
        after.spec_removal_cache() == before.spec_removal_cache(),
        after.spec_entries().len() == before.spec_entries().len() + 1,
        after.spec_entries().drop_last() == before.spec_entries(),
        after.spec_entries().last().tx_hash@ == sha256_of(tx_bytes),
    ensures
        spec_check_tx_code(tx_bytes, parsed, state, after)
            == ABCI_CODE_TRANSACTION_INSERTION_FAILED,
{
    lemma_admission_success_grows_pool(tx_bytes, parsed, state, before, after);
}

} // verus!
