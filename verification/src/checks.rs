use vstd::prelude::*;
use vstd::string::StringExecFns;

use crate::amounts::{spec_bump, spec_cap, spec_sat_add, AssetAmounts};
use crate::assets::{spec_ibc_display, spec_to_ibc_prefixed, AssetId, Denom};
use crate::bridge::{
    calculate_base_deposit_fee, spec_deposit_byte_len, spec_embedded_field, spec_len_field,
    spec_uint128_body, spec_varint_len, Deposit,
};
use crate::state::{FeeParams, Snapshot};
use crate::transaction::{
    spec_bech32_len, Action, BridgeLockAction, SignedTransaction, UnsignedTransaction,
};

verus! {

/// Why a cost computation failed: the sequence-action fee overflowed (a
/// hard rejection of pathological input size), or the snapshot records no
/// declared asset for the bridge account a bridge unlock draws on.
#[derive(Debug)]
pub enum CostError {
    SequenceFeeOverflow,
    BridgeAssetMissing,
}

impl CostError {
    /// A one-line rendering for operator logs.
    pub fn message(&self) -> (r: String)
        ensures
            match self {
                CostError::SequenceFeeOverflow => r@ == "fee for sequence action overflowed; data too large"@,
                CostError::BridgeAssetMissing => r@ == "failed to get bridge account asset id"@,
            },
    {
        match self {
            CostError::SequenceFeeOverflow => String::from_str(
                "fee for sequence action overflowed; data too large",
            ),
            CostError::BridgeAssetMissing => String::from_str(
                "failed to get bridge account asset id",
            ),
        }
    }
}

/// The transaction's declared nonce is fresh: at least the signer's
/// current nonce in the snapshot.
pub open spec fn spec_nonce_ok(tx: SignedTransaction, s: Snapshot) -> bool {
    tx.spec_nonce() >= s.spec_nonce(tx.address_bytes@)
}

/// The transaction names exactly the chain the snapshot belongs to.
pub open spec fn spec_chain_id_ok(tx: SignedTransaction, s: Snapshot) -> bool {
    tx.spec_chain_id() == s.chain_id@
}

/// The nonce-freshness check of the admission pipeline: the signer's
/// address is formed with the state's base prefix and its current nonce
/// read from the snapshot.
pub fn check_nonce_mempool(tx: &SignedTransaction, state: &Snapshot) -> (r: bool)
    requires
        state.wf(),
    ensures
        r == spec_nonce_ok(*tx, *state),
{
    let signer_address = state.try_base_prefixed(tx.verification_key_address_bytes());
    let curr_nonce = state.get_account_nonce(&signer_address);
    tx.nonce() >= curr_nonce
}

/// The chain-identity check of the admission pipeline: exact equality
/// with the snapshot's chain identifier.
pub fn check_chain_id_mempool(tx: &SignedTransaction, state: &Snapshot) -> (r: bool)
    ensures
        r == spec_chain_id_ok(*tx, *state),
{
    crate::assets::bytes_eq(tx.chain_id(), state.get_chain_id())
}

/// The fee of a sequence action posting `data_len` bytes: base plus length
/// times multiplier, a hard error when the sum exceeds 128 bits.
pub open spec fn spec_sequence_fee(p: FeeParams, data_len: nat) -> Option<u128> {
    if p.sequence_byte_cost_multiplier * data_len + p.sequence_base_fee > u128::MAX {
        None
    } else {
        Some((p.sequence_byte_cost_multiplier * data_len + p.sequence_base_fee) as u128)
    }
}

/// Fee of the sequence action, computed against the snapshot's fee
/// parameters; fails when the fee would overflow.
pub fn calculate_fee_from_state(data: &Vec<u8>, state: &Snapshot) -> (r: Option<u128>)
    ensures
        r == spec_sequence_fee(state.fees, data@.len()),
{
    let mult = state.fees.sequence_byte_cost_multiplier;
    let base = state.fees.sequence_base_fee;
    match mult.checked_mul(data.len() as u128) {
        Some(x) => x.checked_add(base),
        None => None,
    }
}

/// Canonical wire size of the synthetic deposit record a bridge lock at
/// action index `i` would create: only the lock's own fields vary; the
/// synthetic rollup identifier and source transaction identifier are
/// fixed 32-byte values.
pub open spec fn spec_synthetic_deposit_len(act: BridgeLockAction, i: nat) -> nat {
    spec_embedded_field(spec_len_field(spec_bech32_len(act.to)))
        + spec_embedded_field(spec_len_field(32))
        + spec_embedded_field(spec_uint128_body(act.amount))
        + spec_len_field(act.asset.spec_display_len())
        + spec_len_field(act.destination_chain_address@.len())
        + spec_embedded_field(spec_len_field(64))
        + (if i == 0 {
            0nat
        } else {
            1 + spec_varint_len(i)
        })
}

/// The full fee of a bridge lock at action index `i`: the transfer base
/// fee plus the deposit's wire size times the byte-cost multiplier, both
/// steps saturating.
pub open spec fn spec_bridge_lock_fee(
    act: BridgeLockAction,
    transfer_fee: u128,
    byte_cost_multiplier: u128,
    i: nat,
) -> u128 {
    spec_sat_add(
        transfer_fee,
        spec_cap((spec_synthetic_deposit_len(act, i) * byte_cost_multiplier) as nat),
    )
}

/// One action's fee contribution folded into the running cost map.
pub open spec fn spec_action_fees(
    m: Map<Seq<u8>, u128>,
    a: Action,
    p: FeeParams,
    i: nat,
) -> Option<Map<Seq<u8>, u128>> {
    match a {
        Action::Transfer(act) => Some(
            spec_bump(m, spec_to_ibc_prefixed(act.fee_asset), p.transfer_base_fee),
        ),
        Action::Sequence(act) => match spec_sequence_fee(p, act.data@.len()) {
            None => None,
            Some(fee) => Some(spec_bump(m, spec_to_ibc_prefixed(act.fee_asset), fee)),
        },
        Action::Ics20Withdrawal(act) => Some(
            spec_bump(m, spec_to_ibc_prefixed(act.fee_asset), p.ics20_withdrawal_base_fee),
        ),
        Action::InitBridgeAccount(act) => Some(
            spec_bump(m, spec_to_ibc_prefixed(act.fee_asset), p.init_bridge_account_base_fee),
        ),
        Action::BridgeLock(act) => Some(
            spec_bump(
                m,
                spec_to_ibc_prefixed(act.asset),
                spec_bridge_lock_fee(
                    act,
                    p.transfer_base_fee,
                    p.bridge_lock_byte_cost_multiplier,
                    i,
                ),
            ),
        ),
        Action::BridgeUnlock(act) => Some(
            spec_bump(m, spec_to_ibc_prefixed(act.fee_asset), p.transfer_base_fee),
        ),
        Action::BridgeSudoChange(act) => Some(
            spec_bump(m, spec_to_ibc_prefixed(act.fee_asset), p.bridge_sudo_change_base_fee),
        ),
        _ => Some(m),
    }
}

/// The fee map after the first `n` actions.
pub open spec fn spec_fees_prefix(actions: Seq<Action>, p: FeeParams, n: int) -> Option<
    Map<Seq<u8>, u128>,
>
    decreases n,
{
    if n <= 0 {
        Some(Map::<Seq<u8>, u128>::empty())
    } else {
        match spec_fees_prefix(actions, p, n - 1) {
            None => None,
            Some(m) => spec_action_fees(m, actions[n - 1], p, (n - 1) as nat),
        }
    }
}

/// The per-asset fees a transaction body owes, or nothing when a sequence
/// fee overflows.
pub open spec fn spec_fees_for_transaction(tx: UnsignedTransaction, p: FeeParams) -> Option<
    Map<Seq<u8>, u128>,
> {
    spec_fees_prefix(tx.actions@, p, tx.actions@.len() as int)
}

/// One action's moved value folded into the running cost map; a bridge
/// unlock draws on the bridge account's declared asset, keyed by the
/// transaction signer.
pub open spec fn spec_action_value(
    m: Map<Seq<u8>, u128>,
    a: Action,
    s: Snapshot,
    signer: Seq<u8>,
) -> Option<Map<Seq<u8>, u128>> {
    match a {
        Action::Transfer(act) => Some(spec_bump(m, spec_to_ibc_prefixed(act.asset), act.amount)),
        Action::Ics20Withdrawal(act) => Some(
            spec_bump(m, spec_to_ibc_prefixed(act.denom), act.amount),
        ),
        Action::BridgeLock(act) => Some(spec_bump(m, spec_to_ibc_prefixed(act.asset), act.amount)),
        Action::BridgeUnlock(act) => match s.spec_bridge_asset(signer) {
            None => None,
            Some(k) => Some(spec_bump(m, k, act.amount)),
        },
        _ => Some(m),
    }
}

/// The cost map after folding the moved values of the first `n` actions
/// into `m0`.
pub open spec fn spec_values_prefix(
    actions: Seq<Action>,
    s: Snapshot,
    signer: Seq<u8>,
    n: int,
    m0: Map<Seq<u8>, u128>,
) -> Option<Map<Seq<u8>, u128>>
    decreases n,
{
    if n <= 0 {
        Some(m0)
    } else {
        match spec_values_prefix(actions, s, signer, n - 1, m0) {
            None => None,
            Some(m) => spec_action_value(m, actions[n - 1], s, signer),
        }
    }
}

/// The total per-asset cost of a signed transaction: its fees plus every
/// value it moves. Nothing when a sequence fee overflows or a bridge
/// unlock's account declares no asset.
pub open spec fn spec_total_transaction_cost(tx: SignedTransaction, s: Snapshot) -> Option<
    Map<Seq<u8>, u128>,
> {
    match spec_fees_for_transaction(tx.body, s.fees) {
        None => None,
        Some(m) => spec_values_prefix(
            tx.body.actions@,
            s,
            tx.address_bytes@,
            tx.body.actions@.len() as int,
            m,
        ),
    }
}

proof fn lemma_fees_prefix_none(actions: Seq<Action>, p: FeeParams, n: int, n2: int)
    requires
        spec_fees_prefix(actions, p, n) is None,
        n <= n2,
    ensures
        spec_fees_prefix(actions, p, n2) is None,
    decreases n2 - n,
{
    if n < n2 {
        lemma_fees_prefix_none(actions, p, n, n2 - 1);
    }
}

proof fn lemma_values_prefix_none(
    actions: Seq<Action>,
    s: Snapshot,
    signer: Seq<u8>,
    n: int,
    n2: int,
    m0: Map<Seq<u8>, u128>,
)
    requires
        spec_values_prefix(actions, s, signer, n, m0) is None,
        n <= n2,
    ensures
        spec_values_prefix(actions, s, signer, n2, m0) is None,
    decreases n2 - n,
{
    if n < n2 {
        lemma_values_prefix_none(actions, s, signer, n, n2 - 1, m0);
    }
}

fn transfer_update_fees(fee_asset: &Denom, fees_by_asset: &mut AssetAmounts, transfer_fee: u128)
    requires
        old(fees_by_asset).wf(),
        fee_asset.wf(),
    ensures
        final(fees_by_asset).wf(),
        final(fees_by_asset)@ == spec_bump(
            old(fees_by_asset)@,
            spec_to_ibc_prefixed(*fee_asset),
            transfer_fee,
        ),
{
    fees_by_asset.add_saturating(fee_asset.to_ibc_prefixed(), transfer_fee);
}

fn sequence_update_fees(
    state: &Snapshot,
    fee_asset: &Denom,
    fees_by_asset: &mut AssetAmounts,
    data: &Vec<u8>,
) -> (r: Result<(), CostError>)
    requires
        old(fees_by_asset).wf(),
        fee_asset.wf(),
    ensures
        final(fees_by_asset).wf(),
        match r {
            Ok(_) => spec_sequence_fee(state.fees, data@.len()) is Some && final(fees_by_asset)@
                == spec_bump(
                old(fees_by_asset)@,
                spec_to_ibc_prefixed(*fee_asset),
                spec_sequence_fee(state.fees, data@.len()).unwrap(),
            ),
            Err(e) => spec_sequence_fee(state.fees, data@.len()) is None && e
                is SequenceFeeOverflow && *final(fees_by_asset) == *old(fees_by_asset),
        },
{
    match calculate_fee_from_state(data, state) {
        Some(fee) => {
            fees_by_asset.add_saturating(fee_asset.to_ibc_prefixed(), fee);
            Ok(())
        },
        None => Err(CostError::SequenceFeeOverflow),
    }
}

fn ics20_withdrawal_updates_fees(
    fee_asset: &Denom,
    fees_by_asset: &mut AssetAmounts,
    ics20_withdrawal_fee: u128,
)
    requires
        old(fees_by_asset).wf(),
        fee_asset.wf(),
    ensures
        final(fees_by_asset).wf(),
        final(fees_by_asset)@ == spec_bump(
            old(fees_by_asset)@,
            spec_to_ibc_prefixed(*fee_asset),
            ics20_withdrawal_fee,
        ),
{
    fees_by_asset.add_saturating(fee_asset.to_ibc_prefixed(), ics20_withdrawal_fee);
}

/// Builds a vector of `n` zero bytes, standing in for the synthetic
/// 32-byte identifiers of the deposit record.
fn zero_bytes(n: usize) -> (r: Vec<u8>)
    ensures
        r@.len() == n,
{
    let mut v: Vec<u8> = Vec::new();
    let mut i: usize = 0;
    while i < n
        invariant
            v@.len() == i,
            i <= n,
        decreases n - i,
    {
        v.push(0);
        i = i + 1;
    }
    v
}

fn bridge_lock_update_fees(
    act: &BridgeLockAction,
    fees_by_asset: &mut AssetAmounts,
    transfer_fee: u128,
    bridge_lock_byte_cost_multiplier: u128,
    tx_index_of_action: u64,
)
    requires
        old(fees_by_asset).wf(),
        act.asset.wf(),
    ensures
        final(fees_by_asset).wf(),
        final(fees_by_asset)@ == spec_bump(
            old(fees_by_asset)@,
            spec_to_ibc_prefixed(act.asset),
            spec_bridge_lock_fee(
                *act,
                transfer_fee,
                bridge_lock_byte_cost_multiplier,
                tx_index_of_action as nat,
            ),
        ),
{
    let deposit = Deposit {
        bridge_address: act.to.clone(),
        rollup_id: zero_bytes(32),
        amount: act.amount,
        asset: act.asset.clone(),
        destination_chain_address: act.destination_chain_address.clone(),
        source_transaction_id: zero_bytes(32),
        source_action_index: tx_index_of_action,
    };
    let deposit_len = calculate_base_deposit_fee(&deposit);
    proof {
        assert(spec_deposit_byte_len(deposit) == spec_synthetic_deposit_len(
            *act,
            tx_index_of_action as nat,
        ));
    }
    let byte_fee: u128 = match deposit_len.checked_mul(bridge_lock_byte_cost_multiplier) {
        Some(x) => x,
        None => u128::MAX,
    };
    let expected_deposit_fee = transfer_fee.saturating_add(byte_fee);
    fees_by_asset.add_saturating(act.asset.to_ibc_prefixed(), expected_deposit_fee);
}

fn bridge_unlock_update_fees(fee_asset: &Denom, fees_by_asset: &mut AssetAmounts, transfer_fee: u128)
    requires
        old(fees_by_asset).wf(),
        fee_asset.wf(),
    ensures
        final(fees_by_asset).wf(),
        final(fees_by_asset)@ == spec_bump(
            old(fees_by_asset)@,
            spec_to_ibc_prefixed(*fee_asset),
            transfer_fee,
        ),
{
    fees_by_asset.add_saturating(fee_asset.to_ibc_prefixed(), transfer_fee);
}

/// Computes the per-asset fees of a transaction body against the
/// snapshot's fee parameters, walking the actions in declared order.
pub fn get_fees_for_transaction(tx: &UnsignedTransaction, state: &Snapshot) -> (r: Result<
    AssetAmounts,
    CostError,
>)
    requires
        tx.wf(),
    ensures
        match r {
            Ok(fees) => fees.wf() && spec_fees_for_transaction(*tx, state.fees) == Some(fees@),
            Err(e) => spec_fees_for_transaction(*tx, state.fees) is None && e
                is SequenceFeeOverflow,
        },
{
    let transfer_fee = state.fees.transfer_base_fee;
    let ics20_withdrawal_fee = state.fees.ics20_withdrawal_base_fee;
    let init_bridge_account_fee = state.fees.init_bridge_account_base_fee;
    let bridge_lock_byte_cost_multiplier = state.fees.bridge_lock_byte_cost_multiplier;
    let bridge_sudo_change_fee = state.fees.bridge_sudo_change_base_fee;

    let mut fees_by_asset = AssetAmounts::new();
    let mut i: usize = 0;
    while i < tx.actions.len()
        invariant
            tx.wf(),
            i <= tx.actions@.len(),
            fees_by_asset.wf(),
            spec_fees_prefix(tx.actions@, state.fees, i as int) == Some(fees_by_asset@),
            transfer_fee == state.fees.transfer_base_fee,
            ics20_withdrawal_fee == state.fees.ics20_withdrawal_base_fee,
            init_bridge_account_fee == state.fees.init_bridge_account_base_fee,
            bridge_lock_byte_cost_multiplier == state.fees.bridge_lock_byte_cost_multiplier,
            bridge_sudo_change_fee == state.fees.bridge_sudo_change_base_fee,
        decreases tx.actions@.len() - i,
    {
        assert(tx.actions@[i as int].wf());
        match &tx.actions[i] {
            Action::Transfer(act) => {
                transfer_update_fees(&act.fee_asset, &mut fees_by_asset, transfer_fee);
            },
            Action::Sequence(act) => {
                match sequence_update_fees(state, &act.fee_asset, &mut fees_by_asset, &act.data) {
                    Ok(_) => {},
                    Err(e) => {
                        proof {
                            lemma_fees_prefix_none(
                                tx.actions@,
                                state.fees,
                                i + 1,
                                tx.actions@.len() as int,
                            );
                        }
                        return Err(e);
                    },
                }
            },
            Action::Ics20Withdrawal(act) => {
                ics20_withdrawal_updates_fees(
                    &act.fee_asset,
                    &mut fees_by_asset,
                    ics20_withdrawal_fee,
                );
            },
            Action::InitBridgeAccount(act) => {
                fees_by_asset.add_saturating(
                    act.fee_asset.to_ibc_prefixed(),
                    init_bridge_account_fee,
                );
            },
            Action::BridgeLock(act) => {
                bridge_lock_update_fees(
                    act,
                    &mut fees_by_asset,
                    transfer_fee,
                    bridge_lock_byte_cost_multiplier,
                    i as u64,
                );
            },
            Action::BridgeUnlock(act) => {
                bridge_unlock_update_fees(&act.fee_asset, &mut fees_by_asset, transfer_fee);
            },
            Action::BridgeSudoChange(act) => {
                fees_by_asset.add_saturating(
                    act.fee_asset.to_ibc_prefixed(),
                    bridge_sudo_change_fee,
                );
            },
            _ => {},
        }
        i = i + 1;
    }
    Ok(fees_by_asset)
}

/// Computes the total cost of a signed transaction: its fees plus the
/// values its actions move, every aggregation step saturating.
pub fn get_total_transaction_cost(tx: &SignedTransaction, state: &Snapshot) -> (r: Result<
    AssetAmounts,
    CostError,
>)
    requires
        tx.wf(),
        state.wf(),
    ensures
        match r {
            Ok(cost) => cost.wf() && spec_total_transaction_cost(*tx, *state) == Some(cost@),
            Err(CostError::SequenceFeeOverflow) => spec_fees_for_transaction(tx.body, state.fees)
                is None && spec_total_transaction_cost(*tx, *state) is None,
            Err(CostError::BridgeAssetMissing) => spec_fees_for_transaction(tx.body, state.fees)
                is Some && spec_total_transaction_cost(*tx, *state) is None,
        },
{
    let mut cost_by_asset = match get_fees_for_transaction(tx.unsigned_transaction(), state) {
        Ok(fees) => fees,
        Err(e) => {
            return Err(e);
        },
    };
    let ghost m0 = cost_by_asset@;

    let mut i: usize = 0;
    while i < tx.body.actions.len()
        invariant
            tx.wf(),
            state.wf(),
            i <= tx.body.actions@.len(),
            cost_by_asset.wf(),
            spec_values_prefix(tx.body.actions@, *state, tx.address_bytes@, i as int, m0) == Some(
                cost_by_asset@,
            ),
            spec_fees_for_transaction(tx.body, state.fees) == Some(m0),
        decreases tx.body.actions@.len() - i,
    {
        assert(tx.body.actions@[i as int].wf());
        match &tx.body.actions[i] {
            Action::Transfer(act) => {
                cost_by_asset.add_saturating(act.asset.to_ibc_prefixed(), act.amount);
            },
            Action::Ics20Withdrawal(act) => {
                cost_by_asset.add_saturating(act.denom.to_ibc_prefixed(), act.amount);
            },
            Action::BridgeLock(act) => {
                cost_by_asset.add_saturating(act.asset.to_ibc_prefixed(), act.amount);
            },
            Action::BridgeUnlock(act) => {
                match state.get_bridge_account_ibc_asset(&tx.address_bytes) {
                    Some(asset) => {
                        cost_by_asset.add_saturating(asset, act.amount);
                    },
                    None => {
                        proof {
                            lemma_values_prefix_none(
                                tx.body.actions@,
                                *state,
                                tx.address_bytes@,
                                i + 1,
                                tx.body.actions@.len() as int,
                                m0,
                            );
                        }
                        return Err(CostError::BridgeAssetMissing);
                    },
                }
            },
            _ => {},
        }
        i = i + 1;
    }
    Ok(cost_by_asset)
}

/// The normalized key `k` belongs to an asset this action names: its fee
/// asset, its moved asset, or — for a bridge unlock — the bridge
/// account's declared asset read from the snapshot.
pub open spec fn spec_action_names_key(a: Action, s: Snapshot, signer: Seq<u8>, k: Seq<u8>) -> bool {
    match a {
        Action::Transfer(act) => k == spec_to_ibc_prefixed(act.asset) || k == spec_to_ibc_prefixed(
            act.fee_asset,
        ),
        Action::Sequence(act) => k == spec_to_ibc_prefixed(act.fee_asset),
        Action::Ics20Withdrawal(act) => k == spec_to_ibc_prefixed(act.denom) || k
            == spec_to_ibc_prefixed(act.fee_asset),
        Action::InitBridgeAccount(act) => k == spec_to_ibc_prefixed(act.fee_asset),
        Action::BridgeLock(act) => k == spec_to_ibc_prefixed(act.asset),
        Action::BridgeUnlock(act) => k == spec_to_ibc_prefixed(act.fee_asset) || s.spec_bridge_asset(
            signer,
        ) == Some(k),
        Action::BridgeSudoChange(act) => k == spec_to_ibc_prefixed(act.fee_asset),
        _ => false,
    }
}

/// The normalized key `k` belongs to an asset some action of the
/// transaction names.
pub open spec fn spec_tx_names_key(t: SignedTransaction, s: Snapshot, k: Seq<u8>) -> bool {
    exists|i: int|
        0 <= i < t.body.actions@.len() && #[trigger] spec_action_names_key(
            t.body.actions@[i],
            s,
            t.address_bytes@,
            k,
        )
}

proof fn lemma_fees_prefix_keys(
    actions: Seq<Action>,
    p: FeeParams,
    s: Snapshot,
    signer: Seq<u8>,
    n: int,
    k: Seq<u8>,
)
    requires
        n <= actions.len(),
        spec_fees_prefix(actions, p, n) is Some,
        spec_fees_prefix(actions, p, n).unwrap().dom().contains(k),
    ensures
        exists|i: int|
            0 <= i < n && #[trigger] spec_action_names_key(actions[i], s, signer, k),
    decreases n,
{
    if n <= 0 {
    } else {
        let prev = spec_fees_prefix(actions, p, n - 1).unwrap();
        if prev.dom().contains(k) {
            lemma_fees_prefix_keys(actions, p, s, signer, n - 1, k);
        } else {
            assert(spec_action_names_key(actions[n - 1], s, signer, k));
        }
    }
}

proof fn lemma_values_prefix_keys(
    actions: Seq<Action>,
    s: Snapshot,
    signer: Seq<u8>,
    n: int,
    m0: Map<Seq<u8>, u128>,
    k: Seq<u8>,
)
    requires
        n <= actions.len(),
        spec_values_prefix(actions, s, signer, n, m0) is Some,
        spec_values_prefix(actions, s, signer, n, m0).unwrap().dom().contains(k),
    ensures
        m0.dom().contains(k) || exists|i: int|
            0 <= i < n && #[trigger] spec_action_names_key(actions[i], s, signer, k),
    decreases n,
{
    if n <= 0 {
    } else {
        let prev = spec_values_prefix(actions, s, signer, n - 1, m0).unwrap();
        if prev.dom().contains(k) {
            lemma_values_prefix_keys(actions, s, signer, n - 1, m0, k);
        } else {
            assert(spec_action_names_key(actions[n - 1], s, signer, k));
        }
    }
}

/// Asset normalization: every key of a returned cost vector is the
/// IBC-prefixed form of an asset the transaction names.
pub proof fn lemma_cost_keys_normalized(t: SignedTransaction, s: Snapshot)
    requires
        spec_total_transaction_cost(t, s) is Some,
    ensures
        forall|k: Seq<u8>|
            spec_total_transaction_cost(t, s).unwrap().dom().contains(k)
                ==> #[trigger] spec_tx_names_key(t, s, k),
{
    let actions = t.body.actions@;
    let signer = t.address_bytes@;
    let m0 = spec_fees_for_transaction(t.body, s.fees).unwrap();
    assert forall|k: Seq<u8>|
        spec_total_transaction_cost(t, s).unwrap().dom().contains(k) implies #[trigger] spec_tx_names_key(
        t,
        s,
        k,
    ) by {
        lemma_values_prefix_keys(actions, s, signer, actions.len() as int, m0, k);
        if m0.dom().contains(k) {
            lemma_fees_prefix_keys(actions, s.fees, s, signer, actions.len() as int, k);
        }
    }
}

/// Purity: the cost of a transaction is a function of the transaction and
/// the bound snapshot alone; equal inputs give equal cost vectors,
/// whatever the order or interleaving of the calls.
pub proof fn lemma_cost_computation_pure(
    t1: SignedTransaction,
    t2: SignedTransaction,
    s1: Snapshot,
    s2: Snapshot,
)
    requires
        t1 == t2,
        s1 == s2,
    ensures
        spec_total_transaction_cost(t1, s1) == spec_total_transaction_cost(t2, s2),
{
}

/// Why the balance-sufficiency helper rejected a transaction.
pub enum CheckBalanceError {
    Cost(CostError),
    InsufficientFunds(AssetId),
}

impl CheckBalanceError {
    /// A one-line rendering; an insufficient balance names the offending
    /// asset in its IBC-prefixed form.
    pub fn message(&self) -> (r: String)
        ensures
            match self {
                CheckBalanceError::Cost(e) => match e {
                    CostError::SequenceFeeOverflow => r@ == "fee for sequence action overflowed; data too large"@,
                    CostError::BridgeAssetMissing => r@ == "failed to get bridge account asset id"@,
                },
                CheckBalanceError::InsufficientFunds(a) => r@ == "insufficient funds for asset "@
                    + spec_ibc_display(a@),
            },
    {
        match self {
            CheckBalanceError::Cost(e) => e.message(),
            CheckBalanceError::InsufficientFunds(a) => {
                let r = String::from_str("insufficient funds for asset ").concat(
                    a.display_string().as_str(),
                );
                r
            },
        }
    }
}

/// Checks that the signer's balances cover the transaction's total cost,
/// asset by asset. The admission pipeline itself does not call this; it
/// stores the balance snapshot and leaves the decision to later
/// scheduling.
pub fn check_balance_for_total_fees_and_transfers(tx: &SignedTransaction, state: &Snapshot) -> (r:
    Result<(), CheckBalanceError>)
    requires
        tx.wf(),
        state.wf(),
    ensures
        match r {
            Ok(_) => {
                &&& spec_total_transaction_cost(*tx, *state) is Some
                &&& forall|k: Seq<u8>|
                    spec_total_transaction_cost(*tx, *state).unwrap().dom().contains(k)
                        ==> state.spec_balance(tx.address_bytes@, k)
                        >= #[trigger] spec_total_transaction_cost(*tx, *state).unwrap()[k]
            },
            Err(CheckBalanceError::Cost(e)) => spec_total_transaction_cost(*tx, *state) is None,
            Err(CheckBalanceError::InsufficientFunds(a)) => {
                &&& spec_total_transaction_cost(*tx, *state) is Some
                &&& a.wf()
                &&& spec_total_transaction_cost(*tx, *state).unwrap().dom().contains(a@)
                &&& state.spec_balance(tx.address_bytes@, a@) < spec_total_transaction_cost(
                    *tx,
                    *state,
                ).unwrap()[a@]
            },
        },
{
    let cost_by_asset = match get_total_transaction_cost(tx, state) {
        Ok(cost) => cost,
        Err(e) => {
            return Err(CheckBalanceError::Cost(e));
        },
    };
    let address = state.try_base_prefixed(tx.verification_key_address_bytes());

    let n = cost_by_asset.len();
    let mut i: usize = 0;
    while i < n
        invariant
            tx.wf(),
            state.wf(),
            cost_by_asset.wf(),
            spec_total_transaction_cost(*tx, *state) == Some(cost_by_asset@),
            n == cost_by_asset.spec_entries().len(),
            i <= n,
            address.bytes@ == tx.address_bytes@,
            forall|j: int|
                0 <= j < i ==> state.spec_balance(
                    tx.address_bytes@,
                    (#[trigger] cost_by_asset.spec_entries()[j]).0@,
                ) >= cost_by_asset.spec_entries()[j].1,
        decreases n - i,
    {
        let (asset, total_fee) = cost_by_asset.entry_at(i);
        let balance = state.get_account_balance(&address, &asset);
        proof {
            cost_by_asset.lemma_entries_agree(i as int);
        }
        if balance < total_fee {
            return Err(CheckBalanceError::InsufficientFunds(asset));
        }
        i = i + 1;
    }
    proof {
        assert forall|k: Seq<u8>| cost_by_asset@.dom().contains(k) implies state.spec_balance(
            tx.address_bytes@,
            k,
        ) >= cost_by_asset@[k] by {
            cost_by_asset.lemma_key_listed(k);
            let j = choose|j: int|
                0 <= j < cost_by_asset.spec_entries().len() && (#[trigger] cost_by_asset
                    .spec_entries()[j]).0@ == k;
            cost_by_asset.lemma_entries_agree(j);
        }
    }
    Ok(())
}

} // verus!
