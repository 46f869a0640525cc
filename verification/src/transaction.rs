use vstd::prelude::*;

use crate::assets::Denom;

verus! {

/// A bech32m account address: the raw address bytes derived from a
/// verification key, together with the human-readable prefix that the
/// application state configures.
pub struct Address {
    pub prefix: Vec<u8>,
    pub bytes: Vec<u8>,
}

/// Byte length of the bech32m rendering of an address: prefix, separator,
/// five bits per data character, and the six-character checksum.
pub open spec fn spec_bech32_len(a: Address) -> nat {
    a.prefix@.len() + 1 + (a.bytes@.len() * 8 + 4) / 5 + 6
}

impl Clone for Address {
    fn clone(&self) -> (r: Self)
        ensures
            r.prefix@ == self.prefix@,
            r.bytes@ == self.bytes@,
    {
        Address { prefix: self.prefix.clone(), bytes: self.bytes.clone() }
    }
}

/// Moves `amount` of `asset` to another account; the base fee is charged
/// on `fee_asset`.
pub struct TransferAction {
    pub to: Address,
    pub amount: u128,
    pub asset: Denom,
    pub fee_asset: Denom,
}

/// Posts `data` to a rollup; the fee grows with the byte length of `data`.
pub struct SequenceAction {
    pub rollup_id: Vec<u8>,
    pub data: Vec<u8>,
    pub fee_asset: Denom,
}

/// Withdraws `amount` of `denom` over IBC.
pub struct Ics20WithdrawalAction {
    pub amount: u128,
    pub denom: Denom,
    pub fee_asset: Denom,
}

pub struct InitBridgeAccountAction {
    pub fee_asset: Denom,
}

/// Locks `amount` of `asset` for a bridge account; charged the transfer
/// base fee plus a fee proportional to the wire size of the deposit record
/// it creates.
pub struct BridgeLockAction {
    pub to: Address,
    pub amount: u128,
    pub asset: Denom,
    pub fee_asset: Denom,
    pub destination_chain_address: Vec<u8>,
}

/// Releases `amount` from a bridge account; the moved value is denominated
/// in the bridge account's declared asset, read from state.
pub struct BridgeUnlockAction {
    pub amount: u128,
    pub fee_asset: Denom,
}

pub struct BridgeSudoChangeAction {
    pub fee_asset: Denom,
}

/// One action of a transaction. The first seven variants bear fees; the
/// remaining governance and IBC variants contribute no cost.
pub enum Action {
    Transfer(TransferAction),
    Sequence(SequenceAction),
    Ics20Withdrawal(Ics20WithdrawalAction),
    InitBridgeAccount(InitBridgeAccountAction),
    BridgeLock(BridgeLockAction),
    BridgeUnlock(BridgeUnlockAction),
    BridgeSudoChange(BridgeSudoChangeAction),
    ValidatorUpdate,
    SudoAddressChange,
    IbcSudoChange,
    Ibc,
    IbcRelayerChange,
    FeeAssetChange,
    FeeChange,
}

impl Action {
    pub open spec fn wf(&self) -> bool {
        match self {
            Action::Transfer(act) => act.asset.wf() && act.fee_asset.wf(),
            Action::Sequence(act) => act.fee_asset.wf(),
            Action::Ics20Withdrawal(act) => act.denom.wf() && act.fee_asset.wf(),
            Action::InitBridgeAccount(act) => act.fee_asset.wf(),
            Action::BridgeLock(act) => act.asset.wf() && act.fee_asset.wf(),
            Action::BridgeUnlock(act) => act.fee_asset.wf(),
            Action::BridgeSudoChange(act) => act.fee_asset.wf(),
            _ => true,
        }
    }
}

/// Nonce and chain identifier of a transaction body.
pub struct TransactionParams {
    pub nonce: u32,
    pub chain_id: Vec<u8>,
}

/// The unsigned body of a transaction: its parameters and its ordered
/// actions.
pub struct UnsignedTransaction {
    pub actions: Vec<Action>,
    pub params: TransactionParams,
}

impl UnsignedTransaction {
    pub open spec fn wf(&self) -> bool {
        forall|i: int| 0 <= i < self.actions@.len() ==> (#[trigger] self.actions@[i]).wf()
    }
}

/// A structurally valid signed transaction, as the wire decoder hands it
/// over: the unsigned body plus the signer's address bytes, which the
/// decoder derives from the verification key.
pub struct SignedTransaction {
    pub address_bytes: Vec<u8>,
    pub body: UnsignedTransaction,
}

impl SignedTransaction {
    pub open spec fn wf(&self) -> bool {
        self.body.wf()
    }

    pub open spec fn spec_nonce(&self) -> u32 {
        self.body.params.nonce
    }

    pub open spec fn spec_chain_id(&self) -> Seq<u8> {
        self.body.params.chain_id@
    }

    /// True when the transaction passes every check derivable from the
    /// transaction alone; at minimum its action list must not be empty.
    pub open spec fn spec_stateless_ok(&self) -> bool {
        self.body.actions@.len() > 0
    }

    pub fn nonce(&self) -> (r: u32)
        ensures
            r == self.spec_nonce(),
    {
        self.body.params.nonce
    }

    pub fn chain_id(&self) -> (r: &Vec<u8>)
        ensures
            r@ == self.spec_chain_id(),
    {
        &self.body.params.chain_id
    }

    pub fn actions(&self) -> (r: &Vec<Action>)
        ensures
            r@ == self.body.actions@,
    {
        &self.body.actions
    }

    pub fn unsigned_transaction(&self) -> (r: &UnsignedTransaction)
        ensures
            r == &self.body,
    {
        &self.body
    }

    pub fn verification_key_address_bytes(&self) -> (r: &Vec<u8>)
        ensures
            r@ == self.address_bytes@,
    {
        &self.address_bytes
    }

    /// The stateless validity check of the admission pipeline.
    pub fn check_stateless(&self) -> (r: bool)
        ensures
            r == self.spec_stateless_ok(),
    {
        self.body.actions.len() > 0
    }
}

} // verus!
