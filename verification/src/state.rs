use vstd::prelude::*;

use crate::amounts::AssetAmounts;
use crate::assets::{bytes_eq, AssetId};
use crate::transaction::Address;

verus! {

/// The fee parameters configured in application state, all 128-bit.
#[derive(Clone, Copy)]
pub struct FeeParams {
    pub transfer_base_fee: u128,
    pub sequence_base_fee: u128,
    pub sequence_byte_cost_multiplier: u128,
    pub ics20_withdrawal_base_fee: u128,
    pub init_bridge_account_base_fee: u128,
    pub bridge_lock_byte_cost_multiplier: u128,
    pub bridge_sudo_change_base_fee: u128,
}

/// The state of one account: its address bytes, current nonce, and
/// per-asset balances.
pub struct Account {
    pub address_bytes: Vec<u8>,
    pub nonce: u32,
    pub balances: AssetAmounts,
}

/// The declared asset of a bridge account.
pub struct BridgeAccountAsset {
    pub address_bytes: Vec<u8>,
    pub asset: AssetId,
}

/// First account of `s` whose address bytes are `addr`.
pub open spec fn spec_lookup_account(s: Seq<Account>, addr: Seq<u8>) -> Option<Account>
    decreases s.len(),
{
    if s.len() == 0 {
        None
    } else if s[0].address_bytes@ == addr {
        Some(s[0])
    } else {
        spec_lookup_account(s.drop_first(), addr)
    }
}

/// First bridge-account entry of `s` whose address bytes are `addr`.
pub open spec fn spec_lookup_bridge(s: Seq<BridgeAccountAsset>, addr: Seq<u8>) -> Option<
    BridgeAccountAsset,
>
    decreases s.len(),
{
    if s.len() == 0 {
        None
    } else if s[0].address_bytes@ == addr {
        Some(s[0])
    } else {
        spec_lookup_bridge(s.drop_first(), addr)
    }
}

pub open spec fn spec_unique_accounts(s: Seq<Account>) -> bool {
    forall|i: int, j: int|
        0 <= i < j < s.len() ==> (#[trigger] s[i]).address_bytes@ != (#[trigger] s[
            j
        ]).address_bytes@
}

pub open spec fn spec_unique_bridge(s: Seq<BridgeAccountAsset>) -> bool {
    forall|i: int, j: int|
        0 <= i < j < s.len() ==> (#[trigger] s[i]).address_bytes@ != (#[trigger] s[
            j
        ]).address_bytes@
}

/// An immutable snapshot of the application state that one admission call
/// binds and reads throughout.
pub struct Snapshot {
    pub base_prefix: Vec<u8>,
    pub chain_id: Vec<u8>,
    pub fees: FeeParams,
    pub accounts: Vec<Account>,
    pub bridge_assets: Vec<BridgeAccountAsset>,
}

proof fn lemma_lookup_account_update(s: Seq<Account>, addr: Seq<u8>, i: int, a: Account)
    requires
        spec_unique_accounts(s),
        0 <= i < s.len(),
        a.address_bytes@ == s[i].address_bytes@,
    ensures
        spec_lookup_account(s.update(i, a), addr) == if addr == a.address_bytes@ {
            Some(a)
        } else {
            spec_lookup_account(s, addr)
        },
    decreases s.len(),
{
    let s2 = s.update(i, a);
    if s.len() == 0 {
    } else if i == 0 {
        if addr == a.address_bytes@ {
        } else {
            assert(s2.drop_first() =~= s.drop_first());
        }
    } else {
        assert(s2[0] == s[0]);
        if s[0].address_bytes@ == addr {
            assert(addr != a.address_bytes@);
        } else {
            assert(spec_unique_accounts(s.drop_first()));
            assert(s2.drop_first() =~= s.drop_first().update(i - 1, a));
            assert(s.drop_first()[i - 1] == s[i]);
            lemma_lookup_account_update(s.drop_first(), addr, i - 1, a);
        }
    }
}

proof fn lemma_lookup_account_push(s: Seq<Account>, addr: Seq<u8>, a: Account)
    ensures
        spec_lookup_account(s.push(a), addr) == if spec_lookup_account(s, addr) is Some {
            spec_lookup_account(s, addr)
        } else if addr == a.address_bytes@ {
            Some(a)
        } else {
            Option::<Account>::None
        },
    decreases s.len(),
{
    let s2 = s.push(a);
    if s.len() == 0 {
        assert(s2[0] == a);
        if addr != a.address_bytes@ {
            assert(s2.drop_first() =~= Seq::<Account>::empty());
        }
    } else {
        assert(s2[0] == s[0]);
        if s[0].address_bytes@ == addr {
        } else {
            assert(s2.drop_first() =~= s.drop_first().push(a));
            lemma_lookup_account_push(s.drop_first(), addr, a);
        }
    }
}

impl Snapshot {
    /// Every account and bridge entry listed once, with well-formed
    /// balances and asset identifiers.
    pub open spec fn wf(&self) -> bool {
        &&& spec_unique_accounts(self.accounts@)
        &&& forall|i: int|
            0 <= i < self.accounts@.len() ==> (#[trigger] self.accounts@[i]).balances.wf()
        &&& spec_unique_bridge(self.bridge_assets@)
        &&& forall|i: int|
            0 <= i < self.bridge_assets@.len() ==> (#[trigger] self.bridge_assets@[i]).asset.wf()
    }

    /// The current nonce of the account at `addr`; an absent account has
    /// nonce zero.
    pub open spec fn spec_nonce(&self, addr: Seq<u8>) -> u32 {
        match spec_lookup_account(self.accounts@, addr) {
            Some(a) => a.nonce,
            None => 0,
        }
    }

    /// The balance map of the account at `addr`; an absent account has no
    /// balances.
    pub open spec fn spec_balances(&self, addr: Seq<u8>) -> Map<Seq<u8>, u128> {
        match spec_lookup_account(self.accounts@, addr) {
            Some(a) => a.balances@,
            None => Map::<Seq<u8>, u128>::empty(),
        }
    }

    /// The balance of the account at `addr` in the normalized asset `k`;
    /// an unfunded asset has balance zero.
    pub open spec fn spec_balance(&self, addr: Seq<u8>, k: Seq<u8>) -> u128 {
        if self.spec_balances(addr).dom().contains(k) {
            self.spec_balances(addr)[k]
        } else {
            0
        }
    }

    /// The declared asset of the bridge account at `addr`, if it is one.
    pub open spec fn spec_bridge_asset(&self, addr: Seq<u8>) -> Option<Seq<u8>> {
        match spec_lookup_bridge(self.bridge_assets@, addr) {
            Some(b) => Some(b.asset@),
            None => None,
        }
    }

    pub fn new(base_prefix: Vec<u8>, chain_id: Vec<u8>, fees: FeeParams) -> (r: Snapshot)
        ensures
            r.wf(),
            r.base_prefix@ == base_prefix@,
            r.chain_id@ == chain_id@,
            r.fees == fees,
            r.accounts@.len() == 0,
            r.bridge_assets@.len() == 0,
    {
        Snapshot { base_prefix, chain_id, fees, accounts: Vec::new(), bridge_assets: Vec::new() }
    }

    pub fn get_chain_id(&self) -> (r: &Vec<u8>)
        ensures
            r@ == self.chain_id@,
    {
        &self.chain_id
    }

    /// Forms the address with the state-configured base prefix over the
    /// given verification-key address bytes.
    pub fn try_base_prefixed(&self, address_bytes: &Vec<u8>) -> (r: Address)
        ensures
            r.prefix@ == self.base_prefix@,
            r.bytes@ == address_bytes@,
    {
        Address { prefix: self.base_prefix.clone(), bytes: address_bytes.clone() }
    }

    fn find_account_index(&self, addr: &Vec<u8>) -> (r: Option<usize>)
        requires
            self.wf(),
        ensures
            match r {
                Some(i) => i < self.accounts@.len() && self.accounts@[i as int].address_bytes@
                    == addr@ && spec_lookup_account(self.accounts@, addr@) == Some(
                    self.accounts@[i as int],
                ),
                None => spec_lookup_account(self.accounts@, addr@) is None,
            },
    {
        let s = Ghost(self.accounts@);
        let mut i: usize = 0;
        proof {
            assert(s@.skip(0) =~= s@);
        }
        while i < self.accounts.len()
            invariant
                self.wf(),
                s@ == self.accounts@,
                i <= s@.len(),
                spec_lookup_account(s@.skip(i as int), addr@) == spec_lookup_account(s@, addr@),
            decreases s@.len() - i,
        {
            if bytes_eq(&self.accounts[i].address_bytes, addr) {
                proof {
                    assert(s@.skip(i as int)[0] == s@[i as int]);
                }
                return Some(i);
            }
            proof {
                assert(s@.skip(i as int)[0] == s@[i as int]);
                assert(s@.skip(i as int).drop_first() =~= s@.skip(i + 1));
            }
            i = i + 1;
        }
        proof {
            assert(s@.skip(s@.len() as int).len() == 0);
        }
        None
    }

    fn find_bridge_index(&self, addr: &Vec<u8>) -> (r: Option<usize>)
        requires
            self.wf(),
        ensures
            match r {
                Some(i) => i < self.bridge_assets@.len() && spec_lookup_bridge(
                    self.bridge_assets@,
                    addr@,
                ) == Some(self.bridge_assets@[i as int]),
                None => spec_lookup_bridge(self.bridge_assets@, addr@) is None,
            },
    {
        let s = Ghost(self.bridge_assets@);
        let mut i: usize = 0;
        proof {
            assert(s@.skip(0) =~= s@);
        }
        while i < self.bridge_assets.len()
            invariant
                self.wf(),
                s@ == self.bridge_assets@,
                i <= s@.len(),
                spec_lookup_bridge(s@.skip(i as int), addr@) == spec_lookup_bridge(s@, addr@),
            decreases s@.len() - i,
        {
            if bytes_eq(&self.bridge_assets[i].address_bytes, addr) {
                proof {
                    assert(s@.skip(i as int)[0] == s@[i as int]);
                }
                return Some(i);
            }
            proof {
                assert(s@.skip(i as int)[0] == s@[i as int]);
                assert(s@.skip(i as int).drop_first() =~= s@.skip(i + 1));
            }
            i = i + 1;
        }
        proof {
            assert(s@.skip(s@.len() as int).len() == 0);
        }
        None
    }

    /// The signer's current nonce, read from the snapshot.
    pub fn get_account_nonce(&self, address: &Address) -> (r: u32)
        requires
            self.wf(),
        ensures
            r == self.spec_nonce(address.bytes@),
    {
        match self.find_account_index(&address.bytes) {
            Some(i) => self.accounts[i].nonce,
            None => 0,
        }
    }

    /// The signer's balance in one normalized asset, read from the
    /// snapshot.
    pub fn get_account_balance(&self, address: &Address, asset: &AssetId) -> (r: u128)
        requires
            self.wf(),
    ensures
            r == self.spec_balance(address.bytes@, asset@),
    {
        match self.find_account_index(&address.bytes) {
            Some(i) => {
                match self.accounts[i].balances.get(asset) {
                    Some(v) => v,
                    None => 0,
                }
            },
            None => 0,
        }
    }

    /// The signer's full per-asset balance map, read from the snapshot.
    pub fn get_account_balances(&self, address: &Address) -> (r: AssetAmounts)
        requires
            self.wf(),
        ensures
            r.wf(),
            r@ == self.spec_balances(address.bytes@),
    {
        match self.find_account_index(&address.bytes) {
            Some(i) => self.accounts[i].balances.clone(),
            None => AssetAmounts::new(),
        }
    }

    /// The declared asset of the bridge account keyed by `addr`, if state
    /// records one.
    pub fn get_bridge_account_ibc_asset(&self, addr: &Vec<u8>) -> (r: Option<AssetId>)
        requires
            self.wf(),
        ensures
            match r {
                Some(a) => self.spec_bridge_asset(addr@) == Some(a@) && a.wf(),
                None => self.spec_bridge_asset(addr@) is None,
            },
    {
        match self.find_bridge_index(addr) {
            Some(i) => Some(self.bridge_assets[i].asset.clone()),
            None => None,
        }
    }

    /// Records the nonce of an account, creating it when absent.
    pub fn put_account_nonce(&mut self, address: &Address, nonce: u32)
        requires
            old(self).wf(),
        ensures
            final(self).wf(),
            final(self).spec_nonce(address.bytes@) == nonce,
            final(self).spec_balances(address.bytes@) == old(self).spec_balances(address.bytes@),
            forall|a: Seq<u8>|
                a != address.bytes@ ==> #[trigger] final(self).spec_nonce(a) == old(
                    self,
                ).spec_nonce(a) && final(self).spec_balances(a) == old(self).spec_balances(a),
            final(self).base_prefix@ == old(self).base_prefix@,
            final(self).chain_id@ == old(self).chain_id@,
            final(self).fees == old(self).fees,
            final(self).bridge_assets@ == old(self).bridge_assets@,
    {
        match self.find_account_index(&address.bytes) {
            Some(i) => {
                let ghost s0 = self.accounts@;
                let ghost updated = Account {
                    address_bytes: s0[i as int].address_bytes,
                    nonce,
                    balances: s0[i as int].balances,
                };
                self.accounts[i].nonce = nonce;
                proof {
                    assert(self.accounts@ =~= s0.update(i as int, updated));
                    assert forall|a: Seq<u8>| true implies spec_lookup_account(self.accounts@, a)
                        == if a == updated.address_bytes@ {
                        Some(updated)
                    } else {
                        spec_lookup_account(s0, a)
                    } by {
                        lemma_lookup_account_update(s0, a, i as int, updated);
                    }
                }
            },
            None => {
                let account = Account {
                    address_bytes: address.bytes.clone(),
                    nonce,
                    balances: AssetAmounts::new(),
                };
                let ghost s0 = self.accounts@;
                let ghost pushed = account;
                self.accounts.push(account);
                proof {
                    assert forall|a: Seq<u8>| true implies spec_lookup_account(self.accounts@, a)
                        == if spec_lookup_account(s0, a) is Some {
                        spec_lookup_account(s0, a)
                    } else if a == pushed.address_bytes@ {
                        Some(pushed)
                    } else {
                        Option::<Account>::None
                    } by {
                        lemma_lookup_account_push(s0, a, pushed);
                    }
                    assert forall|i2: int, j2: int|
                        0 <= i2 < j2 < self.accounts@.len() implies (#[trigger] self.accounts@[
                        i2
                    ]).address_bytes@ != (#[trigger] self.accounts@[j2]).address_bytes@ by {
                        if j2 == self.accounts@.len() - 1 {
                            lemma_lookup_contains(s0, i2);
                        }
                    }
                }
            },
        }
    }

    /// Raises the balance of an account in one asset, saturating, creating
    /// the account when absent. The asset is keyed in its normalized form.
    pub fn increase_balance(&mut self, address: &Address, asset: &AssetId, amount: u128)
        requires
            old(self).wf(),
            asset.wf(),
        ensures
            final(self).wf(),
            final(self).spec_balances(address.bytes@) == crate::amounts::spec_bump(
                old(self).spec_balances(address.bytes@),
                asset@,
                amount,
            ),
            final(self).spec_nonce(address.bytes@) == old(self).spec_nonce(address.bytes@),
            forall|a: Seq<u8>|
                a != address.bytes@ ==> #[trigger] final(self).spec_nonce(a) == old(
                    self,
                ).spec_nonce(a) && final(self).spec_balances(a) == old(self).spec_balances(a),
            final(self).base_prefix@ == old(self).base_prefix@,
            final(self).chain_id@ == old(self).chain_id@,
            final(self).fees == old(self).fees,
            final(self).bridge_assets@ == old(self).bridge_assets@,
    {
        match self.find_account_index(&address.bytes) {
            Some(i) => {
                let ghost s0 = self.accounts@;
                self.accounts[i].balances.add_saturating(asset.clone(), amount);
                let ghost updated = self.accounts@[i as int];
                proof {
                    assert(self.accounts@ =~= s0.update(i as int, updated));
                    assert forall|a: Seq<u8>| true implies spec_lookup_account(self.accounts@, a)
                        == if a == updated.address_bytes@ {
                        Some(updated)
                    } else {
                        spec_lookup_account(s0, a)
                    } by {
                        lemma_lookup_account_update(s0, a, i as int, updated);
                    }
                }
            },
            None => {
                let mut balances = AssetAmounts::new();
                balances.add_saturating(asset.clone(), amount);
                let account = Account { address_bytes: address.bytes.clone(), nonce: 0, balances };
                let ghost s0 = self.accounts@;
                let ghost pushed = account;
                self.accounts.push(account);
                proof {
                    assert forall|a: Seq<u8>| true implies spec_lookup_account(self.accounts@, a)
                        == if spec_lookup_account(s0, a) is Some {
                        spec_lookup_account(s0, a)
                    } else if a == pushed.address_bytes@ {
                        Some(pushed)
                    } else {
                        Option::<Account>::None
                    } by {
                        lemma_lookup_account_push(s0, a, pushed);
                    }
                    assert forall|i2: int, j2: int|
                        0 <= i2 < j2 < self.accounts@.len() implies (#[trigger] self.accounts@[
                        i2
                    ]).address_bytes@ != (#[trigger] self.accounts@[j2]).address_bytes@ by {
                        if j2 == self.accounts@.len() - 1 {
                            lemma_lookup_contains(s0, i2);
                        }
                    }
                }
            },
        }
    }

    /// Declares the asset of a bridge account; the entry must be new.
    pub fn put_bridge_account_ibc_asset(&mut self, addr: &Vec<u8>, asset: &AssetId)
        requires
            old(self).wf(),
            asset.wf(),
            old(self).spec_bridge_asset(addr@) is None,
        ensures
            final(self).wf(),
            final(self).spec_bridge_asset(addr@) == Some(asset@),
            forall|a: Seq<u8>|
                a != addr@ ==> #[trigger] final(self).spec_bridge_asset(a) == old(
                    self,
                ).spec_bridge_asset(a),
            final(self).accounts@ == old(self).accounts@,
            final(self).base_prefix@ == old(self).base_prefix@,
            final(self).chain_id@ == old(self).chain_id@,
            final(self).fees == old(self).fees,
    {
        let entry = BridgeAccountAsset { address_bytes: addr.clone(), asset: asset.clone() };
        let ghost s0 = self.bridge_assets@;
        let ghost pushed = entry;
        self.bridge_assets.push(entry);
        proof {
            assert forall|a: Seq<u8>| true implies spec_lookup_bridge(self.bridge_assets@, a)
                == if spec_lookup_bridge(s0, a) is Some {
                spec_lookup_bridge(s0, a)
            } else if a == pushed.address_bytes@ {
                Some(pushed)
            } else {
                Option::<BridgeAccountAsset>::None
            } by {
                lemma_lookup_bridge_push(s0, a, pushed);
            }
            assert forall|i2: int, j2: int|
                0 <= i2 < j2 < self.bridge_assets@.len() implies (#[trigger] self.bridge_assets@[
                i2
            ]).address_bytes@ != (#[trigger] self.bridge_assets@[j2]).address_bytes@ by {
                if j2 == self.bridge_assets@.len() - 1 {
                    lemma_lookup_bridge_contains(s0, i2);
                }
            }
        }
    }
}

proof fn lemma_lookup_contains(s: Seq<Account>, i: int)
    requires
        0 <= i < s.len(),
    ensures
        spec_lookup_account(s, s[i].address_bytes@) is Some,
    decreases s.len(),
{
    if i == 0 {
    } else if s[0].address_bytes@ == s[i].address_bytes@ {
    } else {
        assert(s.drop_first()[i - 1] == s[i]);
        lemma_lookup_contains(s.drop_first(), i - 1);
    }
}

proof fn lemma_lookup_bridge_contains(s: Seq<BridgeAccountAsset>, i: int)
    requires
        0 <= i < s.len(),
    ensures
        spec_lookup_bridge(s, s[i].address_bytes@) is Some,
    decreases s.len(),
{
    if i == 0 {
    } else if s[0].address_bytes@ == s[i].address_bytes@ {
    } else {
        assert(s.drop_first()[i - 1] == s[i]);
        lemma_lookup_bridge_contains(s.drop_first(), i - 1);
    }
}

proof fn lemma_lookup_bridge_push(s: Seq<BridgeAccountAsset>, addr: Seq<u8>, a: BridgeAccountAsset)
    ensures
        spec_lookup_bridge(s.push(a), addr) == if spec_lookup_bridge(s, addr) is Some {
            spec_lookup_bridge(s, addr)
        } else if addr == a.address_bytes@ {
            Some(a)
        } else {
            Option::<BridgeAccountAsset>::None
        },
    decreases s.len(),
{
    let s2 = s.push(a);
    if s.len() == 0 {
        assert(s2[0] == a);
        if addr != a.address_bytes@ {
            assert(s2.drop_first() =~= Seq::<BridgeAccountAsset>::empty());
        }
    } else {
        assert(s2[0] == s[0]);
        if s[0].address_bytes@ == addr {
        } else {
            assert(s2.drop_first() =~= s.drop_first().push(a));
            lemma_lookup_bridge_push(s.drop_first(), addr, a);
        }
    }
}

} // verus!
