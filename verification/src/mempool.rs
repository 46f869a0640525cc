use vstd::prelude::*;
use vstd::string::StringExecFns;

use std::sync::Arc;

use crate::amounts::AssetAmounts;
use crate::assets::bytes_eq;
use crate::transaction::SignedTransaction;

verus! {

/// Why a previously admitted transaction was later evicted from the
/// mempool by block-production paths.
pub enum RemovalReason {
    Expired,
    FailedPrepareProposal(String),
    NonceStale,
    LowerNonceInvalidated,
}

/// Two removal reasons carry the same variant and, for a failed proposal,
/// the same message.
pub open spec fn spec_reason_matches(a: RemovalReason, b: RemovalReason) -> bool {
    match (a, b) {
        (RemovalReason::Expired, RemovalReason::Expired) => true,
        (
            RemovalReason::FailedPrepareProposal(x),
            RemovalReason::FailedPrepareProposal(y),
        ) => x@ == y@,
        (RemovalReason::NonceStale, RemovalReason::NonceStale) => true,
        (RemovalReason::LowerNonceInvalidated, RemovalReason::LowerNonceInvalidated) => true,
        _ => false,
    }
}

impl Clone for RemovalReason {
    fn clone(&self) -> (r: Self)
        ensures
            spec_reason_matches(r, *self),
    {
        match self {
            RemovalReason::Expired => RemovalReason::Expired,
            RemovalReason::FailedPrepareProposal(msg) => RemovalReason::FailedPrepareProposal(
                msg.clone(),
            ),
            RemovalReason::NonceStale => RemovalReason::NonceStale,
            RemovalReason::LowerNonceInvalidated => RemovalReason::LowerNonceInvalidated,
        }
    }
}

/// An entry of the removal cache: the hash of the wire bytes and the
/// reason block production evicted the transaction.
pub struct RemovalCacheEntry {
    pub tx_hash: Vec<u8>,
    pub reason: RemovalReason,
}

/// One admitted transaction with the bookkeeping recorded at insertion.
pub struct MempoolEntry {
    pub tx_hash: Vec<u8>,
    pub signed_tx: Arc<SignedTransaction>,
    pub current_account_nonce: u32,
    pub account_balances: AssetAmounts,
    pub transaction_cost: AssetAmounts,
}

/// The mempool rejected an insertion; the only deterministic cause at
/// admission is a transaction whose hash is already present.
pub enum InsertionError {
    AlreadyPresent,
}

impl InsertionError {
    pub fn message(&self) -> (r: String)
        ensures
            r@ == "transaction already in mempool"@,
    {
        String::from_str("transaction already in mempool")
    }
}

/// First removal-cache entry of `s` recorded for `hash`.
pub open spec fn spec_lookup_removal(s: Seq<RemovalCacheEntry>, hash: Seq<u8>) -> Option<
    RemovalReason,
>
    decreases s.len(),
{
    if s.len() == 0 {
        None
    } else if s[0].tx_hash@ == hash {
        Some(s[0].reason)
    } else {
        spec_lookup_removal(s.drop_first(), hash)
    }
}

/// The application-level mempool surface the admission pipeline relies
/// on: insertion with at-most-once-per-hash semantics, the removal cache
/// written by block production, and the pool's cardinality.
pub struct Mempool {
    entries: Vec<MempoolEntry>,
    comet_bft_removal_cache: Vec<RemovalCacheEntry>,
}

impl Mempool {
    pub closed spec fn spec_entries(&self) -> Seq<MempoolEntry> {
        self.entries@
    }

    pub closed spec fn spec_removal_cache(&self) -> Seq<RemovalCacheEntry> {
        self.comet_bft_removal_cache@
    }

    /// A transaction with this wire-bytes hash is present.
    pub open spec fn spec_contains_hash(&self, hash: Seq<u8>) -> bool {
        exists|i: int|
            0 <= i < self.spec_entries().len() && (#[trigger] self.spec_entries()[i]).tx_hash@
                == hash
    }

    /// The removal reason recorded for this hash, if any.
    pub open spec fn spec_removal_reason(&self, hash: Seq<u8>) -> Option<RemovalReason> {
        spec_lookup_removal(self.spec_removal_cache(), hash)
    }

    pub fn new() -> (r: Mempool)
        ensures
            r.spec_entries().len() == 0,
            r.spec_removal_cache().len() == 0,
    {
        Mempool { entries: Vec::new(), comet_bft_removal_cache: Vec::new() }
    }

    /// Number of transactions currently in the pool.
    pub fn len(&self) -> (r: usize)
        ensures
            r == self.spec_entries().len(),
    {
        self.entries.len()
    }

    fn contains_hash(&self, hash: &Vec<u8>) -> (r: bool)
        ensures
            r == self.spec_contains_hash(hash@),
    {
        let mut i: usize = 0;
        while i < self.entries.len()
            invariant
                i <= self.entries@.len(),
                forall|j: int| 0 <= j < i ==> (#[trigger] self.entries@[j]).tx_hash@ != hash@,
            decreases self.entries@.len() - i,
        {
            if bytes_eq(&self.entries[i].tx_hash, hash) {
                proof {
                    assert((self.spec_entries()[i as int]).tx_hash@ == hash@);
                }
                return true;
            }
            i = i + 1;
        }
        false
    }

    /// Installs a transaction with its hash, the signer's current nonce,
    /// the signer's balance snapshot and the computed cost vector. Fails,
    /// changing nothing, when a transaction with the same hash is already
    /// present.
    pub fn insert(
        &mut self,
        signed_tx: Arc<SignedTransaction>,
        tx_hash: Vec<u8>,
        current_account_nonce: u32,
        account_balances: AssetAmounts,
        transaction_cost: AssetAmounts,
    ) -> (r: Result<(), InsertionError>)
        ensures
            final(self).spec_removal_cache() == old(self).spec_removal_cache(),
            match r {
                Ok(_) => {
                    &&& !old(self).spec_contains_hash(tx_hash@)
                    &&& final(self).spec_entries().len() == old(self).spec_entries().len() + 1
                    &&& final(self).spec_entries().drop_last() == old(self).spec_entries()
                    &&& final(self).spec_entries().last().tx_hash@ == tx_hash@
                    &&& final(self).spec_entries().last().signed_tx == signed_tx
                    &&& final(self).spec_entries().last().current_account_nonce
                        == current_account_nonce
                    &&& final(self).spec_entries().last().account_balances@ == account_balances@
                    &&& final(self).spec_entries().last().transaction_cost@ == transaction_cost@
                },
                Err(e) => old(self).spec_contains_hash(tx_hash@) && *final(self) == *old(self) && e
                    is AlreadyPresent,
            },
    {
        if self.contains_hash(&tx_hash) {
            return Err(InsertionError::AlreadyPresent);
        }
        let entry = MempoolEntry {
            tx_hash,
            signed_tx,
            current_account_nonce,
            account_balances,
            transaction_cost,
        };
        self.entries.push(entry);
        proof {
            assert(final(self).spec_entries().drop_last() =~= old(self).spec_entries());
        }
        Ok(())
    }

    /// The reason, if any, that a transaction with this hash was evicted
    /// after an earlier admission. The entry is read, not cleared.
    pub fn check_removed_comet_bft(&self, tx_hash: &Vec<u8>) -> (r: Option<RemovalReason>)
        ensures
            match r {
                Some(reason) => self.spec_removal_reason(tx_hash@) is Some && spec_reason_matches(
                    reason,
                    self.spec_removal_reason(tx_hash@).unwrap(),
                ),
                None => self.spec_removal_reason(tx_hash@) is None,
            },
    {
        let ghost s = self.comet_bft_removal_cache@;
        let mut i: usize = 0;
        proof {
            assert(s.skip(0) =~= s);
        }
        while i < self.comet_bft_removal_cache.len()
            invariant
                s == self.comet_bft_removal_cache@,
                i <= s.len(),
                spec_lookup_removal(s.skip(i as int), tx_hash@) == spec_lookup_removal(s, tx_hash@),
            decreases s.len() - i,
        {
            if bytes_eq(&self.comet_bft_removal_cache[i].tx_hash, tx_hash) {
                proof {
                    assert(s.skip(i as int)[0] == s[i as int]);
                }
                return Some(self.comet_bft_removal_cache[i].reason.clone());
            }
            proof {
                assert(s.skip(i as int)[0] == s[i as int]);
                assert(s.skip(i as int).drop_first() =~= s.skip(i + 1));
            }
            i = i + 1;
        }
        proof {
            assert(s.skip(s.len() as int).len() == 0);
        }
        None
    }

    /// Records, as the block-production paths do, why a transaction was
    /// evicted; admission later consults the record through
    /// `check_removed_comet_bft`.
    pub fn record_removal_comet_bft(&mut self, tx_hash: Vec<u8>, reason: RemovalReason)
        ensures
            final(self).spec_entries() == old(self).spec_entries(),
            final(self).spec_removal_cache().len() == old(self).spec_removal_cache().len() + 1,
            final(self).spec_removal_cache().drop_last() == old(self).spec_removal_cache(),
            final(self).spec_removal_cache().last().tx_hash@ == tx_hash@,
            final(self).spec_removal_cache().last().reason == reason,
    {
        self.comet_bft_removal_cache.push(RemovalCacheEntry { tx_hash, reason });
        proof {
            assert(final(self).spec_removal_cache().drop_last() =~= old(
                self,
            ).spec_removal_cache());
        }
    }
}

} // verus!
