use vstd::prelude::*;

use crate::assets::AssetId;

verus! {

/// Saturating 128-bit addition: the aggregate sticks at the maximum instead
/// of wrapping or failing.
pub open spec fn spec_sat_add(a: u128, b: u128) -> u128 {
    if a + b > u128::MAX {
        u128::MAX
    } else {
        (a + b) as u128
    }
}

/// Caps a mathematical amount at the 128-bit maximum.
pub open spec fn spec_cap(n: nat) -> u128 {
    if n > u128::MAX {
        u128::MAX
    } else {
        n as u128
    }
}

/// Adds `v` to the entry of `m` at key `k`, saturating, or installs `v`
/// if the key is absent. This is the one way cost vectors are aggregated.
pub open spec fn spec_bump(m: Map<Seq<u8>, u128>, k: Seq<u8>, v: u128) -> Map<Seq<u8>, u128> {
    if m.dom().contains(k) {
        m.insert(k, spec_sat_add(m[k], v))
    } else {
        m.insert(k, v)
    }
}

/// Aggregation saturates: a component sum that would exceed the 128-bit
/// maximum yields exactly the maximum, and an aggregate never decreases.
pub proof fn lemma_saturating_add_caps(a: u128, b: u128)
    ensures
        a + b > u128::MAX ==> spec_sat_add(a, b) == u128::MAX,
        a + b <= u128::MAX ==> spec_sat_add(a, b) == a + b,
        spec_sat_add(a, b) >= a,
        spec_sat_add(a, b) >= b,
{
}

/// No cost entry ever decreases across aggregation: bumping a key leaves
/// every present entry at least as large as before.
pub proof fn lemma_bump_never_decreases(m: Map<Seq<u8>, u128>, k: Seq<u8>, v: u128)
    ensures
        forall|k2: Seq<u8>|
            m.dom().contains(k2) ==> spec_bump(m, k, v).dom().contains(k2)
                && #[trigger] spec_bump(m, k, v)[k2] >= m[k2],
{
}

pub open spec fn spec_seq_to_map(s: Seq<(AssetId, u128)>) -> Map<Seq<u8>, u128>
    decreases s.len(),
{
    if s.len() == 0 {
        Map::<Seq<u8>, u128>::empty()
    } else {
        spec_seq_to_map(s.drop_last()).insert(s.last().0@, s.last().1)
    }
}

/// The association list holds each normalized asset at most once, and each
/// key is a well-formed 32-byte identifier.
pub open spec fn spec_unique_keys(s: Seq<(AssetId, u128)>) -> bool {
    &&& forall|i: int, j: int| 0 <= i < j < s.len() ==> s[i].0@ != s[j].0@
    &&& forall|i: int| 0 <= i < s.len() ==> (#[trigger] s[i].0).wf()
}

proof fn lemma_contained_key(s: Seq<(AssetId, u128)>, i: int)
    requires
        0 <= i < s.len(),
    ensures
        spec_seq_to_map(s).dom().contains(s[i].0@),
    decreases s.len(),
{
    if i == s.len() - 1 {
    } else {
        lemma_contained_key(s.drop_last(), i);
        assert(s.drop_last()[i] == s[i]);
    }
}

proof fn lemma_key_source(s: Seq<(AssetId, u128)>, k: Seq<u8>)
    requires
        spec_seq_to_map(s).dom().contains(k),
    ensures
        exists|i: int| 0 <= i < s.len() && s[i].0@ == k,
    decreases s.len(),
{
    if s.len() == 0 {
    } else if s.last().0@ == k {
        assert(s[s.len() - 1].0@ == k);
    } else {
        lemma_key_source(s.drop_last(), k);
        let i = choose|i: int| 0 <= i < s.drop_last().len() && s.drop_last()[i].0@ == k;
        assert(s[i].0@ == k);
    }
}

proof fn lemma_lookup_value(s: Seq<(AssetId, u128)>, i: int)
    requires
        spec_unique_keys(s),
        0 <= i < s.len(),
    ensures
        spec_seq_to_map(s).dom().contains(s[i].0@),
        spec_seq_to_map(s)[s[i].0@] == s[i].1,
    decreases s.len(),
{
    lemma_contained_key(s, i);
    if i == s.len() - 1 {
    } else {
        assert(spec_unique_keys(s.drop_last()));
        assert(s.drop_last()[i] == s[i]);
        lemma_lookup_value(s.drop_last(), i);
        assert(s.last().0@ != s[i].0@);
    }
}

proof fn lemma_update_value(s: Seq<(AssetId, u128)>, i: int, p: (AssetId, u128))
    requires
        spec_unique_keys(s),
        0 <= i < s.len(),
        p.0@ == s[i].0@,
    ensures
        spec_seq_to_map(s.update(i, p)) =~= spec_seq_to_map(s).insert(p.0@, p.1),
    decreases s.len(),
{
    if i == s.len() - 1 {
        assert(s.update(i, p).drop_last() =~= s.drop_last());
        assert(s.update(i, p).last() == p);
    } else {
        assert(spec_unique_keys(s.drop_last()));
        assert(s.drop_last().update(i, p) =~= s.update(i, p).drop_last());
        lemma_update_value(s.drop_last(), i, p);
        assert(s.update(i, p).last() == s.last());
        assert(s.last().0@ != s[i].0@);
    }
}

proof fn lemma_push_value(s: Seq<(AssetId, u128)>, p: (AssetId, u128))
    ensures
        spec_seq_to_map(s.push(p)) =~= spec_seq_to_map(s).insert(p.0@, p.1),
{
    assert(s.push(p).drop_last() =~= s);
    assert(s.push(p).last() == p);
}

/// A mapping from normalized asset identifier to a 128-bit amount: the
/// representation of both cost vectors and per-asset balance snapshots.
pub struct AssetAmounts {
    entries: Vec<(AssetId, u128)>,
}

impl View for AssetAmounts {
    type V = Map<Seq<u8>, u128>;

    closed spec fn view(&self) -> Map<Seq<u8>, u128> {
        spec_seq_to_map(self.entries@)
    }
}

impl AssetAmounts {
    pub closed spec fn spec_entries(&self) -> Seq<(AssetId, u128)> {
        self.entries@
    }

    pub open spec fn wf(&self) -> bool {
        spec_unique_keys(self.spec_entries())
    }

    /// Each listed entry is the map's entry for its key.
    pub proof fn lemma_entries_agree(&self, i: int)
        requires
            self.wf(),
            0 <= i < self.spec_entries().len(),
        ensures
            self@.dom().contains(self.spec_entries()[i].0@),
            self@[self.spec_entries()[i].0@] == self.spec_entries()[i].1,
    {
        lemma_lookup_value(self.spec_entries(), i);
    }

    /// Every key of the map is listed among the entries.
    pub proof fn lemma_key_listed(&self, k: Seq<u8>)
        requires
            self@.dom().contains(k),
        ensures
            exists|i: int|
                0 <= i < self.spec_entries().len() && (#[trigger] self.spec_entries()[i]).0@ == k,
    {
        lemma_key_source(self.spec_entries(), k);
    }

    pub fn new() -> (r: AssetAmounts)
        ensures
            r.wf(),
            r@ == Map::<Seq<u8>, u128>::empty(),
            r.spec_entries().len() == 0,
    {
        AssetAmounts { entries: Vec::new() }
    }

    fn find_index(&self, id: &AssetId) -> (r: Option<usize>)
        ensures
            match r {
                Some(i) => i < self.spec_entries().len() && self.spec_entries()[i as int].0@
                    == id@,
                None => forall|i: int|
                    0 <= i < self.spec_entries().len() ==> (#[trigger] self.spec_entries()[i]).0@
                        != id@,
            },
    {
        let mut i: usize = 0;
        while i < self.entries.len()
            invariant
                i <= self.entries@.len(),
                forall|j: int| 0 <= j < i ==> (#[trigger] self.entries@[j]).0@ != id@,
            decreases self.entries@.len() - i,
        {
            if self.entries[i].0.eq_id(id) {
                return Some(i);
            }
            i = i + 1;
        }
        None
    }

    /// The amount recorded for a normalized asset, if any.
    pub fn get(&self, id: &AssetId) -> (r: Option<u128>)
        requires
            self.wf(),
        ensures
            r == if self@.dom().contains(id@) {
                Some(self@[id@])
            } else {
                Option::<u128>::None
            },
    {
        match self.find_index(id) {
            Some(i) => {
                proof {
                    lemma_lookup_value(self.entries@, i as int);
                }
                Some(self.entries[i].1)
            },
            None => {
                proof {
                    if self@.dom().contains(id@) {
                        lemma_key_source(self.entries@, id@);
                    }
                }
                None
            },
        }
    }

    /// Number of assets recorded.
    pub fn len(&self) -> (r: usize)
        ensures
            r == self.spec_entries().len(),
    {
        self.entries.len()
    }

    /// The entry at a position, for walking the vector.
    pub fn entry_at(&self, i: usize) -> (r: (AssetId, u128))
        requires
            i < self.spec_entries().len(),
        ensures
            r.0@ == self.spec_entries()[i as int].0@,
            r.0.wf() == self.spec_entries()[i as int].0.wf(),
            r.1 == self.spec_entries()[i as int].1,
    {
        let p = &self.entries[i];
        (p.0.clone(), p.1)
    }

    /// Adds `amount` for the asset `id`, saturating, installing the entry
    /// if the asset is new. The one aggregation step of cost bookkeeping.
    pub fn add_saturating(&mut self, id: AssetId, amount: u128)
        requires
            old(self).wf(),
            id.wf(),
        ensures
            final(self).wf(),
            final(self)@ == spec_bump(old(self)@, id@, amount),
    {
        match self.find_index(&id) {
            Some(i) => {
                proof {
                    lemma_lookup_value(self.entries@, i as int);
                }
                let pair = self.entries.remove(i);
                let updated = (pair.0, pair.1.saturating_add(amount));
                self.entries.insert(i, updated);
                proof {
                    let s0 = old(self).spec_entries();
                    assert(self.entries@ =~= s0.update(i as int, updated));
                    assert(spec_unique_keys(self.entries@));
                    lemma_update_value(s0, i as int, updated);
                    assert(final(self)@ =~= spec_bump(old(self)@, id@, amount));
                }
            },
            None => {
                proof {
                    if old(self)@.dom().contains(id@) {
                        lemma_key_source(self.entries@, id@);
                    }
                }
                let p = (id, amount);
                self.entries.push(p);
                proof {
                    let s0 = old(self).spec_entries();
                    assert(spec_unique_keys(self.entries@));
                    lemma_push_value(s0, p);
                    assert(final(self)@ =~= spec_bump(old(self)@, p.0@, amount));
                }
            },
        }
    }
}

impl Clone for AssetAmounts {
    fn clone(&self) -> (r: Self)
        ensures
            r@ == self@,
            r.wf() == self.wf(),
            r.spec_entries().len() == self.spec_entries().len(),
    {
        let mut entries: Vec<(AssetId, u128)> = Vec::new();
        let mut i: usize = 0;
        while i < self.entries.len()
            invariant
                i <= self.entries@.len(),
                entries@.len() == i,
                forall|j: int|
                    0 <= j < i ==> (#[trigger] entries@[j]).0@ == self.entries@[j].0@
                        && entries@[j].0.wf() == self.entries@[j].0.wf() && entries@[j].1
                        == self.entries@[j].1,
            decreases self.entries@.len() - i,
        {
            let p = &self.entries[i];
            entries.push((p.0.clone(), p.1));
            i = i + 1;
        }
        let r = AssetAmounts { entries };
        proof {
            lemma_mirror_map(r.entries@, self.entries@);
        }
        r
    }
}

proof fn lemma_mirror_map(a: Seq<(AssetId, u128)>, b: Seq<(AssetId, u128)>)
    requires
        a.len() == b.len(),
        forall|j: int|
            0 <= j < a.len() ==> (#[trigger] a[j]).0@ == b[j].0@ && a[j].0.wf() == b[j].0.wf()
                && a[j].1 == b[j].1,
    ensures
        spec_seq_to_map(a) =~= spec_seq_to_map(b),
        spec_unique_keys(a) == spec_unique_keys(b),
    decreases a.len(),
{
    if a.len() > 0 {
        lemma_mirror_map(a.drop_last(), b.drop_last());
    }
    if spec_unique_keys(a) {
        assert forall|i: int, j: int| 0 <= i < j < b.len() implies (#[trigger] b[i]).0@
            != (#[trigger] b[j]).0@ by {
            assert(a[i].0@ == b[i].0@);
            assert(a[j].0@ == b[j].0@);
            assert(a[i].0@ != a[j].0@);
        }
        assert forall|i: int| 0 <= i < b.len() implies (#[trigger] b[i]).0.wf() by {
            assert(a[i].0.wf());
        }
        assert(spec_unique_keys(b));
    }
    if spec_unique_keys(b) {
        assert forall|i: int, j: int| 0 <= i < j < a.len() implies (#[trigger] a[i]).0@
            != (#[trigger] a[j]).0@ by {
            assert(b[i].0@ != b[j].0@);
        }
        assert forall|i: int| 0 <= i < a.len() implies (#[trigger] a[i]).0.wf() by {
            assert(b[i].0.wf());
        }
        assert(spec_unique_keys(a));
    }
}

} // verus!
