//! The ownership index: for each account, the set of assets it owns.

use std::collections::{BTreeMap, BTreeSet};
use vstd::prelude::*;
use vstd::laws_cmp::group_laws_cmp;
use vstd::std_specs::btree::group_btree_axioms;
use vstd::std_specs::cmp::OrdSpec;
use vstd::std_specs::iter::IteratorSpec;
use crate::types::{AccountId, AssetId};

verus! {

/// The assets filed under `owner` in `index`: none where the account has no
/// entry.
pub open spec fn bucket(index: Map<AccountId, Set<AssetId>>, owner: AccountId) -> Set<AssetId> {
    if index.contains_key(owner) {
        index[owner]
    } else {
        Set::empty()
    }
}

/// Whether `ids` holds its identifiers in strictly ascending order.
pub open spec fn ascending(ids: Seq<AssetId>) -> bool {
    forall|i: int, j: int| 0 <= i < j < ids.len() ==> ids[i] < ids[j]
}

/// An index from accounts to sets of asset identifiers.
pub struct OwnedAssets {
    buckets: BTreeMap<(u128, u128), BTreeSet<AssetId>>,
}

impl View for OwnedAssets {
    type V = Map<AccountId, Set<AssetId>>;

    closed spec fn view(&self) -> Map<AccountId, Set<AssetId>> {
        Map::new(
            |owner: AccountId| self.buckets@.contains_key(owner.spec_key()),
            |owner: AccountId| self.buckets@[owner.spec_key()]@,
        )
    }
}

impl OwnedAssets {
    /// An index without entries.
    pub fn new() -> (r: OwnedAssets)
        ensures
            r@ == Map::<AccountId, Set<AssetId>>::empty(),
    {
        let r = OwnedAssets { buckets: BTreeMap::new() };
        assert(r@ =~= Map::<AccountId, Set<AssetId>>::empty());
        r
    }

    /// Files `asset_id` under `owner`, with a new entry where the account
    /// has none.
    pub fn insert(&mut self, owner: &AccountId, asset_id: AssetId)
        ensures
            final(self)@ == old(self)@.insert(*owner, bucket(old(self)@, *owner).insert(asset_id)),
    {
        broadcast use {group_btree_axioms, group_laws_cmp};

        let key = owner.key();
        let mut assets = match self.buckets.remove(&key) {
            None => BTreeSet::new(),
            Some(assets) => assets,
        };
        assets.insert(asset_id);
        self.buckets.insert(key, assets);
        assert(final(self)@ =~= old(self)@.insert(
            *owner,
            bucket(old(self)@, *owner).insert(asset_id),
        )) by {
            assert forall|a: AccountId| a.spec_key() == owner.spec_key() implies a == *owner by {}
        }
    }

    /// Takes `asset_id` out from under `owner`, whether or not it was filed
    /// there. The account must have an entry.
    pub fn remove(&mut self, owner: &AccountId, asset_id: AssetId)
        requires
            old(self)@.contains_key(*owner),
        ensures
            final(self)@ == old(self)@.insert(*owner, old(self)@[*owner].remove(asset_id)),
    {
        broadcast use {group_btree_axioms, group_laws_cmp};

        let key = owner.key();
        match self.buckets.remove(&key) {
            None => {},
            Some(assets) => {
                let mut assets = assets;
                assets.remove(&asset_id);
                self.buckets.insert(key, assets);
            },
        }
        assert(final(self)@ =~= old(self)@.insert(*owner, old(self)@[*owner].remove(asset_id))) by {
            assert forall|a: AccountId| a.spec_key() == owner.spec_key() implies a == *owner by {}
        }
    }

    /// The assets filed under `owner`, in ascending order.
    pub fn list(&self, owner: &AccountId) -> (r: Vec<AssetId>)
        ensures
            r@.to_set() == bucket(self@, *owner),
            ascending(r@),
    {
        broadcast use {group_btree_axioms, group_laws_cmp};

        let key = owner.key();
        let mut out: Vec<AssetId> = Vec::new();
        match self.buckets.get(&key) {
            None => {
                assert(out@.to_set() =~= bucket(self@, *owner));
            },
            Some(assets) => {
                for id in it: assets.iter()
                    invariant
                        out@.len() == it.index(),
                        forall|k: int| 0 <= k < it.index() ==> out@[k] == *it.seq()[k],
                {
                    out.push(*id);
                }
                let ghost keys = assets.iter().remaining();
                assert(out@ =~= keys.unref());
                assert forall|i: int, j: int| 0 <= i < j < out@.len() implies out@[i]
                    < out@[j] by {
                    vstd::std_specs::btree::axiom_increasing_seq_meaning::<&AssetId>(keys);
                    assert((&keys[i]).cmp_spec(&&keys[j]) is Less);
                }
                assert(out@.to_set() =~= bucket(self@, *owner));
            },
        }
        out
    }
}

} // verus!
