//! The executable ledger.

use std::collections::HashMap;
use vstd::prelude::*;
use vstd::std_specs::hash::group_hash_axioms;
use crate::events::{
    emission_events, events_view, push_emission_events, Blasted, Event, EventView, Paused,
    Transfer,
};
use crate::index::{ascending, OwnedAssets};
use crate::laws::{
    lemma_add_emissions_wf, lemma_blast_wf, lemma_pause_wf, lemma_set_contract_owner_wf,
    lemma_transfer_wf,
};
use crate::model::{bounded_check, LedgerView, Operation};
use crate::types::{
    clone_emissions, details_view, emissions_view, AccountId, AssetCO2EmissionsError,
    AssetDetails, AssetId, CO2Emissions, Limits, Metadata, ParentDetails,
};
use crate::validate::{
    ensure_emissions_correct, ensure_emissions_item_correct, ensure_emissions_not_unbounded,
    ensure_proper_metadata,
};

verus! {

/// The ledger of assets and their emissions.
pub struct InfinityAsset {
    /// The limits that the ledger was set up with.
    limits: Limits,
    /// The account that may hand the contract on.
    contract_owner: AccountId,
    /// The identifier that the next asset gets.
    next_id: AssetId,
    /// Owner of each asset.
    asset_owner: HashMap<AssetId, AccountId>,
    /// The assets of each account.
    owned_assets: OwnedAssets,
    /// Emissions history of each asset.
    co2_emissions: HashMap<AssetId, Vec<CO2Emissions>>,
    /// Metadata of each asset.
    metadata: HashMap<AssetId, Metadata>,
    /// Whether each asset is paused.
    paused: HashMap<AssetId, bool>,
    /// Parent of each asset.
    parent: HashMap<AssetId, ParentDetails>,
}

impl View for InfinityAsset {
    type V = LedgerView;

    closed spec fn view(&self) -> LedgerView {
        LedgerView {
            limits: self.limits,
            contract_owner: self.contract_owner,
            next_id: self.next_id,
            owners: self.asset_owner@,
            owned: self.owned_assets@,
            emissions: self.co2_emissions@.map_values(
                |items: Vec<CO2Emissions>| emissions_view(items@),
            ),
            metadata: self.metadata@.map_values(|bytes: Metadata| bytes@),
            paused: self.paused@,
            parents: self.parent@,
        }
    }
}

impl InfinityAsset {
    /// An empty ledger with the standard limits, and with `caller` as the
    /// owner of the contract.
    pub fn new(caller: AccountId) -> (r: InfinityAsset)
        ensures
            r@ == LedgerView::init(caller, Limits::standard()),
            r@.wf(),
    {
        InfinityAsset::with_limits(caller, Limits::default())
    }

    /// An empty ledger with `limits`, and with `caller` as the owner of the
    /// contract.
    pub fn with_limits(caller: AccountId, limits: Limits) -> (r: InfinityAsset)
        ensures
            r@ == LedgerView::init(caller, limits),
            r@.wf(),
    {
        let r = InfinityAsset {
            limits,
            contract_owner: caller,
            next_id: 1,
            asset_owner: HashMap::new(),
            owned_assets: OwnedAssets::new(),
            co2_emissions: HashMap::new(),
            metadata: HashMap::new(),
            paused: HashMap::new(),
            parent: HashMap::new(),
        };
        proof {
            assert(r@.emissions =~= Map::empty());
            assert(r@.metadata =~= Map::empty());
        }
        r
    }

    /// The limits that the ledger was set up with.
    pub fn limits(&self) -> (r: Limits)
        ensures
            r == self@.limits,
    {
        self.limits
    }

    /// The owner of the contract.
    pub fn contract_owner(&self) -> (r: AccountId)
        ensures
            r == self@.contract_owner,
    {
        self.contract_owner
    }

    /// The owner of asset `id`, if there is such an asset.
    pub fn owner_of(&self, id: AssetId) -> (r: Option<AccountId>)
        ensures
            r == self@.owner_of(id),
    {
        broadcast use group_hash_axioms;

        match self.asset_owner.get(&id) {
            Some(owner) => Some(*owner),
            None => None,
        }
    }

    /// Whether asset `id` is paused, if there is such an asset.
    pub fn has_paused(&self, id: AssetId) -> (r: Option<bool>)
        ensures
            r == self@.has_paused(id),
    {
        broadcast use group_hash_axioms;

        match self.paused.get(&id) {
            Some(paused) => Some(*paused),
            None => None,
        }
    }

    /// The emissions history of asset `id`, if there is such an asset.
    pub fn get_asset_emissions(&self, id: AssetId) -> (r: Option<Vec<CO2Emissions>>)
        ensures
            match r {
                Some(items) => self@.get_asset_emissions(id) == Some(emissions_view(items@)),
                None => self@.get_asset_emissions(id) is None,
            },
    {
        broadcast use group_hash_axioms;

        match self.co2_emissions.get(&id) {
            Some(items) => Some(clone_emissions(items)),
            None => None,
        }
    }

    /// The metadata of asset `id`, if there is such an asset.
    pub fn get_metadata(&self, id: AssetId) -> (r: Option<Metadata>)
        ensures
            match r {
                Some(bytes) => self@.get_metadata(id) == Some(bytes@),
                None => self@.get_metadata(id) is None,
            },
    {
        broadcast use group_hash_axioms;

        match self.metadata.get(&id) {
            Some(bytes) => Some(bytes.clone()),
            None => None,
        }
    }

    /// The parent of asset `id`, if there is such an asset.
    pub fn get_parent_details(&self, id: AssetId) -> (r: Option<ParentDetails>)
        ensures
            r == self@.get_parent_details(id),
    {
        broadcast use group_hash_axioms;

        match self.parent.get(&id) {
            Some(parent) => Some(*parent),
            None => None,
        }
    }

    /// The assets filed under `owner` in the index, in ascending order. In a
    /// well-formed ledger these are the assets that `owner` owns.
    pub fn list_assets(&self, owner: AccountId) -> (r: Vec<AssetId>)
        ensures
            r@.to_set() == self@.list_assets(owner),
            ascending(r@),
            self@.wf() ==> forall|id: AssetId|
                r@.contains(id) <==> self@.owner_of(id) == Some(owner),
    {
        let r = self.owned_assets.list(&owner);
        proof {
            if self@.wf() {
                assert forall|id: AssetId| r@.contains(id) <==> self@.owner_of(id) == Some(
                    owner,
                ) by {
                    assert(r@.to_set().contains(id) <==> r@.contains(id));
                    assert(self@.list_assets(owner).contains(id) <==> self@.owner_of(id) == Some(
                        owner,
                    ));
                }
            }
        }
        r
    }

    /// The details of asset `id`, if there is such an asset. Metadata alone
    /// decides whether there is one: an asset with metadata has emissions and
    /// an entry for its parent.
    pub fn get_asset(&self, id: AssetId) -> (r: Option<AssetDetails>)
        requires
            self@.metadata.contains_key(id) ==> self@.emissions.contains_key(id)
                && self@.parents.contains_key(id),
        ensures
            match r {
                Some(details) => self@.get_asset(id) == Some(details@),
                None => self@.get_asset(id) is None,
            },
    {
        match self.get_metadata(id) {
            None => None,
            Some(metadata) => {
                let emissions = self.get_asset_emissions(id).unwrap();
                let parent = self.get_parent_details(id).unwrap();
                Some(AssetDetails { asset_id: id, metadata, emissions, parent })
            },
        }
    }

    /// The details of asset `id` and of its ancestors, from `id` back to the
    /// root.
    pub fn build_asset_tree(&self, id: AssetId) -> (r: Vec<AssetDetails>)
        requires
            self@.wf(),
            self@.contains(id),
        ensures
            details_view(r@) == self@.tree_path(id),
    {
        let mut asset_id = id;
        let mut tree_path: Vec<AssetDetails> = Vec::new();
        loop
            invariant_except_break
                self@.wf(),
                self@.contains(asset_id),
                self@.tree_path(id) == details_view(tree_path@) + self@.tree_path(asset_id),
            ensures
                details_view(tree_path@) == self@.tree_path(id),
            decreases asset_id,
        {
            let asset = self.get_asset(asset_id).unwrap();
            let parent_details = asset.parent;
            let ghost before = tree_path@;
            let ghost details = asset@;
            tree_path.push(asset);
            proof {
                assert(tree_path@ =~= before.push(tree_path@[before.len() as int]));
                assert(details_view(tree_path@) =~= details_view(before).push(details));
                assert(self@.parents.contains_key(asset_id));
            }
            match parent_details {
                None => {
                    assert(self@.tree_path(asset_id) =~= seq![details]);
                    assert(details_view(tree_path@) =~= details_view(before) + seq![details]);
                    break ;
                },
                Some((parent_id, _)) => {
                    proof {
                        assert(self@.tree_path(asset_id) =~= seq![details] + self@.tree_path(
                            parent_id,
                        ));
                        assert(details_view(tree_path@) + self@.tree_path(parent_id)
                            =~= details_view(before) + self@.tree_path(asset_id));
                    }
                    asset_id = parent_id;
                },
            }
        }
        tree_path
    }

    /// The details of asset `id` and of its ancestors, from `id` back to the
    /// root, if there is such an asset.
    pub fn query_emissions(&self, id: AssetId) -> (r: Option<Vec<AssetDetails>>)
        requires
            self@.wf(),
        ensures
            match r {
                Some(path) => self@.query_emissions(id) == Some(details_view(path@)),
                None => self@.query_emissions(id) is None,
            },
    {
        match self.ensure_exists(id) {
            Err(_) => None,
            Ok(_) => Some(self.build_asset_tree(id)),
        }
    }

    /// There must be no asset `id`.
    pub fn ensure_not_exist(&self, id: AssetId) -> (r: Result<(), AssetCO2EmissionsError>)
        ensures
            r == self@.ensure_not_exist(id),
    {
        broadcast use group_hash_axioms;

        if self.asset_owner.contains_key(&id) {
            Err(AssetCO2EmissionsError::AssetAlreadyExists)
        } else {
            Ok(())
        }
    }

    /// There must be an asset `id`.
    pub fn ensure_exists(&self, id: AssetId) -> (r: Result<(), AssetCO2EmissionsError>)
        ensures
            r == self@.ensure_exists(id),
    {
        broadcast use group_hash_axioms;

        if self.asset_owner.contains_key(&id) {
            Ok(())
        } else {
            Err(AssetCO2EmissionsError::AssetNotFound)
        }
    }

    /// `caller` must own the contract.
    pub fn ensure_contract_owner(&self, caller: AccountId) -> (r: Result<
        (),
        AssetCO2EmissionsError,
    >)
        ensures
            r == self@.ensure_contract_owner(caller),
    {
        if caller == self.contract_owner {
            Ok(())
        } else {
            Err(AssetCO2EmissionsError::NotContractOwner)
        }
    }

    /// `account` must own asset `id`. An unknown asset is reported before a
    /// foreign one.
    pub fn ensure_owner(&self, id: AssetId, account: AccountId) -> (r: Result<
        (),
        AssetCO2EmissionsError,
    >)
        ensures
            r == self@.ensure_owner(id, account),
    {
        match self.owner_of(id) {
            None => Err(AssetCO2EmissionsError::AssetNotFound),
            Some(owner) => {
                if owner == account {
                    Ok(())
                } else {
                    Err(AssetCO2EmissionsError::NotOwner)
                }
            },
        }
    }

    /// Asset `id` must be paused.
    pub fn ensure_paused(&self, id: AssetId) -> (r: Result<(), AssetCO2EmissionsError>)
        ensures
            r == self@.ensure_paused(id),
    {
        match self.has_paused(id) {
            None => Err(AssetCO2EmissionsError::AssetNotFound),
            Some(false) => Err(AssetCO2EmissionsError::NotPaused),
            Some(true) => Ok(()),
        }
    }

    /// Asset `id` must not be paused.
    pub fn ensure_not_paused(&self, id: AssetId) -> (r: Result<(), AssetCO2EmissionsError>)
        ensures
            r == self@.ensure_not_paused(id),
    {
        match self.has_paused(id) {
            None => Err(AssetCO2EmissionsError::AssetNotFound),
            Some(true) => Err(AssetCO2EmissionsError::AlreadyPaused),
            Some(false) => Ok(()),
        }
    }

    /// The parent named for a new asset must be in order: owned by `caller`,
    /// in a relation other than 0, and paused; checked in this order.
    pub fn ensure_proper_parent(&self, parent: &ParentDetails, caller: AccountId) -> (r: Result<
        (),
        AssetCO2EmissionsError,
    >)
        ensures
            r == self@.ensure_proper_parent(*parent, caller),
    {
        match parent {
            None => Ok(()),
            Some((parent_id, relation)) => {
                self.ensure_owner(*parent_id, caller)?;
                if *relation == 0 {
                    return Err(AssetCO2EmissionsError::InvalidAssetRelation);
                }
                self.ensure_paused(*parent_id)
            },
        }
    }

    /// Hands the contract on to `new_owner`. Only its owner may do so.
    pub fn set_contract_owner(&mut self, caller: AccountId, new_owner: AccountId) -> (r: Result<
        (),
        AssetCO2EmissionsError,
    >)
        ensures
            r == old(self)@.set_contract_owner_check(caller),
            r is Ok ==> final(self)@ == old(self)@.set_contract_owner_post(new_owner),
            r is Err ==> final(self)@ == old(self)@,
            final(self)@ == old(self)@.apply(Operation::SetContractOwner { caller, new_owner }),
            old(self)@.wf() ==> final(self)@.wf(),
    {
        self.ensure_contract_owner(caller)?;
        self.contract_owner = new_owner;
        proof {
            if old(self)@.wf() {
                lemma_set_contract_owner_wf(old(self)@, new_owner);
            }
        }
        Ok(())
    }

    /// Files `asset_id` under `owner` in the index.
    fn insert_owned_asset(&mut self, owner: &AccountId, asset_id: &AssetId) -> (r: Result<
        (),
        AssetCO2EmissionsError,
    >)
        ensures
            r is Ok,
            final(self)@ == old(self)@.insert_owned_asset(*owner, *asset_id),
    {
        self.owned_assets.insert(owner, *asset_id);
        Ok(())
    }

    /// Takes `asset_id` out from under `owner` in the index. The account
    /// must have an entry there; the asset need not be filed under it.
    fn remove_owned_asset(&mut self, owner: &AccountId, asset_id: &AssetId) -> (r: Result<
        (),
        AssetCO2EmissionsError,
    >)
        requires
            old(self)@.owned.contains_key(*owner),
        ensures
            r is Ok,
            final(self)@ == old(self)@.remove_owned_asset(*owner, *asset_id),
    {
        self.owned_assets.remove(owner, *asset_id);
        Ok(())
    }

    /// Appends `emissions` to the history of asset `id`, and to `events` one
    /// notification for each record. Nothing changes where the history would
    /// become longer than an asset may hold.
    fn save_new_co2_emissions(
        &mut self,
        id: &AssetId,
        emissions: &Vec<CO2Emissions>,
        events: &mut Vec<Event>,
    ) -> (r: Result<(), AssetCO2EmissionsError>)
        ensures
            r == bounded_check(
                old(self)@.limits,
                old(self)@.emissions_len(*id) + emissions@.len(),
            ),
            r is Ok ==> {
                &&& final(self)@ == old(self)@.save_new_co2_emissions(
                    *id,
                    emissions_view(emissions@),
                )
                &&& events_view(final(events)@) == events_view(old(events)@) + emission_events(
                    *id,
                    emissions_view(emissions@),
                )
            },
            r is Err ==> final(self)@ == old(self)@ && final(events)@ == old(events)@,
    {
        broadcast use group_hash_axioms;

        let existing: usize = match self.co2_emissions.get(id) {
            Some(items) => items.len(),
            None => 0,
        };
        ensure_emissions_not_unbounded(&self.limits, existing, emissions.len())?;
        let mut updated_emissions: Vec<CO2Emissions> = match self.co2_emissions.remove(id) {
            Some(items) => items,
            None => Vec::new(),
        };
        let ghost before = updated_emissions@;
        updated_emissions.extend_from_slice(emissions.as_slice());
        proof {
            assert(emissions_view(updated_emissions@) =~= emissions_view(before) + emissions_view(
                emissions@,
            ));
        }
        self.co2_emissions.insert(*id, updated_emissions);
        push_emission_events(events, *id, emissions);
        proof {
            assert(self@.emissions =~= old(self)@.save_new_co2_emissions(
                *id,
                emissions_view(emissions@),
            ).emissions);
        }
        Ok(())
    }

    /// Hands out the next identifier. Where the counter cannot be
    /// incremented, none is handed out and the counter stays as it is.
    fn next_id(&mut self) -> (r: Result<AssetId, AssetCO2EmissionsError>)
        ensures
            match r {
                Ok(id) => {
                    &&& old(self)@.next_id_check() is Ok
                    &&& id == old(self)@.next_id
                    &&& final(self)@ == (LedgerView { next_id: (id + 1) as u128, ..old(self)@ })
                },
                Err(e) => old(self)@.next_id_check() == Err::<(), _>(e) && final(self)@ == old(
                    self,
                )@,
            },
    {
        let asset_id = self.next_id;
        match self.next_id.checked_add(1) {
            Some(next) => {
                self.next_id = next;
                Ok(asset_id)
            },
            None => Err(AssetCO2EmissionsError::AssetIdOverflow),
        }
    }

    /// Creates an asset owned by `to`, with the next identifier.
    ///
    /// Checked in this order: the metadata, the emissions, the parent (which
    /// `caller` must own), the identifier. On success the notifications are
    /// that of the creation and then one for each emissions record, in the
    /// order of the list. On an error nothing changes.
    pub fn blast(
        &mut self,
        caller: AccountId,
        to: AccountId,
        metadata: Metadata,
        emissions: Vec<CO2Emissions>,
        parent: ParentDetails,
    ) -> (r: Result<Vec<Event>, AssetCO2EmissionsError>)
        requires
            old(self)@.wf(),
        ensures
            final(self)@.wf(),
            final(self)@ == old(self)@.apply(
                Operation::Blast {
                    caller,
                    to,
                    metadata: metadata@,
                    emissions: emissions_view(emissions@),
                    parent,
                },
            ),
            match r {
                Ok(events) => {
                    &&& old(self)@.blast_check(
                        caller,
                        metadata@,
                        emissions_view(emissions@),
                        parent,
                    ) is Ok
                    &&& final(self)@ == old(self)@.blast_post(
                        to,
                        metadata@,
                        emissions_view(emissions@),
                        parent,
                    )
                    &&& events_view(events@) == old(self)@.blast_events(
                        to,
                        metadata@,
                        emissions_view(emissions@),
                        parent,
                    )
                },
                Err(e) => {
                    &&& old(self)@.blast_check(
                        caller,
                        metadata@,
                        emissions_view(emissions@),
                        parent,
                    ) == Err::<(), _>(e)
                    &&& final(self)@ == old(self)@
                },
            },
    {
        broadcast use group_hash_axioms;

        ensure_proper_metadata(&self.limits, &metadata)?;
        ensure_emissions_correct(&self.limits, 0, &emissions)?;
        self.ensure_proper_parent(&parent, caller)?;
        if self.next_id == u128::MAX {
            return Err(AssetCO2EmissionsError::AssetIdOverflow);
        }
        self.ensure_not_exist(self.next_id)?;
        let asset_id: u128 = self.next_id()?;

        let _ = self.insert_owned_asset(&to, &asset_id);

        let mut events: Vec<Event> = Vec::new();
        events.push(
            Event::Blasted(
                Blasted { id: asset_id, metadata: metadata.clone(), owner: to, parent },
            ),
        );
        self.asset_owner.insert(asset_id, to);
        self.metadata.insert(asset_id, metadata);
        self.paused.insert(asset_id, false);
        self.parent.insert(asset_id, parent);

        let ghost first = events_view(events@);
        let saved = self.save_new_co2_emissions(&asset_id, &emissions, &mut events);
        proof {
            let post = old(self)@.blast_post(to, metadata@, emissions_view(emissions@), parent);
            assert(saved is Ok);
            assert(self@.metadata =~= post.metadata);
            assert(self@.emissions =~= post.emissions);
            assert(self@ == post);
            assert(first =~= seq![
                EventView::Blasted { id: asset_id, metadata: metadata@, owner: to, parent },
            ]);
            lemma_blast_wf(old(self)@, caller, to, metadata@, emissions_view(emissions@), parent);
        }
        Ok(events)
    }

    /// Hands asset `id` over from `caller` to `to`, and appends `emissions`
    /// to its history.
    ///
    /// Checked in this order: that the asset exists, that `caller` owns it,
    /// that it is not paused, the emissions together with those it holds. On
    /// success the notifications are that of the transfer and then one for
    /// each emissions record, in the order of the list. On an error nothing
    /// changes.
    pub fn transfer(
        &mut self,
        caller: AccountId,
        to: AccountId,
        id: AssetId,
        emissions: Vec<CO2Emissions>,
    ) -> (r: Result<Vec<Event>, AssetCO2EmissionsError>)
        requires
            old(self)@.wf(),
        ensures
            final(self)@.wf(),
            final(self)@ == old(self)@.apply(
                Operation::Transfer { caller, to, id, emissions: emissions_view(emissions@) },
            ),
            match r {
                Ok(events) => {
                    &&& old(self)@.transfer_check(caller, id, emissions_view(emissions@)) is Ok
                    &&& final(self)@ == old(self)@.transfer_post(
                        caller,
                        to,
                        id,
                        emissions_view(emissions@),
                    )
                    &&& events_view(events@) == LedgerView::transfer_events(
                        caller,
                        to,
                        id,
                        emissions_view(emissions@),
                    )
                },
                Err(e) => {
                    &&& old(self)@.transfer_check(caller, id, emissions_view(emissions@))
                        == Err::<(), _>(e)
                    &&& final(self)@ == old(self)@
                },
            },
    {
        broadcast use group_hash_axioms;

        let from = caller;

        self.ensure_exists(id)?;
        self.ensure_owner(id, from)?;
        self.ensure_not_paused(id)?;
        let existing: usize = match self.co2_emissions.get(&id) {
            Some(items) => items.len(),
            None => 0,
        };
        ensure_emissions_correct(&self.limits, existing, &emissions)?;

        proof {
            assert(old(self)@.list_assets(from).contains(id));
        }
        let _ = self.remove_owned_asset(&from, &id);
        let _ = self.insert_owned_asset(&to, &id);

        self.asset_owner.insert(id, to);

        let mut events: Vec<Event> = Vec::new();
        events.push(Event::Transfer(Transfer { from, to, id }));

        let ghost first = events_view(events@);
        let saved = self.save_new_co2_emissions(&id, &emissions, &mut events);
        proof {
            let post = old(self)@.transfer_post(from, to, id, emissions_view(emissions@));
            assert(saved is Ok);
            assert(self@.emissions =~= post.emissions);
            assert(self@ == post);
            assert(first =~= seq![EventView::Transfer { from, to, id }]);
            lemma_transfer_wf(old(self)@, caller, to, id, emissions_view(emissions@));
        }
        Ok(events)
    }

    /// Pauses asset `id`: from then on it can be neither transferred nor
    /// given emissions, and it can be named as a parent.
    ///
    /// Checked in this order: that `caller` owns the asset, that it is not
    /// paused. On an error nothing changes.
    pub fn pause(&mut self, caller: AccountId, id: AssetId) -> (r: Result<
        Vec<Event>,
        AssetCO2EmissionsError,
    >)
        requires
            old(self)@.wf(),
        ensures
            final(self)@.wf(),
            final(self)@ == old(self)@.apply(Operation::Pause { caller, id }),
            match r {
                Ok(events) => {
                    &&& old(self)@.pause_check(caller, id) is Ok
                    &&& final(self)@ == old(self)@.pause_post(id)
                    &&& events_view(events@) == seq![EventView::Paused { id }]
                },
                Err(e) => {
                    &&& old(self)@.pause_check(caller, id) == Err::<(), _>(e)
                    &&& final(self)@ == old(self)@
                },
            },
    {
        broadcast use group_hash_axioms;

        self.ensure_owner(id, caller)?;
        self.ensure_not_paused(id)?;

        self.paused.insert(id, true);
        let mut events: Vec<Event> = Vec::new();
        events.push(Event::Paused(Paused { id }));

        proof {
            assert(events_view(events@) =~= seq![EventView::Paused { id }]);
            lemma_pause_wf(old(self)@, caller, id);
        }
        Ok(events)
    }

    /// Appends one emissions record to the history of asset `id`.
    ///
    /// Checked in this order: that the asset exists, that `caller` owns it,
    /// that it is not paused, the record, the room for it. On an error
    /// nothing changes.
    pub fn add_emissions(&mut self, caller: AccountId, id: AssetId, emissions: CO2Emissions) -> (r:
        Result<Vec<Event>, AssetCO2EmissionsError>)
        requires
            old(self)@.wf(),
        ensures
            final(self)@.wf(),
            final(self)@ == old(self)@.apply(
                Operation::AddEmissions { caller, id, item: emissions@ },
            ),
            match r {
                Ok(events) => {
                    &&& old(self)@.add_emissions_check(caller, id, emissions@) is Ok
                    &&& final(self)@ == old(self)@.add_emissions_post(id, emissions@)
                    &&& events_view(events@) == seq![EventView::Emission { id, item: emissions@ }]
                },
                Err(e) => {
                    &&& old(self)@.add_emissions_check(caller, id, emissions@) == Err::<(), _>(e)
                    &&& final(self)@ == old(self)@
                },
            },
    {
        self.ensure_exists(id)?;
        self.ensure_owner(id, caller)?;
        self.ensure_not_paused(id)?;
        ensure_emissions_item_correct(&self.limits, &emissions)?;

        let ghost item = emissions@;
        let mut items: Vec<CO2Emissions> = Vec::new();
        items.push(emissions);
        let mut events: Vec<Event> = Vec::new();
        proof {
            assert(emissions_view(items@) =~= seq![item]);
        }
        self.save_new_co2_emissions(&id, &items, &mut events)?;
        proof {
            assert(events_view(events@) =~= seq![EventView::Emission { id, item }]);
            lemma_add_emissions_wf(old(self)@, caller, id, item);
        }
        Ok(events)
    }
}

} // verus!
