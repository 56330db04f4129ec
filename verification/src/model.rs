//! The ledger as a mathematical value, and what each operation makes of it.
//!
//! Every operation is described by two functions of the state before it and
//! of its arguments: a check, which gives the error of the first violated
//! precondition in the fixed order of the operation, and the state after a
//! successful run. The executable ledger is specified against these.

use vstd::prelude::*;
use crate::events::{emission_events, EventView};
use crate::index::bucket;
use crate::types::{
    AccountId, AssetCO2EmissionsError, AssetDetailsView, AssetId, EmissionsView, Limits,
    ParentDetails,
};

verus! {

/// Outcome of a check.
pub type Checked = Result<(), AssetCO2EmissionsError>;

/// Two checks in order: the first error wins.
pub open spec fn both(first: Checked, second: Checked) -> Checked {
    if first is Err {
        first
    } else {
        second
    }
}

/// Metadata must not be longer than the limit.
pub open spec fn metadata_check(limits: Limits, metadata: Seq<u8>) -> Checked {
    if metadata.len() > limits.max_metadata_length {
        Err(AssetCO2EmissionsError::MetadataOverflow)
    } else {
        Ok(())
    }
}

/// A list of emissions must hold at least one record.
pub open spec fn not_empty_check(len: nat) -> Checked {
    if len == 0 {
        Err(AssetCO2EmissionsError::EmissionsEmpty)
    } else {
        Ok(())
    }
}

/// An asset holds no more records than the limit.
pub open spec fn bounded_check(limits: Limits, len: nat) -> Checked {
    if len > limits.max_emissions_per_asset {
        Err(AssetCO2EmissionsError::EmissionsOverflow)
    } else {
        Ok(())
    }
}

/// The data source of a record must not be longer than the limit.
pub open spec fn data_source_check(limits: Limits, data_source: Seq<u8>) -> Checked {
    if data_source.len() > limits.max_data_source_length {
        Err(AssetCO2EmissionsError::DataSourceOverflow)
    } else {
        Ok(())
    }
}

/// The value of a record must not be 0.
pub open spec fn not_zero_check(value: u128) -> Checked {
    if value == 0 {
        Err(AssetCO2EmissionsError::ZeroEmissionsItem)
    } else {
        Ok(())
    }
}

/// One record: its data source first, then its value.
pub open spec fn item_check(limits: Limits, item: EmissionsView) -> Checked {
    both(data_source_check(limits, item.data_source), not_zero_check(item.value))
}

/// Every record of a list, in the order of the list: the error is that of
/// the first record that has one.
pub open spec fn items_check(limits: Limits, items: Seq<EmissionsView>) -> Checked
    decreases items.len(),
{
    if items.len() == 0 {
        Ok(())
    } else {
        both(items_check(limits, items.drop_last()), item_check(limits, items.last()))
    }
}

/// A list of emissions that comes in with an operation, to be added to the
/// `existing` records of an asset: not empty, within the limit together with
/// what the asset holds already, and every record valid.
pub open spec fn emissions_check(
    limits: Limits,
    existing: nat,
    items: Seq<EmissionsView>,
) -> Checked {
    both(
        not_empty_check(items.len()),
        both(bounded_check(limits, existing + items.len()), items_check(limits, items)),
    )
}

/// A state-changing operation with its arguments, the caller among them.
pub enum Operation {
    SetContractOwner { caller: AccountId, new_owner: AccountId },
    Blast {
        caller: AccountId,
        to: AccountId,
        metadata: Seq<u8>,
        emissions: Seq<EmissionsView>,
        parent: ParentDetails,
    },
    Transfer { caller: AccountId, to: AccountId, id: AssetId, emissions: Seq<EmissionsView> },
    Pause { caller: AccountId, id: AssetId },
    AddEmissions { caller: AccountId, id: AssetId, item: EmissionsView },
}

/// The state of the ledger.
pub struct LedgerView {
    /// The limits that the ledger was set up with.
    pub limits: Limits,
    /// The account that may hand the contract on.
    pub contract_owner: AccountId,
    /// The identifier that the next asset gets.
    pub next_id: AssetId,
    /// Owner of each asset.
    pub owners: Map<AssetId, AccountId>,
    /// Index of the assets that each account owns.
    pub owned: Map<AccountId, Set<AssetId>>,
    /// Emissions history of each asset.
    pub emissions: Map<AssetId, Seq<EmissionsView>>,
    /// Metadata of each asset.
    pub metadata: Map<AssetId, Seq<u8>>,
    /// Whether each asset is paused.
    pub paused: Map<AssetId, bool>,
    /// Parent of each asset.
    pub parents: Map<AssetId, ParentDetails>,
}

impl LedgerView {
    /// The empty ledger of `contract_owner`, with `limits`.
    pub open spec fn init(contract_owner: AccountId, limits: Limits) -> LedgerView {
        LedgerView {
            limits,
            contract_owner,
            next_id: 1,
            owners: Map::empty(),
            owned: Map::empty(),
            emissions: Map::empty(),
            metadata: Map::empty(),
            paused: Map::empty(),
            parents: Map::empty(),
        }
    }

    // ----- what a query returns -----

    /// Whether there is an asset `id`.
    pub open spec fn contains(self, id: AssetId) -> bool {
        self.owners.contains_key(id)
    }

    /// The owner of asset `id`.
    pub open spec fn owner_of(self, id: AssetId) -> Option<AccountId> {
        if self.owners.contains_key(id) {
            Some(self.owners[id])
        } else {
            None
        }
    }

    /// Whether asset `id` is paused.
    pub open spec fn has_paused(self, id: AssetId) -> Option<bool> {
        if self.paused.contains_key(id) {
            Some(self.paused[id])
        } else {
            None
        }
    }

    /// The emissions history of asset `id`.
    pub open spec fn get_asset_emissions(self, id: AssetId) -> Option<Seq<EmissionsView>> {
        if self.emissions.contains_key(id) {
            Some(self.emissions[id])
        } else {
            None
        }
    }

    /// The metadata of asset `id`.
    pub open spec fn get_metadata(self, id: AssetId) -> Option<Seq<u8>> {
        if self.metadata.contains_key(id) {
            Some(self.metadata[id])
        } else {
            None
        }
    }

    /// The parent of asset `id`.
    pub open spec fn get_parent_details(self, id: AssetId) -> Option<ParentDetails> {
        if self.parents.contains_key(id) {
            Some(self.parents[id])
        } else {
            None
        }
    }

    /// Whether asset `child` was split from asset `parent_id`.
    pub open spec fn split_from(self, child: AssetId, parent_id: AssetId) -> bool {
        match self.get_parent_details(child) {
            Some(Some((id, _))) => id == parent_id,
            _ => false,
        }
    }

    /// The assets filed under `owner` in the index.
    pub open spec fn list_assets(self, owner: AccountId) -> Set<AssetId> {
        bucket(self.owned, owner)
    }

    /// The details of asset `id`. Metadata alone decides whether there is
    /// such an asset.
    pub open spec fn get_asset(self, id: AssetId) -> Option<AssetDetailsView> {
        if self.metadata.contains_key(id) {
            Some(
                AssetDetailsView {
                    asset_id: id,
                    metadata: self.metadata[id],
                    emissions: self.emissions[id],
                    parent: self.parents[id],
                },
            )
        } else {
            None
        }
    }

    /// The details of asset `id` and of its ancestors, from `id` back to the
    /// root. A parent is followed only if its identifier is smaller than the
    /// child's, which holds of every parent in a well-formed ledger.
    pub open spec fn tree_path(self, id: AssetId) -> Seq<AssetDetailsView>
        decreases id,
    {
        match self.get_asset(id) {
            None => Seq::empty(),
            Some(details) => match details.parent {
                Some((parent_id, _)) => if parent_id < id {
                    seq![details] + self.tree_path(parent_id)
                } else {
                    seq![details]
                },
                None => seq![details],
            },
        }
    }

    /// The walk from asset `id`, if there is such an asset.
    pub open spec fn query_emissions(self, id: AssetId) -> Option<Seq<AssetDetailsView>> {
        if self.contains(id) {
            Some(self.tree_path(id))
        } else {
            None
        }
    }

    // ----- what the validators of the state return -----

    /// There must be an asset `id`.
    pub open spec fn ensure_exists(self, id: AssetId) -> Checked {
        if self.contains(id) {
            Ok(())
        } else {
            Err(AssetCO2EmissionsError::AssetNotFound)
        }
    }

    /// There must be no asset `id`.
    pub open spec fn ensure_not_exist(self, id: AssetId) -> Checked {
        if self.contains(id) {
            Err(AssetCO2EmissionsError::AssetAlreadyExists)
        } else {
            Ok(())
        }
    }

    /// `caller` must own the contract.
    pub open spec fn ensure_contract_owner(self, caller: AccountId) -> Checked {
        if caller == self.contract_owner {
            Ok(())
        } else {
            Err(AssetCO2EmissionsError::NotContractOwner)
        }
    }

    /// `account` must own asset `id`. An unknown asset is reported before a
    /// foreign one.
    pub open spec fn ensure_owner(self, id: AssetId, account: AccountId) -> Checked {
        match self.owner_of(id) {
            None => Err(AssetCO2EmissionsError::AssetNotFound),
            Some(owner) => if owner == account {
                Ok(())
            } else {
                Err(AssetCO2EmissionsError::NotOwner)
            },
        }
    }

    /// Asset `id` must be paused.
    pub open spec fn ensure_paused(self, id: AssetId) -> Checked {
        match self.has_paused(id) {
            None => Err(AssetCO2EmissionsError::AssetNotFound),
            Some(false) => Err(AssetCO2EmissionsError::NotPaused),
            Some(true) => Ok(()),
        }
    }

    /// Asset `id` must not be paused.
    pub open spec fn ensure_not_paused(self, id: AssetId) -> Checked {
        match self.has_paused(id) {
            None => Err(AssetCO2EmissionsError::AssetNotFound),
            Some(true) => Err(AssetCO2EmissionsError::AlreadyPaused),
            Some(false) => Ok(()),
        }
    }

    /// No parent is in order. A parent must be owned by the caller, stand in
    /// a relation other than 0, and be paused; checked in this order.
    pub open spec fn ensure_proper_parent(self, parent: ParentDetails, caller: AccountId) -> Checked {
        match parent {
            None => Ok(()),
            Some((parent_id, relation)) => both(
                self.ensure_owner(parent_id, caller),
                both(
                    if relation == 0 {
                        Err(AssetCO2EmissionsError::InvalidAssetRelation)
                    } else {
                        Ok(())
                    },
                    self.ensure_paused(parent_id),
                ),
            ),
        }
    }

    /// Handing out the next identifier fails when the counter cannot be
    /// incremented.
    pub open spec fn next_id_check(self) -> Checked {
        if self.next_id == u128::MAX {
            Err(AssetCO2EmissionsError::AssetIdOverflow)
        } else {
            Ok(())
        }
    }

    /// Number of emissions records that asset `id` holds.
    pub open spec fn emissions_len(self, id: AssetId) -> nat {
        match self.get_asset_emissions(id) {
            Some(items) => items.len(),
            None => 0,
        }
    }

    // ----- the operations -----

    /// Handing the contract on: the caller owns it.
    pub open spec fn set_contract_owner_check(self, caller: AccountId) -> Checked {
        self.ensure_contract_owner(caller)
    }

    /// The ledger after the contract was handed on to `new_owner`.
    pub open spec fn set_contract_owner_post(self, new_owner: AccountId) -> LedgerView {
        LedgerView { contract_owner: new_owner, ..self }
    }

    /// The index after `id` was filed under `owner`.
    pub open spec fn insert_owned_asset(self, owner: AccountId, id: AssetId) -> LedgerView {
        LedgerView { owned: self.owned.insert(owner, self.list_assets(owner).insert(id)), ..self }
    }

    /// The index after `id` was taken out from under `owner`.
    pub open spec fn remove_owned_asset(self, owner: AccountId, id: AssetId) -> LedgerView {
        LedgerView { owned: self.owned.insert(owner, self.list_assets(owner).remove(id)), ..self }
    }

    /// The ledger after `items` were appended to the history of `id`.
    pub open spec fn save_new_co2_emissions(
        self,
        id: AssetId,
        items: Seq<EmissionsView>,
    ) -> LedgerView {
        let existing = match self.get_asset_emissions(id) {
            Some(existing) => existing,
            None => Seq::empty(),
        };
        LedgerView { emissions: self.emissions.insert(id, existing + items), ..self }
    }

    /// Creation: metadata, then the emissions taken alone, then the parent,
    /// then the identifier.
    pub open spec fn blast_check(
        self,
        caller: AccountId,
        metadata: Seq<u8>,
        emissions: Seq<EmissionsView>,
        parent: ParentDetails,
    ) -> Checked {
        both(
            metadata_check(self.limits, metadata),
            both(
                emissions_check(self.limits, 0, emissions),
                both(
                    self.ensure_proper_parent(parent, caller),
                    both(self.next_id_check(), self.ensure_not_exist(self.next_id)),
                ),
            ),
        )
    }

    /// The ledger after a creation: the asset at the counter has what it was
    /// created with, is not paused and is filed under its owner, and the
    /// counter has moved on.
    pub open spec fn blast_post(
        self,
        to: AccountId,
        metadata: Seq<u8>,
        emissions: Seq<EmissionsView>,
        parent: ParentDetails,
    ) -> LedgerView {
        let id = self.next_id;
        LedgerView {
            next_id: (id + 1) as u128,
            owners: self.owners.insert(id, to),
            metadata: self.metadata.insert(id, metadata),
            paused: self.paused.insert(id, false),
            parents: self.parents.insert(id, parent),
            ..self
        }.insert_owned_asset(to, id).save_new_co2_emissions(id, emissions)
    }

    /// The notifications of a creation: the creation itself, then each
    /// emissions record in the order of the list.
    pub open spec fn blast_events(
        self,
        to: AccountId,
        metadata: Seq<u8>,
        emissions: Seq<EmissionsView>,
        parent: ParentDetails,
    ) -> Seq<EventView> {
        seq![EventView::Blasted { id: self.next_id, metadata, owner: to, parent }]
            + emission_events(self.next_id, emissions)
    }

    /// Transfer: the asset exists, the caller owns it, it is not paused, and
    /// the emissions are in order together with those it holds.
    pub open spec fn transfer_check(
        self,
        caller: AccountId,
        id: AssetId,
        emissions: Seq<EmissionsView>,
    ) -> Checked {
        both(
            self.ensure_exists(id),
            both(
                self.ensure_owner(id, caller),
                both(
                    self.ensure_not_paused(id),
                    emissions_check(self.limits, self.emissions_len(id), emissions),
                ),
            ),
        )
    }

    /// The ledger after a transfer: the asset is owned by `to` and filed
    /// under it, and its history ends with `emissions`.
    pub open spec fn transfer_post(
        self,
        from: AccountId,
        to: AccountId,
        id: AssetId,
        emissions: Seq<EmissionsView>,
    ) -> LedgerView {
        LedgerView {
            owners: self.owners.insert(id, to),
            ..self.remove_owned_asset(from, id).insert_owned_asset(to, id)
        }.save_new_co2_emissions(id, emissions)
    }

    /// The notifications of a transfer: the transfer itself, then each
    /// emissions record in the order of the list.
    pub open spec fn transfer_events(
        from: AccountId,
        to: AccountId,
        id: AssetId,
        emissions: Seq<EmissionsView>,
    ) -> Seq<EventView> {
        seq![EventView::Transfer { from, to, id }] + emission_events(id, emissions)
    }

    /// Pause: the caller owns the asset, and it is not paused.
    pub open spec fn pause_check(self, caller: AccountId, id: AssetId) -> Checked {
        both(self.ensure_owner(id, caller), self.ensure_not_paused(id))
    }

    /// The ledger after asset `id` was paused.
    pub open spec fn pause_post(self, id: AssetId) -> LedgerView {
        LedgerView { paused: self.paused.insert(id, true), ..self }
    }

    /// Adding one record: the asset exists, the caller owns it, it is not
    /// paused, the record is valid, and there is room for it.
    pub open spec fn add_emissions_check(
        self,
        caller: AccountId,
        id: AssetId,
        item: EmissionsView,
    ) -> Checked {
        both(
            self.ensure_exists(id),
            both(
                self.ensure_owner(id, caller),
                both(
                    self.ensure_not_paused(id),
                    both(
                        item_check(self.limits, item),
                        bounded_check(self.limits, self.emissions_len(id) + 1),
                    ),
                ),
            ),
        )
    }

    /// The ledger after `item` was added to the history of asset `id`.
    pub open spec fn add_emissions_post(self, id: AssetId, item: EmissionsView) -> LedgerView {
        self.save_new_co2_emissions(id, seq![item])
    }

    // ----- runs of operations -----

    /// The check of `op`: the error of the first precondition that is
    /// violated, in the order of the operation.
    pub open spec fn check(self, op: Operation) -> Checked {
        match op {
            Operation::SetContractOwner { caller, new_owner } => self.set_contract_owner_check(
                caller,
            ),
            Operation::Blast { caller, to, metadata, emissions, parent } => self.blast_check(
                caller,
                metadata,
                emissions,
                parent,
            ),
            Operation::Transfer { caller, to, id, emissions } => self.transfer_check(
                caller,
                id,
                emissions,
            ),
            Operation::Pause { caller, id } => self.pause_check(caller, id),
            Operation::AddEmissions { caller, id, item } => self.add_emissions_check(
                caller,
                id,
                item,
            ),
        }
    }

    /// The ledger after `op`: changed as the operation says where the check
    /// passes, and as before where it does not.
    pub open spec fn apply(self, op: Operation) -> LedgerView {
        if self.check(op) is Err {
            self
        } else {
            match op {
                Operation::SetContractOwner { caller, new_owner } => self.set_contract_owner_post(
                    new_owner,
                ),
                Operation::Blast { caller, to, metadata, emissions, parent } => self.blast_post(
                    to,
                    metadata,
                    emissions,
                    parent,
                ),
                Operation::Transfer { caller, to, id, emissions } => self.transfer_post(
                    caller,
                    to,
                    id,
                    emissions,
                ),
                Operation::Pause { caller, id } => self.pause_post(id),
                Operation::AddEmissions { caller, id, item } => self.add_emissions_post(id, item),
            }
        }
    }

    /// The ledger after the operations of `ops`, one after the other.
    pub open spec fn run(self, ops: Seq<Operation>) -> LedgerView
        decreases ops.len(),
    {
        if ops.len() == 0 {
            self
        } else {
            self.run(ops.drop_last()).apply(ops.last())
        }
    }

    /// The identifiers that the successful creations among `ops` assign, in
    /// the order of the creations.
    pub open spec fn created(self, ops: Seq<Operation>) -> Seq<AssetId>
        decreases ops.len(),
    {
        if ops.len() == 0 {
            Seq::empty()
        } else {
            let before = self.run(ops.drop_last());
            let earlier = self.created(ops.drop_last());
            if ops.last() is Blast && before.check(ops.last()) is Ok {
                earlier.push(before.next_id)
            } else {
                earlier
            }
        }
    }

    // ----- well-formedness -----

    /// The identifiers in use are those from 1 up to the counter, and every
    /// one of them has all five entries.
    pub open spec fn ids_wf(self) -> bool {
        &&& self.next_id >= 1
        &&& forall|id: AssetId| #[trigger] self.owners.contains_key(id) <==> 1 <= id < self.next_id
        &&& forall|id: AssetId| #[trigger]
            self.metadata.contains_key(id) <==> self.owners.contains_key(id)
        &&& forall|id: AssetId| #[trigger]
            self.emissions.contains_key(id) <==> self.owners.contains_key(id)
        &&& forall|id: AssetId| #[trigger]
            self.paused.contains_key(id) <==> self.owners.contains_key(id)
        &&& forall|id: AssetId| #[trigger]
            self.parents.contains_key(id) <==> self.owners.contains_key(id)
    }

    /// Metadata and emissions of every asset are within their limits, and no
    /// history is empty.
    pub open spec fn contents_wf(self) -> bool {
        &&& forall|id: AssetId| #[trigger]
            self.metadata.contains_key(id) ==> metadata_check(self.limits, self.metadata[id]) is Ok
        &&& forall|id: AssetId| #[trigger]
            self.emissions.contains_key(id) ==> emissions_check(
                self.limits,
                0,
                self.emissions[id],
            ) is Ok
    }

    /// A parent is an older asset, stands in a relation other than 0, and is
    /// paused.
    pub open spec fn parents_wf(self) -> bool {
        forall|id: AssetId| #[trigger]
            self.parents.contains_key(id) ==> match self.parents[id] {
                None => true,
                Some((parent_id, relation)) => {
                    &&& 1 <= parent_id < id
                    &&& relation != 0
                    &&& self.has_paused(parent_id) == Some(true)
                },
            }
    }

    /// The index files an asset under an account exactly if the account owns
    /// it.
    pub open spec fn index_wf(self) -> bool {
        forall|owner: AccountId, id: AssetId| #[trigger]
            self.list_assets(owner).contains(id) <==> self.owner_of(id) == Some(owner)
    }

    /// What holds of a ledger after every operation.
    pub open spec fn wf(self) -> bool {
        &&& self.ids_wf()
        &&& self.contents_wf()
        &&& self.parents_wf()
        &&& self.index_wf()
    }
}

} // verus!
