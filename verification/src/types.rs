//! Plain data of the ledger: identities, emissions records, errors.

use vstd::prelude::*;

verus! {

/// Largest accepted length of an asset's metadata, in bytes, unless a ledger is
/// set up with another.
pub const MAX_METADATA_LENGTH: u16 = 1024;

/// Largest number of emissions records that one asset can hold, unless a
/// ledger is set up with another.
pub const MAX_EMISSIONS_PER_ASSET: u8 = 100;

/// Largest accepted length of an emissions record's data source, in bytes,
/// unless a ledger is set up with another.
pub const MAX_DATA_SOURCE_LENGTH: u8 = 128;

/// The limits that a ledger is set up with. They stay as they are for the
/// lifetime of the ledger.
#[derive(Clone, Copy, Debug, PartialEq, Eq, Structural)]
pub struct Limits {
    /// Largest accepted length of an asset's metadata, in bytes.
    pub max_metadata_length: u16,
    /// Largest number of emissions records that one asset can hold.
    pub max_emissions_per_asset: u8,
    /// Largest accepted length of an emissions record's data source, in
    /// bytes.
    pub max_data_source_length: u8,
}

impl Limits {
    /// The limits of a ledger that is set up without any.
    pub open spec fn standard() -> Limits {
        Limits {
            max_metadata_length: MAX_METADATA_LENGTH,
            max_emissions_per_asset: MAX_EMISSIONS_PER_ASSET,
            max_data_source_length: MAX_DATA_SOURCE_LENGTH,
        }
    }
}

impl Default for Limits {
    fn default() -> (r: Limits)
        ensures
            r == Limits::standard(),
    {
        Limits {
            max_metadata_length: MAX_METADATA_LENGTH,
            max_emissions_per_asset: MAX_EMISSIONS_PER_ASSET,
            max_data_source_length: MAX_DATA_SOURCE_LENGTH,
        }
    }
}

/// Identifier of an asset. Identifiers are handed out in order, from 1.
pub type AssetId = u128;

/// Opaque description of an asset, fixed at creation.
pub type Metadata = Vec<u8>;

/// Where the figures of an emissions record come from.
pub type DataSource = Vec<u8>;

/// How much of the parent went into a child.
pub type ParentRelation = u128;

/// The asset another one was split from, with the relation between the two.
pub type ParentDetails = Option<(AssetId, ParentRelation)>;

/// A 256-bit account identity, held as its upper and lower 128 bits.
#[derive(Clone, Copy, Debug, PartialEq, Eq, Structural, Hash)]
pub struct AccountId {
    pub hi: u128,
    pub lo: u128,
}

impl AccountId {
    /// The pair of integers under which an account is filed in the
    /// ownership index.
    pub open spec fn spec_key(self) -> (u128, u128) {
        (self.hi, self.lo)
    }

    #[verifier::when_used_as_spec(spec_key)]
    pub fn key(self) -> (k: (u128, u128))
        ensures
            k == self.spec_key(),
    {
        (self.hi, self.lo)
    }
}

/// The bucket an emissions record is counted in.
#[derive(Clone, Copy, Debug, PartialEq, Eq, Structural)]
pub enum EmissionsCategory {
    Process,
    Transport,
    Upstream,
}

/// One entry of an asset's emissions history.
#[derive(Debug, PartialEq, Eq)]
pub struct CO2Emissions {
    /// Bucket of the emissions.
    pub category: EmissionsCategory,
    /// Source of the figures.
    pub data_source: DataSource,
    /// Whether the emissions of this record are balanced.
    pub balanced: bool,
    /// Emissions in whole kilograms of CO2.
    pub value: u128,
    /// UNIX timestamp of the emissions themselves.
    pub date: u64,
}

/// Mathematical value of a [`CO2Emissions`] record.
pub struct EmissionsView {
    pub category: EmissionsCategory,
    pub data_source: Seq<u8>,
    pub balanced: bool,
    pub value: u128,
    pub date: u64,
}

impl View for CO2Emissions {
    type V = EmissionsView;

    open spec fn view(&self) -> EmissionsView {
        EmissionsView {
            category: self.category,
            data_source: self.data_source@,
            balanced: self.balanced,
            value: self.value,
            date: self.date,
        }
    }
}

impl Clone for CO2Emissions {
    fn clone(&self) -> (r: Self)
        ensures
            r@ == self@,
    {
        CO2Emissions {
            category: self.category,
            data_source: self.data_source.clone(),
            balanced: self.balanced,
            value: self.value,
            date: self.date,
        }
    }
}

/// Mathematical value of a list of emissions records.
pub open spec fn emissions_view(items: Seq<CO2Emissions>) -> Seq<EmissionsView> {
    items.map_values(|item: CO2Emissions| item@)
}

/// What a query for one asset returns.
#[derive(Debug, PartialEq, Eq)]
pub struct AssetDetails {
    pub asset_id: AssetId,
    pub metadata: Metadata,
    pub emissions: Vec<CO2Emissions>,
    pub parent: ParentDetails,
}

/// Mathematical value of an [`AssetDetails`].
pub struct AssetDetailsView {
    pub asset_id: AssetId,
    pub metadata: Seq<u8>,
    pub emissions: Seq<EmissionsView>,
    pub parent: ParentDetails,
}

impl View for AssetDetails {
    type V = AssetDetailsView;

    open spec fn view(&self) -> AssetDetailsView {
        AssetDetailsView {
            asset_id: self.asset_id,
            metadata: self.metadata@,
            emissions: emissions_view(self.emissions@),
            parent: self.parent,
        }
    }
}

/// Mathematical value of a list of asset details.
pub open spec fn details_view(items: Seq<AssetDetails>) -> Seq<AssetDetailsView> {
    items.map_values(|item: AssetDetails| item@)
}

/// Copies a list of emissions records.
pub fn clone_emissions(items: &Vec<CO2Emissions>) -> (r: Vec<CO2Emissions>)
    ensures
        emissions_view(r@) == emissions_view(items@),
{
    let mut r: Vec<CO2Emissions> = Vec::new();
    let mut i: usize = 0;
    while i < items.len()
        invariant
            i <= items.len(),
            r.len() == i,
            forall|j: int| 0 <= j < i ==> r[j]@ == items[j]@,
        decreases items.len() - i,
    {
        r.push(items[i].clone());
        i += 1;
    }
    assert(emissions_view(r@) =~= emissions_view(items@));
    r
}

impl Clone for AssetDetails {
    fn clone(&self) -> (r: Self)
        ensures
            r@ == self@,
    {
        AssetDetails {
            asset_id: self.asset_id,
            metadata: self.metadata.clone(),
            emissions: clone_emissions(&self.emissions),
            parent: self.parent,
        }
    }
}

/// Why an operation of the ledger was refused.
#[derive(Clone, Copy, Debug, PartialEq, Eq, Structural)]
pub enum AssetCO2EmissionsError {
    /// No asset identifier is left to hand out.
    AssetIdOverflow,
    /// The asset, or the parent referred to, does not exist.
    AssetNotFound,
    /// The asset is paused already.
    AlreadyPaused,
    /// The caller does not own the asset.
    NotOwner,
    /// The caller does not own the contract.
    NotContractOwner,
    /// The asset is not paused.
    NotPaused,
    /// Reserved: no operation returns it.
    ParentNotFound,
    /// Reserved: no operation returns it.
    ParentNotPaused,
    /// The list of emissions is empty.
    EmissionsEmpty,
    /// The asset would hold more emissions records than allowed.
    EmissionsOverflow,
    /// An emissions record has the value 0.
    ZeroEmissionsItem,
    /// The metadata is longer than allowed.
    MetadataOverflow,
    /// The data source of an emissions record is longer than allowed.
    DataSourceOverflow,
    /// An asset with the identifier exists already.
    AssetAlreadyExists,
    /// The relation between a child and its parent is 0.
    InvalidAssetRelation,
}

} // verus!
