//! Validators of what comes in with an operation. None of them looks at the
//! ledger.

use vstd::prelude::*;
use crate::model::{
    bounded_check, data_source_check, emissions_check, item_check, items_check, metadata_check,
    not_empty_check, not_zero_check,
};
use crate::types::{
    emissions_view, AssetCO2EmissionsError, CO2Emissions, DataSource, EmissionsView, Limits,
    Metadata,
};

verus! {

/// Once a prefix of a list has an error, the whole list has that error.
pub proof fn lemma_items_check_prefix(limits: Limits, items: Seq<EmissionsView>, k: int)
    requires
        0 <= k <= items.len(),
        items_check(limits, items.take(k)) is Err,
    ensures
        items_check(limits, items) == items_check(limits, items.take(k)),
    decreases items.len() - k,
{
    if k == items.len() {
        assert(items.take(k) =~= items);
    } else {
        assert(items.take(k + 1).drop_last() =~= items.take(k));
        lemma_items_check_prefix(limits, items, k + 1);
    }
}

/// A list passes exactly if each of its records does.
pub proof fn lemma_items_check_ok(limits: Limits, items: Seq<EmissionsView>)
    ensures
        items_check(limits, items) is Ok <==> forall|i: int|
            0 <= i < items.len() ==> item_check(limits, #[trigger] items[i]) is Ok,
    decreases items.len(),
{
    if items.len() > 0 {
        lemma_items_check_ok(limits, items.drop_last());
        if items_check(limits, items) is Ok {
            assert forall|i: int| 0 <= i < items.len() implies item_check(
                limits,
                #[trigger] items[i],
            ) is Ok by {
                if i < items.len() - 1 {
                    assert(items[i] == items.drop_last()[i]);
                }
            }
        } else if items_check(limits, items.drop_last()) is Err {
            let i = choose|i: int|
                0 <= i < items.drop_last().len() && !(item_check(
                limits,
                    #[trigger] items.drop_last()[i],
                ) is Ok);
            assert(items[i] == items.drop_last()[i]);
        }
    }
}

/// Metadata must not be longer than the limit.
pub fn ensure_proper_metadata(limits: &Limits, metadata: &Metadata) -> (r: Result<
    (),
    AssetCO2EmissionsError,
>)
    ensures
        r == metadata_check(*limits, metadata@),
{
    if metadata.len() > limits.max_metadata_length as usize {
        return Err(AssetCO2EmissionsError::MetadataOverflow);
    }
    Ok(())
}

/// A list of emissions must not be empty.
pub fn ensure_emissions_not_empty(emissions: &Vec<CO2Emissions>) -> (r: Result<
    (),
    AssetCO2EmissionsError,
>)
    ensures
        r == not_empty_check(emissions@.len()),
{
    if emissions.len() == 0 {
        Err(AssetCO2EmissionsError::EmissionsEmpty)
    } else {
        Ok(())
    }
}

/// An asset that holds `existing` records has room for `added` more.
pub fn ensure_emissions_not_unbounded(limits: &Limits, existing: usize, added: usize) -> (r:
    Result<(), AssetCO2EmissionsError>)
    ensures
        r == bounded_check(*limits, (existing + added) as nat),
{
    let limit: usize = limits.max_emissions_per_asset as usize;
    if existing > limit || added > limit - existing {
        return Err(AssetCO2EmissionsError::EmissionsOverflow);
    }
    Ok(())
}

/// The data source of a record must not be longer than the limit.
pub fn ensure_emissions_data_src_not_unbounded(limits: &Limits, data_source: &DataSource) -> (r:
    Result<(), AssetCO2EmissionsError>)
    ensures
        r == data_source_check(*limits, data_source@),
{
    if data_source.len() > limits.max_data_source_length as usize {
        return Err(AssetCO2EmissionsError::DataSourceOverflow);
    }
    Ok(())
}

/// The value of a record must not be 0.
pub fn ensure_emissions_item_not_zero(emissions: &CO2Emissions) -> (r: Result<
    (),
    AssetCO2EmissionsError,
>)
    ensures
        r == not_zero_check(emissions.value),
{
    if emissions.value == 0 {
        Err(AssetCO2EmissionsError::ZeroEmissionsItem)
    } else {
        Ok(())
    }
}

/// One record: its data source first, then its value.
pub fn ensure_emissions_item_correct(limits: &Limits, item: &CO2Emissions) -> (r: Result<
    (),
    AssetCO2EmissionsError,
>)
    ensures
        r == item_check(*limits, item@),
{
    ensure_emissions_data_src_not_unbounded(limits, &item.data_source)?;
    ensure_emissions_item_not_zero(item)?;
    Ok(())
}

/// A list of emissions to be added to an asset that holds `existing`
/// records: not empty, within the limit together with those, and every
/// record valid. The first record with an error decides.
pub fn ensure_emissions_correct(
    limits: &Limits,
    existing: usize,
    emissions: &Vec<CO2Emissions>,
) -> (r: Result<(), AssetCO2EmissionsError>)
    ensures
        r == emissions_check(*limits, existing as nat, emissions_view(emissions@)),
{
    ensure_emissions_not_empty(emissions)?;
    ensure_emissions_not_unbounded(limits, existing, emissions.len())?;
    let ghost items = emissions_view(emissions@);
    let mut i: usize = 0;
    while i < emissions.len()
        invariant
            i <= emissions.len(),
            items == emissions_view(emissions@),
            not_empty_check(items.len()) is Ok,
            bounded_check(*limits, (existing + items.len()) as nat) is Ok,
            items_check(*limits, items.take(i as int)) is Ok,
        decreases emissions.len() - i,
    {
        let checked = ensure_emissions_item_correct(limits, &emissions[i]);
        proof {
            assert(items.take(i as int + 1).drop_last() =~= items.take(i as int));
            assert(items.take(i as int + 1).last() == emissions@[i as int]@);
            if checked is Err {
                lemma_items_check_prefix(*limits, items, i as int + 1);
            }
        }
        if checked.is_err() {
            return checked;
        }
        i += 1;
    }
    assert(items.take(emissions.len() as int) =~= items);
    Ok(())
}

} // verus!
