//! Notifications that the state-changing operations hand back.

use vstd::prelude::*;
use crate::types::{
    AccountId, AssetId, CO2Emissions, DataSource, EmissionsCategory, EmissionsView, Metadata,
    ParentDetails,
};

verus! {

/// An asset was created.
#[derive(Debug, PartialEq, Eq)]
pub struct Blasted {
    pub id: AssetId,
    pub metadata: Metadata,
    pub owner: AccountId,
    pub parent: ParentDetails,
}

/// The ownership of an asset changed.
#[derive(Clone, Copy, Debug, PartialEq, Eq, Structural)]
pub struct Transfer {
    pub from: AccountId,
    pub to: AccountId,
    pub id: AssetId,
}

/// An asset was paused.
#[derive(Clone, Copy, Debug, PartialEq, Eq, Structural)]
pub struct Paused {
    pub id: AssetId,
}

/// An emissions record was added to an asset.
#[derive(Debug, PartialEq, Eq)]
pub struct Emission {
    pub id: AssetId,
    pub category: EmissionsCategory,
    pub data_source: DataSource,
    pub balanced: bool,
    pub date: u64,
    pub value: u128,
}

/// One notification of the ledger.
#[derive(Debug, PartialEq, Eq)]
pub enum Event {
    Blasted(Blasted),
    Transfer(Transfer),
    Paused(Paused),
    Emission(Emission),
}

/// Mathematical value of an [`Event`].
pub enum EventView {
    Blasted { id: AssetId, metadata: Seq<u8>, owner: AccountId, parent: ParentDetails },
    Transfer { from: AccountId, to: AccountId, id: AssetId },
    Paused { id: AssetId },
    Emission { id: AssetId, item: EmissionsView },
}

impl View for Event {
    type V = EventView;

    open spec fn view(&self) -> EventView {
        match *self {
            Event::Blasted(e) => EventView::Blasted {
                id: e.id,
                metadata: e.metadata@,
                owner: e.owner,
                parent: e.parent,
            },
            Event::Transfer(e) => EventView::Transfer { from: e.from, to: e.to, id: e.id },
            Event::Paused(e) => EventView::Paused { id: e.id },
            Event::Emission(e) => EventView::Emission {
                id: e.id,
                item: EmissionsView {
                    category: e.category,
                    data_source: e.data_source@,
                    balanced: e.balanced,
                    value: e.value,
                    date: e.date,
                },
            },
        }
    }
}

/// Mathematical value of a list of events.
pub open spec fn events_view(events: Seq<Event>) -> Seq<EventView> {
    events.map_values(|e: Event| e@)
}

/// The notifications for a list of emissions records added to asset `id`,
/// one for each record, in the order of the list.
pub open spec fn emission_events(id: AssetId, items: Seq<EmissionsView>) -> Seq<EventView> {
    items.map_values(|item: EmissionsView| EventView::Emission { id, item })
}

impl Emission {
    /// The notification for `item` added to asset `id`.
    pub fn of(id: AssetId, item: &CO2Emissions) -> (r: Emission)
        ensures
            Event::Emission(r)@ == (EventView::Emission { id, item: item@ }),
    {
        Emission {
            id,
            category: item.category,
            data_source: item.data_source.clone(),
            balanced: item.balanced,
            date: item.date,
            value: item.value,
        }
    }
}

/// Appends to `events` the notifications for `items` added to asset `id`.
pub fn push_emission_events(events: &mut Vec<Event>, id: AssetId, items: &Vec<CO2Emissions>)
    ensures
        events_view(final(events)@) == events_view(old(events)@) + emission_events(
            id,
            crate::types::emissions_view(items@),
        ),
{
    let ghost before = events_view(events@);
    let mut i: usize = 0;
    while i < items.len()
        invariant
            i <= items.len(),
            events_view(events@) == before + emission_events(
                id,
                crate::types::emissions_view(items@.take(i as int)),
            ),
        decreases items.len() - i,
    {
        let ghost prev = events@;
        events.push(Event::Emission(Emission::of(id, &items[i])));
        proof {
            let done = crate::types::emissions_view(items@.take(i as int));
            let item = items@[i as int]@;
            assert(items@.take(i as int + 1) =~= items@.take(i as int).push(items@[i as int]));
            assert(crate::types::emissions_view(items@.take(i as int + 1)) =~= done.push(item));
            assert(emission_events(id, done.push(item)) =~= emission_events(id, done).push(
                EventView::Emission { id, item },
            ));
            assert(events@ =~= prev.push(events@[prev.len() as int]));
            assert(events_view(events@) =~= events_view(prev).push(
                EventView::Emission { id, item },
            ));
            assert(events_view(events@) =~= before + emission_events(id, done.push(item)));
        }
        i += 1;
    }
    assert(items@.take(items.len() as int) =~= items@);
}

} // verus!
