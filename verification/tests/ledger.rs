use asset_co2_emissions::events::{Blasted, Emission, Event, Paused, Transfer};
use asset_co2_emissions::ledger::InfinityAsset;
use asset_co2_emissions::types::{
    AccountId, AssetCO2EmissionsError, AssetDetails, AssetId, CO2Emissions, DataSource,
    EmissionsCategory, Metadata, ParentDetails, MAX_DATA_SOURCE_LENGTH, MAX_EMISSIONS_PER_ASSET,
    MAX_METADATA_LENGTH,
};

struct Accounts {
    alice: AccountId,
    bob: AccountId,
    django: AccountId,
    eve: AccountId,
}

fn account(byte: u8) -> AccountId {
    AccountId {
        hi: u128::from_be_bytes([byte; 16]),
        lo: u128::from_be_bytes([byte; 16]),
    }
}

fn get_accounts() -> Accounts {
    Accounts {
        alice: account(1),
        bob: account(2),
        django: account(4),
        eve: account(5),
    }
}

/// A ledger together with the caller of the next operation and the
/// notifications of the operations so far.
struct Contract {
    ledger: InfinityAsset,
    caller: AccountId,
    events: Vec<Event>,
}

impl Contract {
    fn new() -> Self {
        let caller = get_accounts().alice;
        Contract {
            ledger: InfinityAsset::new(caller),
            caller,
            events: Vec::new(),
        }
    }

    fn record(
        &mut self,
        result: Result<Vec<Event>, AssetCO2EmissionsError>,
    ) -> Result<(), AssetCO2EmissionsError> {
        let events = result?;
        self.events.extend(events);
        Ok(())
    }

    fn set_contract_owner(&mut self, new_owner: AccountId) -> Result<(), AssetCO2EmissionsError> {
        self.ledger.set_contract_owner(self.caller, new_owner)
    }

    fn set_code(&mut self, _code_hash: [u8; 32]) {
        self.ledger
            .ensure_contract_owner(self.caller)
            .expect("Only contract owner can set code hash");
    }

    fn blast(
        &mut self,
        to: AccountId,
        metadata: Metadata,
        emissions: Vec<CO2Emissions>,
        parent: ParentDetails,
    ) -> Result<(), AssetCO2EmissionsError> {
        let result = self.ledger.blast(self.caller, to, metadata, emissions, parent);
        self.record(result)
    }

    fn transfer(
        &mut self,
        to: AccountId,
        id: AssetId,
        emissions: Vec<CO2Emissions>,
    ) -> Result<(), AssetCO2EmissionsError> {
        let result = self.ledger.transfer(self.caller, to, id, emissions);
        self.record(result)
    }

    fn pause(&mut self, id: AssetId) -> Result<(), AssetCO2EmissionsError> {
        let result = self.ledger.pause(self.caller, id);
        self.record(result)
    }

    fn add_emissions(
        &mut self,
        id: AssetId,
        emissions: CO2Emissions,
    ) -> Result<(), AssetCO2EmissionsError> {
        let result = self.ledger.add_emissions(self.caller, id, emissions);
        self.record(result)
    }

    fn last_blasted(&self) -> AssetId {
        for event in self.events.iter().rev() {
            if let Event::Blasted(blasted) = event {
                return blasted.id;
            }
        }
        panic!("no asset was blasted")
    }
}

fn prepare_env() -> (Accounts, Contract) {
    (get_accounts(), Contract::new())
}

fn env_with_default_asset() -> ((Accounts, Contract), (AssetId, AccountId)) {
    let (accounts, mut contract) = prepare_env();
    let asset_owner = accounts.django;
    let asset_id = blast_default_asset(&mut contract, &asset_owner);
    ((accounts, contract), (asset_id, asset_owner))
}

fn new_emission(
    category: EmissionsCategory,
    data_source: DataSource,
    balanced: bool,
    value: u128,
    date: u64,
) -> CO2Emissions {
    CO2Emissions {
        category,
        data_source,
        balanced,
        value,
        date,
    }
}

fn default_data_source() -> Vec<u8> {
    Vec::from([0u8, 1u8, 2u8, 3u8])
}

fn new_emissions(items: u8) -> Vec<CO2Emissions> {
    let mut emissions = Vec::new();
    for i in 0..items {
        emissions.push(new_emission(
            EmissionsCategory::Upstream,
            default_data_source(),
            true,
            i as u128 + 1,
            default_timestamp(),
        ));
    }
    emissions
}

fn default_metadata() -> Vec<u8> {
    Vec::from([0u8, 1u8, 2u8, 3u8])
}

fn default_timestamp() -> u64 {
    // 28.04.2023 00:00:00
    1682632800
}

fn default_emission_item() -> CO2Emissions {
    new_emission(
        EmissionsCategory::Upstream,
        default_data_source(),
        true,
        1,
        default_timestamp(),
    )
}

fn blast_default_asset(contract: &mut Contract, owner: &AccountId) -> AssetId {
    let metadata = default_metadata();
    let parent = None;

    let emissions: Vec<CO2Emissions> = new_emissions(1);

    assert!(contract.blast(*owner, metadata, emissions, parent).is_ok());

    contract.last_blasted()
}

fn split_from(id: AssetId) -> ParentDetails {
    Some((id, 100))
}

fn assert_blasted_event(
    event: &Event,
    expected_id: AssetId,
    expected_metadata: Metadata,
    expected_owner: AccountId,
    expected_parent: ParentDetails,
) {
    if let Event::Blasted(Blasted {
        id,
        metadata,
        owner,
        parent,
    }) = event
    {
        assert_eq!(*id, expected_id, "encountered invalid Blasted.id");
        assert_eq!(
            *metadata, expected_metadata,
            "encountered invalid Blasted.metadata"
        );
        assert_eq!(*owner, expected_owner, "encountered invalid Blasted.owner");
        assert_eq!(
            *parent, expected_parent,
            "encountered invalid Blasted.parent"
        );
    } else {
        panic!("encountered unexpected event kind: expected a Blasted event")
    }
}

fn assert_paused_event(event: &Event, expected_id: AssetId) {
    if let Event::Paused(Paused { id }) = event {
        assert_eq!(*id, expected_id, "encountered invalid Paused.id");
    } else {
        panic!("encountered unexpected event kind: expected a Paused event")
    }
}

fn assert_emissions_event(
    event: &Event,
    expected_id: AssetId,
    expected_category: EmissionsCategory,
    expected_data_source: DataSource,
    expected_balanced: bool,
    expected_date: u64,
    expected_value: u128,
) {
    if let Event::Emission(Emission {
        id,
        category,
        data_source,
        balanced,
        date,
        value,
    }) = event
    {
        assert_eq!(*id, expected_id, "encountered invalid Emission.id");
        assert_eq!(
            *category, expected_category,
            "encountered invalid Emission.category"
        );
        assert_eq!(
            *data_source, expected_data_source,
            "encountered invalid Emission.data_source"
        );
        assert_eq!(
            *balanced, expected_balanced,
            "encountered invalid Emission.balanced"
        );
        assert_eq!(*date, expected_date, "encountered invalid Emission.date");
        assert_eq!(*value, expected_value, "encountered invalid Emission.value");
    } else {
        panic!("encountered unexpected event kind: expected an Emission event")
    }
}

fn assert_transfer_event(
    event: &Event,
    expected_id: AssetId,
    expected_from: AccountId,
    expected_to: AccountId,
) {
    if let Event::Transfer(Transfer { id, from, to }) = event {
        assert_eq!(*id, expected_id, "encountered invalid Transfer.id");
        assert_eq!(*from, expected_from, "encountered invalid Transfer.from");
        assert_eq!(*to, expected_to, "encountered invalid Transfer.to");
    } else {
        panic!("encountered unexpected event kind: expected a Transfer event")
    }
}

#[test]
fn should_set_new_owner() {
    let (accounts, mut contract) = prepare_env();

    // Check if proper contract owner set
    assert_eq!(contract.ledger.contract_owner(), accounts.alice);

    // Set a new contract owner
    assert!(contract.set_contract_owner(accounts.bob).is_ok());

    // Check if new contract owner is properly set
    assert_eq!(contract.ledger.contract_owner(), accounts.bob);
}

#[test]
fn should_reject_set_new_owner() {
    let (accounts, mut contract) = prepare_env();

    // Check initial contract owner
    assert_eq!(contract.ledger.contract_owner(), accounts.alice);

    contract.caller = accounts.bob;

    // Check if proper error is returned
    // While trying to set a new contract owner as nonowner
    assert_eq!(
        contract.set_contract_owner(accounts.bob),
        Err(AssetCO2EmissionsError::NotContractOwner)
    );

    // Check if contract owner remain unchanged
    assert_eq!(contract.ledger.contract_owner(), accounts.alice);
}

#[test]
#[should_panic(expected = "Only contract owner can set code hash")]
fn should_reject_set_code() {
    let (accounts, mut contract) = prepare_env();

    // Check initial contract owner
    assert_eq!(contract.ledger.contract_owner(), accounts.alice);

    contract.caller = accounts.bob;

    // Check if panic
    // While trying to set contract code as nonowner
    contract.set_code([0x0; 32]);
}

#[test]
fn should_reject_empty_emissions_during_blast() {
    let (accounts, mut contract) = prepare_env();

    let metadata = default_metadata();
    let parent = None;
    let emissions: Vec<CO2Emissions> = Vec::new();

    // Check if proper error is returned
    // While trying to blast asset without CO2 Emissions items
    assert_eq!(
        contract.blast(accounts.alice, metadata, emissions, parent),
        Err(AssetCO2EmissionsError::EmissionsEmpty)
    );
}

#[test]
fn should_reject_single_zero_emissions_item_during_blast() {
    let (accounts, mut contract) = prepare_env();

    let metadata = default_metadata();
    let parent = None;

    let mut emissions: Vec<CO2Emissions> = new_emissions(1);
    emissions[0].value = 0;

    // Check if proper error is returned
    // While trying to blast asset with Zero emissions item
    assert_eq!(
        contract.blast(accounts.alice, metadata, emissions, parent),
        Err(AssetCO2EmissionsError::ZeroEmissionsItem)
    );
}

#[test]
fn should_reject_zero_emissions_item_in_array_during_blast() {
    let (accounts, mut contract) = prepare_env();

    let metadata = default_metadata();
    let parent = None;

    let mut emissions = new_emissions(3);
    emissions[1].value = 0;

    // Check if proper error is returned
    // While trying to blast asset with a Zero emissions item in many items
    assert_eq!(
        contract.blast(accounts.alice, metadata, emissions, parent),
        Err(AssetCO2EmissionsError::ZeroEmissionsItem)
    );
}

#[test]
fn should_blast_with_single_emissions_item() {
    let (accounts, mut contract) = prepare_env();

    let metadata = default_metadata();
    let parent = None;

    let emissions: Vec<CO2Emissions> = new_emissions(1);

    let owner = accounts.bob;

    // Check if asset is blasted
    assert!(contract
        .blast(owner, metadata.clone(), emissions.clone(), parent)
        .is_ok());

    let expected_asset_id = 1;

    let emitted_events = &contract.events;

    // Check events count
    // 1 * Blasted + 1 * Emission
    assert_eq!(1 + 1, emitted_events.len());

    // Check Blasted event
    assert_blasted_event(
        &emitted_events[0],
        expected_asset_id,
        metadata,
        owner,
        parent,
    );

    // Check Emission event
    assert_emissions_event(
        &emitted_events[1],
        expected_asset_id,
        emissions[0].category,
        emissions[0].data_source.clone(),
        emissions[0].balanced,
        emissions[0].date,
        emissions[0].value,
    );
}

#[test]
fn should_blast_with_multiple_emissions_items() {
    let (accounts, mut contract) = prepare_env();

    let metadata = default_metadata();
    let parent = None;

    let emissions_items_count: u8 = 3;
    let emissions = new_emissions(emissions_items_count);

    let owner = accounts.eve;

    // Check if asset is blasted
    assert!(contract
        .blast(owner, metadata.clone(), emissions.clone(), parent)
        .is_ok());

    let expected_asset_id = 1;

    let emitted_events = &contract.events;

    // Check proper events count
    // 1 * Blasted + 3 * Emission
    assert_eq!(1 + emissions_items_count, emitted_events.len() as u8);

    // Check Blasted event for the asset
    assert_blasted_event(
        &emitted_events[0],
        expected_asset_id,
        metadata,
        owner,
        parent,
    );

    // Check Emission event for each emission item
    for i in 0..(emissions_items_count as usize) {
        assert_emissions_event(
            &emitted_events[i + 1],
            expected_asset_id,
            emissions[i].category,
            emissions[i].data_source.clone(),
            emissions[i].balanced,
            emissions[i].date,
            emissions[i].value,
        );
    }
}

#[test]
fn should_nonexistent_get_emissions_work_properly() {
    let contract = Contract::new();

    // Check if contract return proper value for nonexistent asset
    assert!(contract.ledger.get_asset_emissions(1000).is_none());
}

#[test]
fn should_get_emissions_work_properly() {
    let (accounts, mut contract) = prepare_env();

    let metadata = default_metadata();
    let parent = None;

    let emissions = new_emissions(3);

    let asset_id = 1;

    // Check if asset is blasted
    assert!(contract
        .blast(accounts.eve, metadata, emissions.clone(), parent)
        .is_ok());

    let emissions_from_state = contract.ledger.get_asset_emissions(asset_id);

    // Check if contract return proper emissions data
    assert!(emissions_from_state.is_some());
    assert!(emissions.iter().eq(emissions_from_state.unwrap().iter()));
}

#[test]
fn should_nonexistent_get_metadata_work_properly() {
    let contract = Contract::new();

    // Check if contract return proper value for nonexistent asset
    assert!(contract.ledger.get_metadata(1000).is_none());
}

#[test]
fn should_get_metadata_work_properly() {
    let ((_accounts, contract), (asset_id, _asset_owner)) = env_with_default_asset();

    let metadata = default_metadata();

    let metadata_from_state = contract.ledger.get_metadata(asset_id);

    // Check if contract return proper metadata
    assert!(metadata_from_state.is_some());
    assert!(metadata.iter().eq(metadata_from_state.unwrap().iter()));
}

#[test]
fn should_nonexistent_get_parent_work_properly() {
    let contract = Contract::new();

    // Check if contract return proper value for nonexistent asset
    assert!(contract.ledger.get_parent_details(1000).is_none());
}

#[test]
fn should_get_parent_for_root_asset_work_properly() {
    let ((_accounts, contract), (asset_id, _asset_owner)) = env_with_default_asset();

    let parent = None;

    let parent_from_state = contract.ledger.get_parent_details(asset_id);

    // Check if contract return proper asset's parent
    assert!(parent_from_state.is_some());
    assert_eq!(parent, parent_from_state.unwrap());
}

#[test]
fn should_owner_of_work_properly() {
    let ((_accounts, contract), (asset_id, asset_owner)) = env_with_default_asset();

    let owner_from_state = contract.ledger.owner_of(asset_id);

    // Check if contract return proper asset's owner
    assert!(owner_from_state.is_some());
    assert_eq!(asset_owner, owner_from_state.unwrap());
}

#[test]
fn should_already_blasted_asset_not_be_paused() {
    let ((_accounts, contract), (asset_id, _asset_owner)) = env_with_default_asset();

    let paused = contract.ledger.has_paused(asset_id);

    // Check if asset is not paused
    assert!(paused.is_some());
    assert!(!paused.unwrap());
}

#[test]
fn should_not_owner_not_be_able_to_set_paused_state() {
    let ((accounts, mut contract), (asset_id, _asset_owner)) = env_with_default_asset();

    contract.caller = accounts.eve;

    // Check if proper error is returned
    // While trying to pause an asset as nonowner
    assert_eq!(
        contract.pause(asset_id),
        Err(AssetCO2EmissionsError::NotOwner)
    );
}

#[test]
fn should_owner_be_able_to_set_paused_state() {
    let ((_accounts, mut contract), (asset_id, asset_owner)) = env_with_default_asset();

    contract.caller = asset_owner;

    // Check if `pause` work
    assert!(contract.pause(asset_id).is_ok());

    let emitted_events = &contract.events;

    // Check events count
    // 1* Blasted + 1 * Emission + 1 * Paused
    assert_eq!(1 + 1 + 1, emitted_events.len());

    // Check Paused event
    assert_paused_event(&emitted_events[2], asset_id);
}

#[test]
fn should_owner_not_be_able_to_set_paused_state_while_already_paused() {
    let ((_accounts, mut contract), (asset_id, asset_owner)) = env_with_default_asset();

    contract.caller = asset_owner;

    // Pause the asset
    assert!(contract.pause(asset_id).is_ok());

    // Check if proper error is returned
    // While trying to pause already paused asset
    assert_eq!(
        contract.pause(asset_id),
        Err(AssetCO2EmissionsError::AlreadyPaused)
    );
}

#[test]
fn should_reject_non_existent_parent_in_blast() {
    let (accounts, mut contract) = prepare_env();

    let metadata = default_metadata();

    let emissions: Vec<CO2Emissions> = new_emissions(1);

    let owner = accounts.alice;

    let parent: ParentDetails = split_from(1000);

    contract.caller = owner;

    // Check if proper error is returned
    // While trying to blast asset with nonexistent parent
    assert_eq!(
        contract.blast(owner, metadata, emissions, parent),
        Err(AssetCO2EmissionsError::AssetNotFound)
    );
}

#[test]
fn should_reject_not_owner_creating_child_in_blast() {
    let ((accounts, mut contract), (asset_id, asset_owner)) = env_with_default_asset();

    let emissions = new_emissions(1);
    let metadata = default_metadata();

    let parent: ParentDetails = split_from(asset_id);

    contract.caller = accounts.alice;

    // Check if proper error is returned
    // While trying to blast child asset as parent nonowner
    assert_eq!(
        contract.blast(asset_owner, metadata, emissions, parent),
        Err(AssetCO2EmissionsError::NotOwner)
    );
}

#[test]
fn should_reject_not_paused_in_blast() {
    let ((_accounts, mut contract), (asset_id, asset_owner)) = env_with_default_asset();

    let emissions = new_emissions(1);
    let metadata = default_metadata();

    contract.caller = asset_owner;

    let parent: ParentDetails = split_from(asset_id);

    // Check if proper error is returned
    // While trying to blast a child asset for not paused parent
    assert_eq!(
        contract.blast(asset_owner, metadata, emissions, parent),
        Err(AssetCO2EmissionsError::NotPaused)
    );
}

#[test]
fn should_blast_child() {
    let ((_accounts, mut contract), (asset_id, asset_owner)) = env_with_default_asset();

    contract.caller = asset_owner;

    let metadata = default_metadata();
    let emissions = new_emissions(1);
    let parent: ParentDetails = split_from(asset_id);

    // Pause parent asset
    assert!(contract.pause(asset_id).is_ok());

    // Blast child asset
    assert!(contract
        .blast(asset_owner, metadata.clone(), emissions.clone(), parent)
        .is_ok());

    let expected_asset_id = 2;

    let emitted_events = &contract.events;

    // Check events count
    // 1 * Blasted + 1 * Emission + 1 * Paused + 1 * Blasted + 1 * Emission
    assert_eq!(1 + 1 + 1 + 1 + 1, emitted_events.len());

    // Check Blasted event
    assert_blasted_event(
        &emitted_events[3],
        expected_asset_id,
        metadata,
        asset_owner,
        parent,
    );

    // Check Emission event for already blasted child asset
    assert_emissions_event(
        &emitted_events[4],
        expected_asset_id,
        emissions[0].category,
        emissions[0].data_source.clone(),
        emissions[0].balanced,
        emissions[0].date,
        emissions[0].value,
    );

    // Check child asset's parent
    let parent_from_state = contract.ledger.get_parent_details(expected_asset_id);
    assert!(parent_from_state.is_some());
    assert_eq!(parent, parent_from_state.unwrap());
}

#[test]
fn should_not_add_emissions_to_nonexistent_asset() {
    let mut contract = Contract::new();

    let item = default_emission_item();

    let asset_id = 1;

    // Check if proper error is returned
    // While trying to add CO2 Emissions to nonexistent asset
    assert_eq!(
        contract.add_emissions(asset_id, item),
        Err(AssetCO2EmissionsError::AssetNotFound)
    );
}

#[test]
fn should_not_owner_not_be_able_to_add_emissions() {
    let ((accounts, mut contract), (asset_id, _asset_owner)) = env_with_default_asset();

    contract.caller = accounts.bob;

    // Check if proper error is returned
    // While trying to add CO2 Emissions as asset's nonowner
    assert_eq!(
        contract.add_emissions(asset_id, default_emission_item()),
        Err(AssetCO2EmissionsError::NotOwner)
    );
}

#[test]
fn should_reject_paused_in_add_emissions() {
    let ((_accounts, mut contract), (asset_id, asset_owner)) = env_with_default_asset();

    contract.caller = asset_owner;

    // Pause the asset first
    assert!(contract.pause(asset_id).is_ok());

    // Check if proper error is returned
    // While trying to add CO2 Emissions in Paused state
    assert_eq!(
        contract.add_emissions(asset_id, default_emission_item()),
        Err(AssetCO2EmissionsError::AlreadyPaused)
    );
}

#[test]
fn should_reject_zero_emissions_item_in_add_emissions() {
    let ((_accounts, mut contract), (asset_id, asset_owner)) = env_with_default_asset();

    contract.caller = asset_owner;

    // Prepare Zero emissions item
    let mut new_emission_item = default_emission_item();
    new_emission_item.value = 0u128;

    // Check if proper error is returned
    // While trying to add Zero emissions item in `add_emissions`
    assert_eq!(
        contract.add_emissions(asset_id, new_emission_item),
        Err(AssetCO2EmissionsError::ZeroEmissionsItem)
    );
}

#[test]
fn should_owner_be_able_to_add_emissions() {
    let ((_accounts, mut contract), (asset_id, asset_owner)) = env_with_default_asset();

    contract.caller = asset_owner;

    let emission_item = default_emission_item();

    // Add CO2 Emissions item
    assert!(contract
        .add_emissions(asset_id, emission_item.clone())
        .is_ok());

    let emitted_events = &contract.events;

    // Check events count
    // 1 * Blasted + 1 * Emissions + 1 * Emissions
    assert_eq!(1 + 1 + 1, emitted_events.len());
    assert_emissions_event(
        &emitted_events[2],
        asset_id,
        emission_item.category,
        emission_item.data_source.clone(),
        emission_item.balanced,
        emission_item.date,
        emission_item.value,
    );

    let expected_emissions: Vec<CO2Emissions> =
        Vec::from([default_emission_item(), emission_item]);
    let emissions_from_state = contract.ledger.get_asset_emissions(asset_id);

    // Check if contract return proper CO2 Emissions data
    assert!(emissions_from_state.is_some());
    assert!(expected_emissions
        .iter()
        .eq(emissions_from_state.unwrap().iter()));
}

#[test]
fn should_not_transfer_nonexistent_asset() {
    let (accounts, mut contract) = prepare_env();

    let item = default_emission_item();

    let asset_id = 1;

    contract.caller = accounts.alice;

    // Check if proper error is returned
    // While trying to transfer nonexistent asset
    assert_eq!(
        contract.transfer(accounts.bob, asset_id, Vec::from([item])),
        Err(AssetCO2EmissionsError::AssetNotFound)
    );
}

#[test]
fn should_not_owner_not_be_able_to_transfer() {
    let ((accounts, mut contract), (asset_id, _asset_owner)) = env_with_default_asset();

    contract.caller = accounts.bob;

    // Check if proper error is returned
    // While trying to transfer asset as nonowner
    assert_eq!(
        contract.transfer(accounts.bob, asset_id, new_emissions(1)),
        Err(AssetCO2EmissionsError::NotOwner)
    );
}

#[test]
fn should_reject_transfer_in_paused() {
    let ((accounts, mut contract), (asset_id, asset_owner)) = env_with_default_asset();

    contract.caller = asset_owner;

    // Pause an asset
    assert!(contract.pause(asset_id).is_ok());

    // Check if proper error is returned
    // While trying to transfer asset in Paused state
    assert_eq!(
        contract.transfer(accounts.bob, asset_id, new_emissions(2)),
        Err(AssetCO2EmissionsError::AlreadyPaused)
    );
}

#[test]
fn should_reject_empty_emissions_in_transfer() {
    let ((accounts, mut contract), (asset_id, asset_owner)) = env_with_default_asset();

    contract.caller = asset_owner;

    // Check if proper error is returned
    // While trying to transfer asset with empty vector of CO2 Emissions items
    assert_eq!(
        contract.transfer(accounts.bob, asset_id, Vec::new()),
        Err(AssetCO2EmissionsError::EmissionsEmpty)
    );
}

#[test]
fn should_reject_too_many_emissions_on_blast() {
    let (accounts, mut contract) = prepare_env();

    let metadata = default_metadata();
    let parent = None;

    let emissions: Vec<CO2Emissions> = new_emissions(MAX_EMISSIONS_PER_ASSET + 1);

    let expected_asset_id = 1;
    let owner = accounts.alice;

    contract.caller = owner;

    // Check if proper error is returned
    // While trying to blast asset with too many emissions items
    assert_eq!(
        contract.blast(owner, metadata, emissions, parent),
        Err(AssetCO2EmissionsError::EmissionsOverflow)
    );

    // Check if asset is not blasted
    assert!(contract.ledger.get_asset(expected_asset_id).is_none());
}

#[test]
fn should_reject_too_many_emissions_on_add() {
    let (accounts, mut contract) = prepare_env();

    let metadata = default_metadata();
    let parent = None;

    let emissions: Vec<CO2Emissions> = new_emissions(MAX_EMISSIONS_PER_ASSET);

    let asset_id = 1;
    let owner = accounts.alice;

    contract.caller = owner;

    // Blast asset with max emissions items count
    assert!(contract.blast(owner, metadata, emissions, parent).is_ok());

    let item = default_emission_item();

    // Check if proper error is returned
    // While trying to add emission item causing overflow
    assert_eq!(
        contract.add_emissions(asset_id, item.clone()),
        Err(AssetCO2EmissionsError::EmissionsOverflow)
    );

    // Check if proper error is returned
    // While trying to transfer with emission item causing overflow
    assert_eq!(
        contract.transfer(accounts.bob, asset_id, Vec::from([item])),
        Err(AssetCO2EmissionsError::EmissionsOverflow)
    );
}

#[test]
fn should_reject_too_many_chars_in_data_source() {
    let (accounts, mut contract) = prepare_env();

    let metadata = default_metadata();

    let parent = None;

    let emissions_data_source = vec![1u8; MAX_DATA_SOURCE_LENGTH as usize + 1];
    let mut item = default_emission_item();
    item.data_source = emissions_data_source;

    let emissions: Vec<CO2Emissions> = Vec::from([item]);

    let expected_asset_id = 1;
    let owner = accounts.alice;

    contract.caller = owner;

    // Check if proper error is returned
    // While trying to blast asset with emissions item `data_source` overflow
    assert_eq!(
        contract.blast(owner, metadata, emissions, parent),
        Err(AssetCO2EmissionsError::DataSourceOverflow)
    );

    // Check if asset is not blasted
    assert!(contract.ledger.get_asset(expected_asset_id).is_none());
}

#[test]
fn should_reject_zero_emissions_item_in_transfer() {
    let ((accounts, mut contract), (asset_id, asset_owner)) = env_with_default_asset();

    contract.caller = asset_owner;

    let mut emissions = new_emissions(4);
    emissions[2].value = 0;

    // Check if proper error is returned
    // While trying to transfer with Zero emission item
    assert_eq!(
        contract.transfer(accounts.bob, asset_id, emissions),
        Err(AssetCO2EmissionsError::ZeroEmissionsItem)
    );
}

#[test]
fn should_reject_too_many_chars_in_metadata() {
    let (accounts, mut contract) = prepare_env();

    let metadata: Metadata = vec![0u8; MAX_METADATA_LENGTH as usize + 1];

    let parent = None;

    let emissions = new_emissions(1);

    let expected_asset_id = 1;
    let owner = accounts.alice;

    contract.caller = owner;

    // Check if proper error is returned
    // While trying to blast asset with `metadata` overflow
    assert_eq!(
        contract.blast(owner, metadata, emissions, parent),
        Err(AssetCO2EmissionsError::MetadataOverflow)
    );

    // Check if asset is not blasted
    assert!(contract.ledger.get_asset(expected_asset_id).is_none());
}

#[test]
fn should_owner_be_able_to_transfer() {
    let ((accounts, mut contract), (asset_id, asset_owner)) = env_with_default_asset();

    contract.caller = asset_owner;

    let new_owner = accounts.bob;

    let emissions = new_emissions(1);

    // Transfer asset
    assert!(contract
        .transfer(new_owner, asset_id, emissions.clone())
        .is_ok());

    let emitted_events = &contract.events;

    // Check emitted events count
    // 1 * Blasted + 1 * Emission + 1 * Transfer + 1 * Emission
    assert_eq!(1 + 1 + 1 + 1, emitted_events.len());

    // Check Transfer event
    assert_transfer_event(&emitted_events[2], asset_id, asset_owner, new_owner);

    // Check Emission event
    assert_emissions_event(
        &emitted_events[3],
        asset_id,
        emissions[0].category,
        emissions[0].data_source.clone(),
        emissions[0].balanced,
        emissions[0].date,
        emissions[0].value,
    );

    let expected_emissions: Vec<CO2Emissions> =
        Vec::from([default_emission_item(), emissions[0].clone()]);
    let emissions_from_state = contract.ledger.get_asset_emissions(asset_id);

    // Check asset's CO2 Emissions items
    assert!(emissions_from_state.is_some());
    assert!(expected_emissions
        .iter()
        .eq(emissions_from_state.unwrap().iter()));

    // Check asset's owner
    let owner_from_state = contract.ledger.owner_of(asset_id);
    assert!(owner_from_state.is_some());
    assert_eq!(new_owner, owner_from_state.unwrap());
}

#[test]
fn should_nonexistent_asset_query_emissions_work_properly() {
    let contract = Contract::new();
    assert!(contract.ledger.query_emissions(69).is_none());
}

#[test]
fn should_query_emissions_for_single_asset_work_properly() {
    let ((_accounts, mut contract), (asset_id, asset_owner)) = env_with_default_asset();

    contract.caller = asset_owner;

    let emissions = Vec::from([default_emission_item()]);
    let metadata: Metadata = default_metadata();
    let parent = None;

    let expected_value: Vec<AssetDetails> = Vec::from([AssetDetails {
        asset_id,
        metadata,
        emissions,
        parent,
    }]);

    let details_from_state = contract.ledger.query_emissions(asset_id);

    // Check single asset tree
    assert!(details_from_state.is_some());
    assert_eq!(expected_value, details_from_state.unwrap());
}

#[test]
fn should_query_emissions_for_longer_path_work_properly() {
    let ((_accounts, mut contract), (mut asset_id, asset_owner)) = env_with_default_asset();

    let metadata = default_metadata();

    let emissions: Vec<CO2Emissions> = Vec::from([default_emission_item()]);

    let mut expected_tree_path: Vec<AssetDetails> = Vec::from([AssetDetails {
        asset_id,
        metadata: metadata.clone(),
        emissions,
        parent: None,
    }]);

    let timestamp = 1_000_000_000u64;

    contract.caller = asset_owner;
    // create long token tree path
    for i in 1..1_000 {
        let parent: ParentDetails = split_from(asset_id);

        let mut emissions = new_emissions(1);
        emissions[0].value = i;
        emissions[0].date = timestamp + i as u64;

        // Pause an asset
        assert!(contract.pause(asset_id).is_ok());

        // Blast child asset
        assert!(contract
            .blast(asset_owner, metadata.clone(), emissions.clone(), parent)
            .is_ok());

        asset_id += 1;
        expected_tree_path.insert(
            0,
            AssetDetails {
                asset_id,
                metadata: metadata.clone(),
                emissions,
                parent,
            },
        );
    }

    let details_from_state = contract.ledger.query_emissions(asset_id);

    // Check extended asset tree
    assert!(details_from_state.is_some());
    assert_eq!(expected_tree_path, details_from_state.unwrap());
}

#[test]
fn should_list_asset_for_empty_account_work_properly() {
    let (accounts, contract) = prepare_env();

    // Check if contract return proper value for `list_assets`
    assert_eq!(
        contract.ledger.list_assets(accounts.alice),
        Vec::<AssetId>::new()
    );
}

#[test]
fn should_list_asset_for_single_asset_work_properly() {
    let ((_accounts, mut contract), (asset_id, asset_owner)) = env_with_default_asset();

    contract.caller = asset_owner;

    // Check if contract return proper value for `list_assets`
    assert_eq!(
        Vec::<AssetId>::from([asset_id]),
        contract.ledger.list_assets(asset_owner)
    );
}

#[test]
fn should_list_assets_for_many_assets_work_properly() {
    let ((_accounts, mut contract), (mut asset_id, asset_owner)) = env_with_default_asset();

    let metadata = default_metadata();

    let timestamp = 1_000_000_000u64;

    contract.caller = asset_owner;

    // create long token tree path
    for i in 1..1_000 {
        let parent: ParentDetails = split_from(asset_id);
        let mut emissions = new_emissions(1);
        emissions[0].value = i;
        emissions[0].date = timestamp + i as u64;

        // Pause an asset
        assert!(contract.pause(asset_id).is_ok());
        // Blast a child
        assert!(contract
            .blast(asset_owner, metadata.clone(), emissions.clone(), parent)
            .is_ok());

        asset_id += 1;
    }

    let mut assets_from_state = contract.ledger.list_assets(asset_owner);
    assets_from_state.sort();

    // Check if contract return proper value
    assert_eq!((1..1_001).collect::<Vec<AssetId>>(), assets_from_state);
}

#[test]
fn should_list_asset_after_transfer_work_properly() {
    let ((accounts, mut contract), (asset_id, asset_owner)) = env_with_default_asset();

    let new_owner = accounts.bob;

    contract.caller = asset_owner;

    // Check owned assets before `transfer`
    assert_eq!(
        Vec::from([asset_id]),
        contract.ledger.list_assets(asset_owner)
    );
    assert_eq!(
        Vec::<AssetId>::new(),
        contract.ledger.list_assets(new_owner)
    );

    // Transfer asset
    assert!(contract
        .transfer(new_owner, asset_id, new_emissions(1))
        .is_ok());

    // Check owned assets after `transfer`
    assert_eq!(
        Vec::<AssetId>::new(),
        contract.ledger.list_assets(asset_owner)
    );
    assert_eq!(
        Vec::from([asset_id]),
        contract.ledger.list_assets(new_owner)
    );
}
