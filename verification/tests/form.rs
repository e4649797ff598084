use upgrade_strategy::api::requests::BadResponse;
use upgrade_strategy::input::{Field, FieldId, FieldRegistry, FieldTable};
use upgrade_strategy::state::{on_field_change, submits_search, FieldMap, State};
use upgrade_strategy::strategy::rate::RateInputs;

const ALL: [FieldId; 8] = [
    FieldId::Handicraft,
    FieldId::EnhancementMastery,
    FieldId::UpgradeSalvation,
    FieldId::UpgradeableCount,
    FieldId::TraceRequired,
    FieldId::TracePrice,
    FieldId::BaseSuccessRate,
    FieldId::UpgradePrice,
];

fn field(id: FieldId, min: u32, max: u32) -> Field {
    Field { id, label: "label", placeholder: "placeholder", min, max }
}

fn registry() -> FieldRegistry {
    FieldRegistry::load(Some(vec![
        field(FieldId::Handicraft, 0, 100),
        field(FieldId::EnhancementMastery, 0, 4),
        field(FieldId::UpgradeSalvation, 0, 4),
        field(FieldId::UpgradeableCount, 1, 12),
        field(FieldId::TraceRequired, 0, 10_000),
        field(FieldId::TracePrice, 0, 10_000),
        field(FieldId::BaseSuccessRate, 0, 100),
        field(FieldId::UpgradePrice, 0, 1_000_000),
    ]))
}

fn entries(map: &FieldMap) -> Vec<(FieldId, u32)> {
    ALL.iter().filter_map(|id| map.get(*id).map(|value| (*id, *value))).collect()
}

#[test]
fn field_range_includes_both_ends() {
    let count = field(FieldId::UpgradeableCount, 1, 12);
    assert!(!count.is_valid_value(0));
    assert!(count.is_valid_value(1));
    assert!(count.is_valid_value(7));
    assert!(count.is_valid_value(12));
    assert!(!count.is_valid_value(13));
    assert!(!count.is_valid_value(u32::MAX));
    let inverted = field(FieldId::TracePrice, 5, 4);
    assert!(!inverted.is_valid_value(4));
    assert!(!inverted.is_valid_value(5));
}

#[test]
fn field_bounds_for_saving() {
    let count = field(FieldId::UpgradeableCount, 1, 12);
    assert_eq!(count.get_min(), 1);
    assert_eq!(count.get_max(), 1);
    let level = field(FieldId::Handicraft, 0, 100);
    assert_eq!(level.get_min(), 0);
    assert_eq!(level.get_max(), 0);
}

#[test]
fn table_starts_empty_and_keeps_the_last_value() {
    let mut table: FieldTable<u32> = FieldTable::new();
    for id in ALL {
        assert_eq!(table.get(id), None);
    }
    table.insert(FieldId::TracePrice, 5);
    table.insert(FieldId::Handicraft, 6);
    table.insert(FieldId::TracePrice, 7);
    assert_eq!(entries(&table), vec![(FieldId::Handicraft, 6), (FieldId::TracePrice, 7)]);
}

#[test]
fn registry_finds_each_field_by_name() {
    let fields = registry();
    for id in ALL {
        assert!(fields.contains(id));
        assert_eq!(fields.get(id).id, id);
    }
    assert_eq!(fields.get(FieldId::UpgradeableCount).min, 1);
    assert_eq!(fields.get(FieldId::UpgradeableCount).max, 12);
}

#[test]
fn registry_keeps_the_later_of_two_descriptions() {
    let fields = FieldRegistry::load(Some(vec![
        field(FieldId::Handicraft, 0, 100),
        field(FieldId::TracePrice, 1, 2),
        field(FieldId::Handicraft, 3, 50),
    ]));
    assert_eq!(fields.get(FieldId::Handicraft).min, 3);
    assert_eq!(fields.get(FieldId::Handicraft).max, 50);
    assert_eq!(fields.get(FieldId::TracePrice).max, 2);
    assert!(!fields.contains(FieldId::UpgradePrice));
}

#[test]
fn registry_without_descriptions_is_empty() {
    for fields in [FieldRegistry::load(None), FieldRegistry::load(Some(Vec::new()))] {
        for id in ALL {
            assert!(!fields.contains(id));
        }
    }
}

#[test]
fn state_holds_what_was_inserted() {
    let mut state = State::new(FieldTable::new());
    assert_eq!(state.get(FieldId::Handicraft), None);
    assert_eq!(state.get_or_default(FieldId::Handicraft), 0);
    state.insert(FieldId::Handicraft, 47);
    state.insert(FieldId::TracePrice, 0);
    assert_eq!(state.get(FieldId::Handicraft), Some(47));
    assert_eq!(state.get_or_default(FieldId::Handicraft), 47);
    assert_eq!(state.get(FieldId::TracePrice), Some(0));
    assert_eq!(state.get(FieldId::EnhancementMastery), None);
    state.insert(FieldId::Handicraft, 48);
    assert_eq!(state.get(FieldId::Handicraft), Some(48));
}

#[test]
fn state_starts_from_the_given_values() {
    let mut map = FieldTable::new();
    map.insert(FieldId::UpgradePrice, 9);
    let state = State::new(map);
    assert_eq!(state.get(FieldId::UpgradePrice), Some(9));
    assert_eq!(state.get(FieldId::TracePrice), None);
}

#[test]
fn filtered_keeps_values_between_the_two_bounds() {
    let mut state = State::new(FieldTable::new());
    state.insert(FieldId::Handicraft, 0);
    state.insert(FieldId::EnhancementMastery, 3);
    state.insert(FieldId::UpgradeableCount, 1);
    state.insert(FieldId::TraceRequired, 10_001);
    state.insert(FieldId::UpgradePrice, 0);
    let saved = state.filtered(&registry());
    assert_eq!(
        entries(&saved),
        vec![(FieldId::Handicraft, 0), (FieldId::UpgradeableCount, 1), (FieldId::UpgradePrice, 0)]
    );
    assert_eq!(state.get(FieldId::EnhancementMastery), Some(3));
}

#[test]
fn filtered_of_an_empty_form_is_empty() {
    let saved = State::new(FieldTable::new()).filtered(&registry());
    assert!(entries(&saved).is_empty());
    let saved = State::new(FieldTable::new()).filtered(&FieldRegistry::load(None));
    assert!(entries(&saved).is_empty());
}

#[test]
fn rate_inputs_take_zero_for_what_is_missing() {
    let mut state = State::new(FieldTable::new());
    assert_eq!(
        state.rate_inputs(),
        RateInputs {
            upgradeable_count: 0,
            base_success_rate: 0,
            handicraft_level: 0,
            enhance_mastery_level: 0,
            upgrade_salvation_level: 0,
            upgrade_price: 0,
            trace_required: 0,
            trace_price: 0,
        }
    );
    state.insert(FieldId::UpgradeableCount, 1);
    state.insert(FieldId::BaseSuccessRate, 2);
    state.insert(FieldId::Handicraft, 3);
    state.insert(FieldId::EnhancementMastery, 4);
    state.insert(FieldId::UpgradeSalvation, 5);
    state.insert(FieldId::UpgradePrice, 6);
    state.insert(FieldId::TraceRequired, 7);
    state.insert(FieldId::TracePrice, 8);
    assert_eq!(
        state.rate_inputs(),
        RateInputs {
            upgradeable_count: 1,
            base_success_rate: 2,
            handicraft_level: 3,
            enhance_mastery_level: 4,
            upgrade_salvation_level: 5,
            upgrade_price: 6,
            trace_required: 7,
            trace_price: 8,
        }
    );
}

#[test]
fn field_change_stores_numbers_in_range() {
    let count = field(FieldId::UpgradeableCount, 1, 12);
    let mut state = State::new(FieldTable::new());
    assert_eq!(on_field_change(&mut state, &count, Some("7")), Some(7));
    assert_eq!(state.get(FieldId::UpgradeableCount), Some(7));
    assert_eq!(on_field_change(&mut state, &count, Some("12")), Some(12));
    assert_eq!(state.get(FieldId::UpgradeableCount), Some(12));
    assert_eq!(on_field_change(&mut state, &count, Some("+1")), Some(1));
    assert_eq!(state.get(FieldId::UpgradeableCount), Some(1));
}

#[test]
fn field_change_ignores_everything_else() {
    let count = field(FieldId::UpgradeableCount, 1, 12);
    let mut state = State::new(FieldTable::new());
    state.insert(FieldId::UpgradeableCount, 5);
    for input in [None, Some(""), Some("0"), Some("13"), Some("seven"), Some("7.0"), Some("-7")] {
        assert_eq!(on_field_change(&mut state, &count, input), None);
        assert_eq!(state.get(FieldId::UpgradeableCount), Some(5));
    }
    assert_eq!(entries(&state.filtered(&registry())), vec![]);
}

#[test]
fn fetched_levels_are_stored_and_errors_are_not() {
    let mut state = State::new(FieldTable::new());
    state.store_fetched(FieldId::Handicraft, Ok(80));
    state.store_fetched(FieldId::EnhancementMastery, Err(BadResponse::NetworkError));
    assert_eq!(state.get(FieldId::Handicraft), Some(80));
    assert_eq!(state.get(FieldId::EnhancementMastery), None);
    state.store_fetched(FieldId::Handicraft, Err(BadResponse::DataNotReady));
    assert_eq!(state.get(FieldId::Handicraft), Some(80));
}

#[test]
fn only_enter_sends_the_search_off() {
    assert!(submits_search("Enter"));
    for key in ["", "enter", "Enter ", "Escape", "a", "NumpadEnter"] {
        assert!(!submits_search(key));
    }
}
