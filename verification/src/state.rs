//! The values that the form holds, and the rules by which they come in, are
//! read and are saved.

use vstd::prelude::*;
use crate::api::requests::BadResponse;
use crate::input::{Field, FieldId, FieldRegistry, FieldTable};
use crate::strategy::rate::RateInputs;
use crate::text::{parse_u32, parsed_u32};

verus! {

/// The value of each field that has one.
pub type FieldMap = FieldTable<u32>;

/// The state of the form.
#[derive(Clone, Copy, Debug)]
pub struct State {
    map: FieldMap,
}

impl View for State {
    type V = Map<FieldId, u32>;

    closed spec fn view(&self) -> Map<FieldId, u32> {
        self.map@
    }
}

/// The value of a field, or zero where it has none.
pub open spec fn value_or_default(values: Map<FieldId, u32>, key: FieldId) -> u32 {
    if values.contains_key(key) {
        values[key]
    } else {
        0
    }
}

/// The value of a field passes the test under which the form is saved.
pub open spec fn passes_filter(
    values: Map<FieldId, u32>,
    fields: Map<FieldId, Field>,
    key: FieldId,
) -> bool {
    &&& values.contains_key(key)
    &&& fields[key].min <= values[key]
    &&& values[key] <= fields[key].min
}

/// The values that are saved: those that pass the filter.
pub open spec fn filtered_values(values: Map<FieldId, u32>, fields: Map<FieldId, Field>) -> Map<
    FieldId,
    u32,
> {
    Map::new(|key: FieldId| passes_filter(values, fields, key), |key: FieldId| values[key])
}

/// The inputs of a calculation as the form gives them: a field without a
/// value counts as zero.
pub open spec fn rate_inputs_of(values: Map<FieldId, u32>) -> RateInputs {
    RateInputs {
        upgradeable_count: value_or_default(values, FieldId::UpgradeableCount),
        base_success_rate: value_or_default(values, FieldId::BaseSuccessRate),
        handicraft_level: value_or_default(values, FieldId::Handicraft),
        enhance_mastery_level: value_or_default(values, FieldId::EnhancementMastery),
        upgrade_salvation_level: value_or_default(values, FieldId::UpgradeSalvation),
        upgrade_price: value_or_default(values, FieldId::UpgradePrice),
        trace_required: value_or_default(values, FieldId::TraceRequired),
        trace_price: value_or_default(values, FieldId::TracePrice),
    }
}

/// The number that a change of a field brings in: text that reads as a
/// number in the range of the field. `None` as input stands for a change
/// that came from anything but a text input.
pub open spec fn accepted_input(field: Field, input: Option<Seq<char>>) -> Option<u32> {
    match input {
        Some(text) => match parsed_u32(text) {
            Some(value) => if field.allows(value) {
                Some(value)
            } else {
                None
            },
            None => None,
        },
        None => None,
    }
}

/// What a change of a field does to the values: a number that is brought in
/// becomes the value of the field, anything else changes nothing.
pub open spec fn after_field_change(
    values: Map<FieldId, u32>,
    field: Field,
    input: Option<Seq<char>>,
) -> Map<FieldId, u32> {
    match accepted_input(field, input) {
        Some(value) => values.insert(field.id, value),
        None => values,
    }
}

impl State {
    /// The state that holds the given values.
    pub fn new(map: FieldMap) -> (state: Self)
        ensures
            state@ == map@,
    {
        Self { map }
    }

    /// Sets the value of a field.
    pub fn insert(&mut self, key: FieldId, value: u32)
        ensures
            final(self)@ == old(self)@.insert(key, value),
    {
        self.map.insert(key, value);
    }

    /// The value of a field, where it has one.
    pub fn get(&self, key: FieldId) -> (value: Option<u32>)
        ensures
            value == if self@.contains_key(key) {
                Some(self@[key])
            } else {
                None
            },
    {
        match self.map.get(key) {
            Some(value) => Some(*value),
            None => None,
        }
    }

    /// The value of a field, or zero where it has none.
    pub fn get_or_default(&self, key: FieldId) -> (value: u32)
        ensures
            value == value_or_default(self@, key),
    {
        match self.map.get(key) {
            Some(value) => *value,
            None => 0,
        }
    }

    /// Copies the value of one field into the values to save, where it passes
    /// the filter.
    fn keep_if_passing(&self, fields: &FieldRegistry, saved: &mut FieldMap, key: FieldId)
        requires
            self@.contains_key(key) ==> fields@.contains_key(key),
        ensures
            final(saved)@ == if passes_filter(self@, fields@, key) {
                old(saved)@.insert(key, self@[key])
            } else {
                old(saved)@
            },
    {
        if let Some(value) = self.get(key) {
            let field = fields.get(key);
            if field.get_min() <= value && value <= field.get_max() {
                saved.insert(key, value);
            }
        }
    }

    /// The values to save: each value that lies between the two bounds that
    /// the description of its field gives.
    pub fn filtered(&self, fields: &FieldRegistry) -> (saved: FieldMap)
        requires
            forall|key: FieldId| self@.contains_key(key) ==> fields@.contains_key(key),
        ensures
            saved@ == filtered_values(self@, fields@),
    {
        let mut saved: FieldMap = FieldTable::new();
        self.keep_if_passing(fields, &mut saved, FieldId::Handicraft);
        self.keep_if_passing(fields, &mut saved, FieldId::EnhancementMastery);
        self.keep_if_passing(fields, &mut saved, FieldId::UpgradeSalvation);
        self.keep_if_passing(fields, &mut saved, FieldId::UpgradeableCount);
        self.keep_if_passing(fields, &mut saved, FieldId::TraceRequired);
        self.keep_if_passing(fields, &mut saved, FieldId::TracePrice);
        self.keep_if_passing(fields, &mut saved, FieldId::BaseSuccessRate);
        self.keep_if_passing(fields, &mut saved, FieldId::UpgradePrice);
        assert(saved@ =~= filtered_values(self@, fields@));
        saved
    }

    /// The tooltip of a field for the value that the form holds, a field
    /// without a value counting as zero.
    pub fn tooltip_item(&self, field_id: FieldId) -> (tooltip: Option<String>)
        ensures
            tooltip is Some <==> field_id.tooltip_text(value_or_default(self@, field_id)) is Some,
            tooltip matches Some(text) ==> Some(text@) == field_id.tooltip_text(
                value_or_default(self@, field_id),
            ),
    {
        let value = self.get_or_default(field_id);
        field_id.get_tooltip(value)
    }

    /// Takes a level that was asked of the game data service: a level that
    /// came is stored, an error changes nothing.
    pub fn store_fetched(&mut self, key: FieldId, level: Result<u32, BadResponse>)
        ensures
            final(self)@ == match level {
                Ok(value) => old(self)@.insert(key, value),
                Err(_) => old(self)@,
            },
    {
        if let Ok(value) = level {
            self.insert(key, value);
        }
    }

    /// The inputs of a calculation, read from the form.
    pub fn rate_inputs(&self) -> (inputs: RateInputs)
        ensures
            inputs == rate_inputs_of(self@),
    {
        RateInputs {
            upgradeable_count: self.get_or_default(FieldId::UpgradeableCount),
            base_success_rate: self.get_or_default(FieldId::BaseSuccessRate),
            handicraft_level: self.get_or_default(FieldId::Handicraft),
            enhance_mastery_level: self.get_or_default(FieldId::EnhancementMastery),
            upgrade_salvation_level: self.get_or_default(FieldId::UpgradeSalvation),
            upgrade_price: self.get_or_default(FieldId::UpgradePrice),
            trace_required: self.get_or_default(FieldId::TraceRequired),
            trace_price: self.get_or_default(FieldId::TracePrice),
        }
    }
}

/// The key that sends the character search off.
pub const KEY_ENTER: &'static str = "Enter";

/// Whether a key pressed in the search box sends the search off.
pub fn submits_search(key: &str) -> (submits: bool)
    ensures
        submits == (key@ == KEY_ENTER@),
{
    key.to_owned() == KEY_ENTER.to_owned()
}

/// Takes the text that was typed into a field, and hands back the number
/// that became the value of the field, if one did.
pub fn on_field_change(state: &mut State, field: &Field, input: Option<&str>) -> (taken: Option<
    u32,
>)
    ensures
        taken == accepted_input(
            *field,
            match input {
                Some(text) => Some(text@),
                None => None,
            },
        ),
        final(state)@ == after_field_change(
            old(state)@,
            *field,
            match input {
                Some(text) => Some(text@),
                None => None,
            },
        ),
{
    if let Some(text) = input {
        if let Some(value) = parse_u32(text) {
            if field.is_valid_value(value) {
                state.insert(field.id, value);
                return Some(value);
            }
        }
    }
    None
}

} // verus!
