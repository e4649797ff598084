//! The fields of the enhancement form: their names, their ranges and the
//! registry that holds one description for each.

use vstd::prelude::*;
use crate::models::upgrade_context::{
    enhance_mastery_tooltip,
    enhance_mastery_tooltip_text,
    handicraft_tooltip,
    handicraft_tooltip_text,
    upgrade_salvation_tooltip,
    upgrade_salvation_tooltip_text,
};

verus! {

/// The name of a field of the form.
#[derive(Clone, Copy, Debug, PartialEq, Eq, Hash, Structural)]
pub enum FieldId {
    Handicraft,
    EnhancementMastery,
    UpgradeSalvation,
    UpgradeableCount,
    TraceRequired,
    TracePrice,
    BaseSuccessRate,
    UpgradePrice,
}

impl FieldId {
    /// The tooltip that a field shows for a value. Only the three skill
    /// fields have one.
    pub open spec fn tooltip_text(self, value: u32) -> Option<Seq<char>> {
        match self {
            FieldId::Handicraft => Some(handicraft_tooltip_text(value)),
            FieldId::EnhancementMastery => Some(enhance_mastery_tooltip_text(value)),
            FieldId::UpgradeSalvation => Some(upgrade_salvation_tooltip_text(value)),
            _ => None,
        }
    }

    /// The tooltip that the field shows for a value, where it has one.
    pub fn get_tooltip(self, value: u32) -> (tooltip: Option<String>)
        ensures
            tooltip is Some <==> self.tooltip_text(value) is Some,
            tooltip matches Some(text) ==> Some(text@) == self.tooltip_text(value),
    {
        match self {
            FieldId::Handicraft => Some(handicraft_tooltip(value)),
            FieldId::EnhancementMastery => Some(enhance_mastery_tooltip(value)),
            FieldId::UpgradeSalvation => Some(upgrade_salvation_tooltip(value)),
            _ => None,
        }
    }
}

/// One entry for each field name that has one.
#[derive(Debug)]
pub struct FieldTable<T> {
    handicraft: Option<T>,
    enhancement_mastery: Option<T>,
    upgrade_salvation: Option<T>,
    upgradeable_count: Option<T>,
    trace_required: Option<T>,
    trace_price: Option<T>,
    base_success_rate: Option<T>,
    upgrade_price: Option<T>,
}

impl<T> FieldTable<T> {
    /// The entry of a field name.
    pub closed spec fn slot(&self, id: FieldId) -> Option<T> {
        match id {
            FieldId::Handicraft => self.handicraft,
            FieldId::EnhancementMastery => self.enhancement_mastery,
            FieldId::UpgradeSalvation => self.upgrade_salvation,
            FieldId::UpgradeableCount => self.upgradeable_count,
            FieldId::TraceRequired => self.trace_required,
            FieldId::TracePrice => self.trace_price,
            FieldId::BaseSuccessRate => self.base_success_rate,
            FieldId::UpgradePrice => self.upgrade_price,
        }
    }

    /// The table without any entry.
    pub fn new() -> (table: Self)
        ensures
            table@ == Map::<FieldId, T>::empty(),
    {
        let table = Self {
            handicraft: None,
            enhancement_mastery: None,
            upgrade_salvation: None,
            upgradeable_count: None,
            trace_required: None,
            trace_price: None,
            base_success_rate: None,
            upgrade_price: None,
        };
        assert(table@ =~= Map::<FieldId, T>::empty());
        table
    }

    /// Sets the entry of a field name, replacing the one it had.
    pub fn insert(&mut self, id: FieldId, value: T)
        ensures
            final(self)@ == old(self)@.insert(id, value),
    {
        match id {
            FieldId::Handicraft => self.handicraft = Some(value),
            FieldId::EnhancementMastery => self.enhancement_mastery = Some(value),
            FieldId::UpgradeSalvation => self.upgrade_salvation = Some(value),
            FieldId::UpgradeableCount => self.upgradeable_count = Some(value),
            FieldId::TraceRequired => self.trace_required = Some(value),
            FieldId::TracePrice => self.trace_price = Some(value),
            FieldId::BaseSuccessRate => self.base_success_rate = Some(value),
            FieldId::UpgradePrice => self.upgrade_price = Some(value),
        }
        assert(self@ =~= old(self)@.insert(id, value)) by {
            assert forall|other: FieldId| #[trigger] self@.contains_key(other) <==> old(
                self,
            )@.insert(id, value).contains_key(other) by {
                assert(self.slot(other) is Some <==> other == id || old(self).slot(other) is Some);
            }
        }
    }

    /// The entry of a field name, where it has one.
    pub fn get(&self, id: FieldId) -> (entry: Option<&T>)
        ensures
            entry is Some <==> self@.contains_key(id),
            entry matches Some(value) ==> *value == self@[id],
    {
        match id {
            FieldId::Handicraft => self.handicraft.as_ref(),
            FieldId::EnhancementMastery => self.enhancement_mastery.as_ref(),
            FieldId::UpgradeSalvation => self.upgrade_salvation.as_ref(),
            FieldId::UpgradeableCount => self.upgradeable_count.as_ref(),
            FieldId::TraceRequired => self.trace_required.as_ref(),
            FieldId::TracePrice => self.trace_price.as_ref(),
            FieldId::BaseSuccessRate => self.base_success_rate.as_ref(),
            FieldId::UpgradePrice => self.upgrade_price.as_ref(),
        }
    }
}

impl<T: Copy> Clone for FieldTable<T> {
    fn clone(&self) -> (copy: Self)
        ensures
            copy == *self,
    {
        *self
    }
}

impl<T: Copy> Copy for FieldTable<T> {

}

impl<T> View for FieldTable<T> {
    type V = Map<FieldId, T>;

    closed spec fn view(&self) -> Map<FieldId, T> {
        Map::new(
            |id: FieldId| self.slot(id) is Some,
            |id: FieldId|
                match self.slot(id) {
                    Some(value) => value,
                    None => arbitrary(),
                },
        )
    }
}

/// The description of one field: its name, its texts and the range of its
/// values.
#[derive(Clone, Copy, Debug)]
pub struct Field {
    pub id: FieldId,
    pub label: &'static str,
    pub placeholder: &'static str,
    pub min: u32,
    pub max: u32,
}

impl Field {
    /// The value lies in the range of the field, both ends included.
    pub open spec fn allows(&self, value: u32) -> bool {
        self.min <= value <= self.max
    }

    /// Whether the value lies in the range of the field, both ends included.
    #[verifier::when_used_as_spec(allows)]
    pub fn is_valid_value(&self, value: u32) -> (valid: bool)
        ensures
            valid == self.allows(value),
    {
        self.min <= value && value <= self.max
    }

    /// The lower end of the range.
    pub fn get_min(&self) -> (min: u32)
        ensures
            min == self.min,
    {
        self.min
    }

    /// The bound that a stored value is held against from above when the
    /// form is saved: the lower end of the range.
    pub fn get_max(&self) -> (max: u32)
        ensures
            max == self.min,
    {
        self.min
    }
}

/// The registry that a list of descriptions fills: of two descriptions with
/// the same name the later one stays.
pub open spec fn registry_of(fields: Seq<Field>) -> Map<FieldId, Field>
    decreases fields.len(),
{
    if fields.len() == 0 {
        Map::empty()
    } else {
        registry_of(fields.drop_last()).insert(fields.last().id, fields.last())
    }
}

/// The descriptions of the fields, by name.
#[derive(Clone, Copy, Debug)]
pub struct FieldRegistry {
    map: FieldTable<Field>,
}

impl View for FieldRegistry {
    type V = Map<FieldId, Field>;

    closed spec fn view(&self) -> Map<FieldId, Field> {
        self.map@
    }
}

impl FieldRegistry {
    /// Fills a registry from the descriptions that were read. Where none
    /// could be read the registry is empty.
    pub fn load(fields: Option<Vec<Field>>) -> (registry: Self)
        ensures
            registry@ == match fields {
                Some(list) => registry_of(list@),
                None => Map::empty(),
            },
    {
        let mut map: FieldTable<Field> = FieldTable::new();
        if let Some(list) = fields {
            let mut i: usize = 0;
            while i < list.len()
                invariant
                    i <= list.len(),
                    map@ == registry_of(list@.take(i as int)),
                decreases list.len() - i,
            {
                assert(list@.take(i + 1).drop_last() =~= list@.take(i as int));
                map.insert(list[i].id, list[i]);
                i = i + 1;
            }
            assert(list@.take(list.len() as int) =~= list@);
        }
        Self { map }
    }

    /// Whether the registry describes the field.
    pub fn contains(&self, id: FieldId) -> (found: bool)
        ensures
            found == self@.contains_key(id),
    {
        self.map.get(id).is_some()
    }

    /// The description of a field that the registry holds.
    pub fn get(&self, id: FieldId) -> (field: &Field)
        requires
            self@.contains_key(id),
        ensures
            *field == self@[id],
    {
        self.map.get(id).unwrap()
    }
}

} // verus!
