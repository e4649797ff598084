//! The enhancement form as the view sees it.

use vstd::prelude::*;
use crate::api::ProbabilityContext;
use crate::api::requests::BadResponse;
use crate::models::upgrade_context::{
    Spec,
    UpgradeContext,
    enhance_mastery_tooltip,
    enhance_mastery_tooltip_text,
    handicraft_tooltip,
    handicraft_tooltip_text,
    spec_collection,
    trace_price_tooltip,
    trace_price_tooltip_text,
    upgrade_salvation_tooltip,
    upgrade_salvation_tooltip_text,
};
use crate::utils::EventParser;

verus! {

/// The number that a change brings in: the number that was read, where it
/// lies between the two bounds.
pub open spec fn accepted(parsed: Option<u32>, min: u32, max: u32) -> Option<u32> {
    match parsed {
        Some(value) => if min <= value <= max {
            Some(value)
        } else {
            None
        },
        None => None,
    }
}

/// The value of the form, or zero where it was never entered.
pub open spec fn entered_or_zero(value: Option<u32>) -> u32 {
    match value {
        Some(entered) => entered,
        None => 0,
    }
}

/// Reads the number of an event and holds it against the range of a value.
fn accept<P: EventParser>(event: &P, spec: &Spec) -> (value: Option<u32>)
    ensures
        value == accepted(event.parsed(), spec.min, spec.max),
{
    match event.parse() {
        Some(value) => if spec.allows(value) {
            Some(value)
        } else {
            None
        },
        None => None,
    }
}

/// The values of the form and the changes that the view makes to them. A
/// change that brings no number, or one outside the range of its value,
/// leaves the form as it is; each change says whether it was taken.
#[derive(Clone, Copy, Debug)]
pub struct UpgradeContextViewModel {
    pub signal: UpgradeContext,
}

impl UpgradeContextViewModel {
    /// The form with no value entered.
    pub fn new() -> (model: Self)
        ensures
            model.signal == UpgradeContext::empty(),
    {
        Self { signal: UpgradeContext::default() }
    }

    /// Takes a change of the craft skill: levels 0 to 100.
    pub fn handicraft_change_callback<P: EventParser>(&mut self, event: &P) -> (taken: bool)
        ensures
            taken == accepted(event.parsed(), 0, 100) is Some,
            final(self).signal == match accepted(event.parsed(), 0, 100) {
                Some(value) => UpgradeContext { handicraft: Some(value), ..old(self).signal },
                None => old(self).signal,
            },
    {
        match accept(event, &spec_collection::handicraft()) {
            Some(value) => {
                self.signal.handicraft = Some(value);
                true
            },
            None => false,
        }
    }

    /// Takes a change of the guild skill that raises the success chance:
    /// levels 0 to 4.
    pub fn enhance_mastery_change_callback<P: EventParser>(&mut self, event: &P) -> (taken: bool)
        ensures
            taken == accepted(event.parsed(), 0, 4) is Some,
            final(self).signal == match accepted(event.parsed(), 0, 4) {
                Some(value) => UpgradeContext { enhance_mastery: Some(value), ..old(self).signal },
                None => old(self).signal,
            },
    {
        match accept(event, &spec_collection::enhance_mastery()) {
            Some(value) => {
                self.signal.enhance_mastery = Some(value);
                true
            },
            None => false,
        }
    }

    /// Takes a change of the guild skill that saves a failed attempt: levels
    /// 0 to 4.
    pub fn upgrade_salvation_change_callback<P: EventParser>(&mut self, event: &P) -> (taken: bool)
        ensures
            taken == accepted(event.parsed(), 0, 4) is Some,
            final(self).signal == match accepted(event.parsed(), 0, 4) {
                Some(value) => UpgradeContext {
                    upgrade_salvation: Some(value),
                    ..old(self).signal
                },
                None => old(self).signal,
            },
    {
        match accept(event, &spec_collection::upgrade_salvation()) {
            Some(value) => {
                self.signal.upgrade_salvation = Some(value);
                true
            },
            None => false,
        }
    }

    /// Takes a change of the equipment level: 0 to 250.
    pub fn equipment_level_change_callback<P: EventParser>(&mut self, event: &P) -> (taken: bool)
        ensures
            taken == accepted(event.parsed(), 0, 250) is Some,
            final(self).signal == match accepted(event.parsed(), 0, 250) {
                Some(value) => UpgradeContext { equipment_level: Some(value), ..old(self).signal },
                None => old(self).signal,
            },
    {
        match accept(event, &spec_collection::equipment_level()) {
            Some(value) => {
                self.signal.equipment_level = Some(value);
                true
            },
            None => false,
        }
    }

    /// Takes a change of the number of attempts: 1 to 12.
    pub fn upgradeable_count_change_callback<P: EventParser>(&mut self, event: &P) -> (taken: bool)
        ensures
            taken == accepted(event.parsed(), 1, 12) is Some,
            final(self).signal == match accepted(event.parsed(), 1, 12) {
                Some(value) => UpgradeContext {
                    upgradeable_count: Some(value),
                    ..old(self).signal
                },
                None => old(self).signal,
            },
    {
        match accept(event, &spec_collection::upgradeable_count()) {
            Some(value) => {
                self.signal.upgradeable_count = Some(value);
                true
            },
            None => false,
        }
    }

    /// Takes a change of the traces required: 0 to 10000.
    pub fn trace_required_change_callback<P: EventParser>(&mut self, event: &P) -> (taken: bool)
        ensures
            taken == accepted(event.parsed(), 0, 10000) is Some,
            final(self).signal == match accepted(event.parsed(), 0, 10000) {
                Some(value) => UpgradeContext { trace_required: Some(value), ..old(self).signal },
                None => old(self).signal,
            },
    {
        match accept(event, &spec_collection::trace_required()) {
            Some(value) => {
                self.signal.trace_required = Some(value);
                true
            },
            None => false,
        }
    }

    /// Takes a change of the trace price: 0 to 10000.
    pub fn trace_price_change_callback<P: EventParser>(&mut self, event: &P) -> (taken: bool)
        ensures
            taken == accepted(event.parsed(), 0, 10000) is Some,
            final(self).signal == match accepted(event.parsed(), 0, 10000) {
                Some(value) => UpgradeContext { trace_price: Some(value), ..old(self).signal },
                None => old(self).signal,
            },
    {
        match accept(event, &spec_collection::trace_price()) {
            Some(value) => {
                self.signal.trace_price = Some(value);
                true
            },
            None => false,
        }
    }

    /// Takes the levels that were asked of the game data service: levels
    /// that came become the three skill values of the form, an error changes
    /// nothing. Says whether the levels were taken.
    pub fn store_fetched(&mut self, levels: &Result<ProbabilityContext, BadResponse>) -> (taken:
        bool)
        ensures
            taken == levels is Ok,
            final(self).signal == match levels {
                Ok(found) => UpgradeContext {
                    handicraft: Some(found.handicraft),
                    enhance_mastery: Some(found.enhance_mastery),
                    upgrade_salvation: Some(found.upgrade_salvation),
                    ..old(self).signal
                },
                Err(_) => old(self).signal,
            },
    {
        match levels {
            Ok(found) => {
                self.signal.handicraft = Some(found.handicraft);
                self.signal.enhance_mastery = Some(found.enhance_mastery);
                self.signal.upgrade_salvation = Some(found.upgrade_salvation);
                true
            },
            Err(_) => false,
        }
    }

    /// The tooltip of the craft skill for the level of the form.
    pub fn handicraft_tooltip(&self) -> (tooltip: String)
        ensures
            tooltip@ == handicraft_tooltip_text(entered_or_zero(self.signal.handicraft)),
    {
        let handicraft_level = match self.signal.handicraft {
            Some(level) => level,
            None => 0,
        };
        handicraft_tooltip(handicraft_level)
    }

    /// The tooltip of the success skill for the level of the form.
    pub fn enhance_mastery_tooltip(&self) -> (tooltip: String)
        ensures
            tooltip@ == enhance_mastery_tooltip_text(entered_or_zero(self.signal.enhance_mastery)),
    {
        let enhance_mastery_level = match self.signal.enhance_mastery {
            Some(level) => level,
            None => 0,
        };
        enhance_mastery_tooltip(enhance_mastery_level)
    }

    /// The tooltip of the salvation skill for the level of the form.
    pub fn upgrade_salvation_tooltip(&self) -> (tooltip: String)
        ensures
            tooltip@ == upgrade_salvation_tooltip_text(
                entered_or_zero(self.signal.upgrade_salvation),
            ),
    {
        let upgrade_salvation_level = match self.signal.upgrade_salvation {
            Some(level) => level,
            None => 0,
        };
        upgrade_salvation_tooltip(upgrade_salvation_level)
    }

    /// The tooltip of the trace price of the form.
    pub fn trace_price_tooltip(&self) -> (tooltip: String)
        ensures
            tooltip@ == trace_price_tooltip_text(entered_or_zero(self.signal.trace_price)),
    {
        let trace_price = match self.signal.trace_price {
            Some(price) => price,
            None => 0,
        };
        trace_price_tooltip(trace_price)
    }
}

} // verus!
