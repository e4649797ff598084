//! The values of the enhancement form, the range each may take, and the
//! tooltips shown beside them.

pub mod spec_collection;

use vstd::prelude::*;
use vstd::string::*;
use crate::strategy::rate::{handicraft_effect, handicraft_tenths};
use crate::text::{decimal, decimal_string};

verus! {

/// What the form shows for one value and which range it takes.
#[derive(Clone, Copy, Debug)]
pub struct Spec {
    pub label: &'static str,
    pub placeholder: &'static str,
    pub min: u32,
    pub max: u32,
}

impl Spec {
    /// The value lies in the range, both ends included.
    pub open spec fn spec_allows(&self, value: u32) -> bool {
        self.min <= value <= self.max
    }

    /// Whether the value lies in the range, both ends included.
    #[verifier::when_used_as_spec(spec_allows)]
    pub fn allows(&self, value: u32) -> (allowed: bool)
        ensures
            allowed == self.spec_allows(value),
    {
        self.min <= value && value <= self.max
    }
}

/// The values of the form. A value that was never entered is absent.
#[derive(Clone, Copy, Debug, PartialEq, Eq, Structural)]
pub struct UpgradeContext {
    pub handicraft: Option<u32>,
    pub enhance_mastery: Option<u32>,
    pub upgrade_salvation: Option<u32>,
    pub equipment_level: Option<u32>,
    pub upgradeable_count: Option<u32>,
    pub trace_required: Option<u32>,
    pub trace_price: Option<u32>,
}

impl UpgradeContext {
    /// The form with no value entered.
    pub open spec fn empty() -> UpgradeContext {
        UpgradeContext {
            handicraft: None,
            enhance_mastery: None,
            upgrade_salvation: None,
            equipment_level: None,
            upgradeable_count: None,
            trace_required: None,
            trace_price: None,
        }
    }
}

impl Default for UpgradeContext {
    fn default() -> (context: Self)
        ensures
            context == UpgradeContext::empty(),
    {
        UpgradeContext {
            handicraft: None,
            enhance_mastery: None,
            upgrade_salvation: None,
            equipment_level: None,
            upgradeable_count: None,
            trace_required: None,
            trace_price: None,
        }
    }
}

/// The text of a number of tenths: the whole part, then a point and the
/// tenth where there is one.
pub open spec fn tenths_text(tenths: nat) -> Seq<char> {
    if tenths % 10 == 0 {
        decimal(tenths / 10)
    } else {
        decimal(tenths / 10) + seq!['.'] + decimal(tenths % 10)
    }
}

/// Writes a number of tenths as a decimal fraction.
pub fn format_tenths(tenths: u32) -> (text: String)
    ensures
        text@ == tenths_text(tenths as nat),
{
    let mut text = decimal_string(tenths / 10);
    if tenths % 10 != 0 {
        proof {
            reveal_strlit(".");
        }
        text.append(".");
        let fraction = decimal_string(tenths % 10);
        text.append(fraction.as_str());
        assert(text@ =~= tenths_text(tenths as nat));
    }
    text
}

/// The tooltip of the craft skill.
pub open spec fn handicraft_tooltip_text(handicraft_level: u32) -> Seq<char> {
    "성공 확률 "@ + tenths_text(handicraft_tenths(handicraft_level as nat)) + "%p 증가"@
}

/// The tooltip of the guild skill that raises the success chance.
pub open spec fn enhance_mastery_tooltip_text(enhance_mastery_level: u32) -> Seq<char> {
    "성공 확률 "@ + decimal(enhance_mastery_level as nat) + "%p 증가"@
}

/// The tooltip of the guild skill that saves a failed attempt.
pub open spec fn upgrade_salvation_tooltip_text(upgrade_salvation_level: u32) -> Seq<char> {
    "실패 시 "@ + decimal(upgrade_salvation_level as nat) + "% 확률로 횟수 차감 방지"@
}

/// The tooltip of the trace price.
pub open spec fn trace_price_tooltip_text(trace_price: u32) -> Seq<char> {
    decimal(trace_price as nat) + " 메소"@
}

/// Says by how many percentage points the craft skill raises the success
/// chance.
pub fn handicraft_tooltip(handicraft_level: u32) -> (tooltip: String)
    ensures
        tooltip@ == handicraft_tooltip_text(handicraft_level),
{
    let mut tooltip = String::from_str("성공 확률 ");
    let effect = format_tenths(handicraft_effect(handicraft_level));
    tooltip.append(effect.as_str());
    tooltip.append("%p 증가");
    tooltip
}

/// Says by how many percentage points the guild skill raises the success
/// chance.
pub fn enhance_mastery_tooltip(enhance_mastery_level: u32) -> (tooltip: String)
    ensures
        tooltip@ == enhance_mastery_tooltip_text(enhance_mastery_level),
{
    let mut tooltip = String::from_str("성공 확률 ");
    let level = decimal_string(enhance_mastery_level);
    tooltip.append(level.as_str());
    tooltip.append("%p 증가");
    tooltip
}

/// Says with what chance the guild skill saves a failed attempt.
pub fn upgrade_salvation_tooltip(upgrade_salvation_level: u32) -> (tooltip: String)
    ensures
        tooltip@ == upgrade_salvation_tooltip_text(upgrade_salvation_level),
{
    let mut tooltip = String::from_str("실패 시 ");
    let level = decimal_string(upgrade_salvation_level);
    tooltip.append(level.as_str());
    tooltip.append("% 확률로 횟수 차감 방지");
    tooltip
}

/// Says the trace price in currency.
pub fn trace_price_tooltip(trace_price: u32) -> (tooltip: String)
    ensures
        tooltip@ == trace_price_tooltip_text(trace_price),
{
    let mut tooltip = decimal_string(trace_price);
    tooltip.append(" 메소");
    tooltip
}

} // verus!
