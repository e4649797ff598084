//! From raw skill levels and trace counts to the rates and prices that an
//! enhancement is evaluated with.
//!
//! Rates are kept as exact integers. A success rate counts tenths of a
//! percentage point, so `455` stands for 45.5 %. A recovery rate counts
//! thousandths of a percentage point, the unit in which the product of a
//! failure rate and a whole percentage is exact.

use vstd::prelude::*;

verus! {

/// Currency charged for each trace that a `White` consumes.
pub const WHITE_TRACE_PRICE: u32 = 20000;

/// Currency charged for each unit of trace price when an `Innocence` is
/// bought.
pub const INNOCENCE_TRACE_PRICE: u32 = 12000;

/// The raw values that a caller supplies for one calculation.
#[derive(Clone, Copy, Debug, PartialEq, Eq, Structural)]
pub struct RateInputs {
    /// Number of enhancement attempts the item is budgeted with.
    pub upgradeable_count: u32,
    /// Success chance of the scroll itself, in whole percent.
    pub base_success_rate: u32,
    /// Level of the craft skill.
    pub handicraft_level: u32,
    /// Level of the guild skill that raises the success chance.
    pub enhance_mastery_level: u32,
    /// Level of the guild skill that saves a failed attempt.
    pub upgrade_salvation_level: u32,
    /// Currency charged for one plain attempt.
    pub upgrade_price: u32,
    /// Traces that one attempt requires.
    pub trace_required: u32,
    /// Currency charged for one trace.
    pub trace_price: u32,
}

impl RateInputs {
    /// The inputs that a calculation can be made for: both consumable prices
    /// fit the price type, and a grid with one row more than the budget can
    /// be indexed.
    pub open spec fn supported(&self) -> bool {
        &&& UpgradeContext::prices_fit(*self)
        &&& self.upgradeable_count < usize::MAX
    }

    /// Whether a calculation can be made for the inputs.
    #[verifier::when_used_as_spec(supported)]
    pub fn is_supported(&self) -> (supported: bool)
        ensures
            supported == self.supported(),
    {
        self.trace_required <= u32::MAX / WHITE_TRACE_PRICE && self.trace_price <= u32::MAX
            / INNOCENCE_TRACE_PRICE && (self.upgradeable_count as usize) < usize::MAX
    }
}

/// Bonus of the craft skill in tenths of a percentage point: the level
/// rounded down to a multiple of five.
pub open spec fn handicraft_tenths(level: nat) -> nat {
    level / 5 * 5
}

/// Success rate in tenths of a percentage point: the base rate, the craft
/// bonus and the guild bonus added up.
pub open spec fn success_rate_tenths(base: nat, handicraft: nat, mastery: nat) -> nat {
    base * 10 + handicraft_tenths(handicraft) + mastery * 10
}

/// Recovery rate in thousandths of a percentage point: the failure rate
/// times the salvation level, taken as a percentage of it.
pub open spec fn recovery_rate_thousandths(success_tenths: nat, salvation: nat) -> int {
    (1000 - success_tenths) * salvation
}

/// Bonus of the craft skill on the success rate, in tenths of a percentage
/// point. It grows by five tenths with every fifth level.
pub fn handicraft_effect(handicraft_level: u32) -> (tenths: u32)
    ensures
        tenths == handicraft_tenths(handicraft_level as nat),
        tenths <= handicraft_level,
        tenths % 5 == 0,
        handicraft_level - tenths < 5,
{
    handicraft_level / 5 * 5
}

/// Bonus of the guild skill on the success rate, in whole percentage points:
/// the level itself.
pub fn enhance_mastery_effect(enhance_mastery_level: u32) -> (points: u32)
    ensures
        points == enhance_mastery_level,
{
    enhance_mastery_level
}

/// Share of a failure that the guild skill saves, in whole percent: the level
/// itself.
pub fn upgrade_salvation_effect(upgrade_salvation_level: u32) -> (percent: u32)
    ensures
        percent == upgrade_salvation_level,
{
    upgrade_salvation_level
}

/// The rates and prices of one calculation. Nothing in it changes once it is
/// built.
#[derive(Clone, Copy, Debug, PartialEq, Eq, Structural)]
pub struct UpgradeContext {
    upgradeable_count: u32,
    success_rate: u64,
    recovery_rate: i128,
    upgrade_price: u32,
    white_price: u32,
    innocence_price: u32,
}

impl UpgradeContext {
    /// The inputs whose two prices fit the price type.
    pub open spec fn prices_fit(inputs: RateInputs) -> bool {
        &&& inputs.trace_required * WHITE_TRACE_PRICE <= u32::MAX
        &&& inputs.trace_price * INNOCENCE_TRACE_PRICE <= u32::MAX
    }

    pub closed spec fn spec_upgradeable_count(&self) -> u32 {
        self.upgradeable_count
    }

    pub closed spec fn spec_success_rate(&self) -> u64 {
        self.success_rate
    }

    pub closed spec fn spec_recovery_rate(&self) -> i128 {
        self.recovery_rate
    }

    pub closed spec fn spec_upgrade_price(&self) -> u32 {
        self.upgrade_price
    }

    pub closed spec fn spec_white_price(&self) -> u32 {
        self.white_price
    }

    pub closed spec fn spec_innocence_price(&self) -> u32 {
        self.innocence_price
    }

    /// The context holds what the inputs give: the budget and the price of
    /// an attempt as they are, the two rates by their formulas, and the two
    /// consumable prices as multiples of the trace counts.
    pub open spec fn derived_from(&self, inputs: RateInputs) -> bool {
        &&& self.spec_upgradeable_count() == inputs.upgradeable_count
        &&& self.spec_success_rate() == success_rate_tenths(
            inputs.base_success_rate as nat,
            inputs.handicraft_level as nat,
            inputs.enhance_mastery_level as nat,
        )
        &&& self.spec_recovery_rate() == recovery_rate_thousandths(
            self.spec_success_rate() as nat,
            inputs.upgrade_salvation_level as nat,
        )
        &&& self.spec_upgrade_price() == inputs.upgrade_price
        &&& self.spec_white_price() == inputs.trace_required * WHITE_TRACE_PRICE
        &&& self.spec_innocence_price() == inputs.trace_price * INNOCENCE_TRACE_PRICE
    }

    /// The inputs determine the context: two contexts derived from the same
    /// inputs are the same.
    pub proof fn lemma_derivation_unique(a: UpgradeContext, b: UpgradeContext, inputs: RateInputs)
        requires
            a.derived_from(inputs),
            b.derived_from(inputs),
        ensures
            a == b,
    {
    }

    /// Derives the rates and prices from the raw inputs.
    pub fn new(inputs: &RateInputs) -> (context: Self)
        requires
            Self::prices_fit(*inputs),
        ensures
            context.derived_from(*inputs),
    {
        let success_rate = Self::calculate_success_rate(
            inputs.base_success_rate,
            inputs.handicraft_level,
            inputs.enhance_mastery_level,
        );
        let recovery_rate = Self::calculate_recovery_rate(
            success_rate,
            inputs.upgrade_salvation_level,
        );
        Self {
            upgradeable_count: inputs.upgradeable_count,
            success_rate,
            recovery_rate,
            upgrade_price: inputs.upgrade_price,
            white_price: Self::calculate_white_price(inputs.trace_required),
            innocence_price: Self::calculate_innocence_price(inputs.trace_price),
        }
    }

    /// Success rate in tenths of a percentage point.
    pub fn calculate_success_rate(
        base_success_rate: u32,
        handicraft_level: u32,
        enhance_mastery_level: u32,
    ) -> (tenths: u64)
        ensures
            tenths == success_rate_tenths(
                base_success_rate as nat,
                handicraft_level as nat,
                enhance_mastery_level as nat,
            ),
    {
        let base: u64 = base_success_rate as u64 * 10;
        let craft: u64 = handicraft_effect(handicraft_level) as u64;
        let guild: u64 = enhance_mastery_effect(enhance_mastery_level) as u64 * 10;
        base + craft + guild
    }

    /// Recovery rate in thousandths of a percentage point, from a success
    /// rate in tenths. It is negative where the success rate is above 100 %.
    pub fn calculate_recovery_rate(success_rate: u64, upgrade_salvation_level: u32) -> (thousandths:
        i128)
        ensures
            thousandths == recovery_rate_thousandths(
                success_rate as nat,
                upgrade_salvation_level as nat,
            ),
    {
        let fail_rate: i128 = 1000 - success_rate as i128;
        let base_recovery_rate: i128 = upgrade_salvation_effect(upgrade_salvation_level) as i128;
        assert(-0x1_0000_0000_0000_0000 * 0x1_0000_0000 <= fail_rate * base_recovery_rate
            <= 1000 * 0x1_0000_0000) by (nonlinear_arith)
            requires
                -0x1_0000_0000_0000_0000 <= fail_rate <= 1000,
                0 <= base_recovery_rate <= 0x1_0000_0000,
        ;
        fail_rate * base_recovery_rate
    }

    /// Price of one `White`.
    pub fn calculate_white_price(trace_required: u32) -> (price: u32)
        requires
            trace_required * WHITE_TRACE_PRICE <= u32::MAX,
        ensures
            price == trace_required * WHITE_TRACE_PRICE,
    {
        trace_required * WHITE_TRACE_PRICE
    }

    /// Price of one `Innocence`.
    pub fn calculate_innocence_price(trace_price: u32) -> (price: u32)
        requires
            trace_price * INNOCENCE_TRACE_PRICE <= u32::MAX,
        ensures
            price == trace_price * INNOCENCE_TRACE_PRICE,
    {
        trace_price * INNOCENCE_TRACE_PRICE
    }

    #[verifier::when_used_as_spec(spec_upgradeable_count)]
    pub fn get_upgradeable_count(&self) -> (count: u32)
        ensures
            count == self.spec_upgradeable_count(),
    {
        self.upgradeable_count
    }

    /// Success rate in tenths of a percentage point.
    #[verifier::when_used_as_spec(spec_success_rate)]
    pub fn get_success_rate(&self) -> (tenths: u64)
        ensures
            tenths == self.spec_success_rate(),
    {
        self.success_rate
    }

    /// Recovery rate in thousandths of a percentage point.
    #[verifier::when_used_as_spec(spec_recovery_rate)]
    pub fn get_recovery_rate(&self) -> (thousandths: i128)
        ensures
            thousandths == self.spec_recovery_rate(),
    {
        self.recovery_rate
    }

    #[verifier::when_used_as_spec(spec_upgrade_price)]
    pub fn get_upgrade_price(&self) -> (price: u32)
        ensures
            price == self.spec_upgrade_price(),
    {
        self.upgrade_price
    }

    #[verifier::when_used_as_spec(spec_white_price)]
    pub fn get_white_price(&self) -> (price: u32)
        ensures
            price == self.spec_white_price(),
    {
        self.white_price
    }

    #[verifier::when_used_as_spec(spec_innocence_price)]
    pub fn get_innocence_price(&self) -> (price: u32)
        ensures
            price == self.spec_innocence_price(),
    {
        self.innocence_price
    }
}

} // verus!
