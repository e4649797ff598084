//! The enhancement strategy optimizer: the grid of pity states, the action
//! assigned to each state, and the search for a cheaper assignment.

pub mod evaluator;
pub mod laws;
pub mod optimizer;
pub mod policy;
pub mod position;
pub mod rate;
pub mod search;

pub use evaluator::{Cost, CostEvaluator, FlatCost, PendingCells, StepPrices};
pub use optimizer::Strategy;
pub use policy::{Action, Actions, Policy};
pub use position::Position;
pub use rate::{
    enhance_mastery_effect,
    handicraft_effect,
    upgrade_salvation_effect,
    RateInputs,
    UpgradeContext,
};

use vstd::prelude::*;
use crate::state::{State, rate_inputs_of};
use policy::baseline;
use search::search;

verus! {

/// The strategy that the search finds for the values of the form, starting
/// from the baseline.
pub fn optimized_strategy<E: CostEvaluator>(state: &State, evaluator: &E) -> (best: Strategy)
    requires
        rate_inputs_of(state@).supported(),
    ensures
        best.well_formed(),
        best.context().derived_from(rate_inputs_of(state@)),
        best.policy() == search(
            evaluator,
            best.context(),
            baseline(rate_inputs_of(state@).upgradeable_count as nat),
            seq![Position::spec_initial(rate_inputs_of(state@).upgradeable_count as usize)],
        ),
        evaluator.cost(best.context(), best.policy()) <= evaluator.cost(
            best.context(),
            baseline(rate_inputs_of(state@).upgradeable_count as nat),
        ),
{
    let inputs = state.rate_inputs();
    let context = UpgradeContext::new(&inputs);
    let strategy = Strategy::new(context);
    strategy.optimized(evaluator)
}

} // verus!
