//! What the optimizer asks of a cost model.

use vstd::prelude::*;
use super::laws::{constant_cost, holds_innocence, prefers_innocence};
use super::optimizer::Strategy;
use super::policy::{
    Action,
    Policy,
    action_at,
    baseline,
    has_cell,
    lemma_weight_of_grid_bound,
    lemma_with_action,
    policy_of,
    same_shape,
    weight_of,
    weight_of_row,
    with_action,
};
use super::position::Position;
use super::rate::UpgradeContext;
use super::search::{improves, lemma_with_innocence, pending, pending_in_cell, pending_weight};

verus! {

/// A cost as contracts see it.
pub type Cost = nat;

/// A cost model: the expected total currency spent when a policy is followed
/// from the initial state to the end.
///
/// The cost is a function of the context and the policy alone, so that the
/// same strategy always costs the same and evaluating it changes nothing.
/// How the rates of the context drive the moves through the grid is the
/// model's own choice; the optimizer only compares costs.
///
/// Only `evaluate` is ever run; the other members exist for contracts. A
/// model written in unverified code gives each of them a body that cannot be
/// reached, and what the contracts say of the model is then the promise of
/// its author.
pub trait CostEvaluator {
    /// The cost of following `policy` under `context`.
    spec fn cost(&self, context: UpgradeContext, policy: Policy) -> Cost;

    /// The model moves through the grid in the same way whichever of the two
    /// actions a cell holds.
    spec fn same_transitions(&self, first: Action, second: Action) -> bool;

    /// Computes the cost of a strategy.
    fn evaluate(&self, strategy: &Strategy) -> (total: u64)
        requires
            strategy.well_formed(),
        ensures
            total == self.cost(strategy.context(), strategy.policy()),
    ;

    /// The cost is monotonic: an action that is charged strictly more than
    /// the action in a cell, and after which the model moves in the same
    /// way, never makes the policy cheaper when it is written into the cell.
    proof fn lemma_dominated_is_never_cheaper(
        &self,
        context: UpgradeContext,
        policy: Policy,
        position: Position,
        worse: Action,
    )
        requires
            has_cell(policy, position),
            self.same_transitions(worse, action_at(policy, position)),
            price_of(context, worse) > price_of(context, action_at(policy, position)),
        ensures
            self.cost(context, policy) <= self.cost(
                context,
                with_action(policy, position, worse),
            ),
    ;
}

/// The price that the context charges for one step of an action.
pub open spec fn price_of(context: UpgradeContext, action: Action) -> u32 {
    match action {
        Action::Upgrade => context.spec_upgrade_price(),
        Action::White => context.spec_white_price(),
        Action::Innocence => context.spec_innocence_price(),
    }
}

/// A total, stopped at the largest number that a computed cost can hold.
pub open spec fn capped(total: nat) -> nat {
    if total > u64::MAX {
        u64::MAX as nat
    } else {
        total
    }
}

/// The cost model that charges the same amount for every strategy. Under it
/// no substitution is an improvement.
#[derive(Clone, Copy, Debug)]
pub struct FlatCost {
    pub amount: u64,
}

impl CostEvaluator for FlatCost {
    open spec fn cost(&self, context: UpgradeContext, policy: Policy) -> Cost {
        self.amount as nat
    }

    open spec fn same_transitions(&self, first: Action, second: Action) -> bool {
        true
    }

    fn evaluate(&self, strategy: &Strategy) -> (total: u64) {
        self.amount
    }

    proof fn lemma_dominated_is_never_cheaper(
        &self,
        context: UpgradeContext,
        policy: Policy,
        position: Position,
        worse: Action,
    ) {
    }
}

/// Adds up the weights of the cells of a strategy, stopping at the largest
/// number that the total can hold.
fn total_weight(strategy: &Strategy, upgrade: u32, white: u32, innocence: u32) -> (total: u64)
    ensures
        total == capped(
            weight_of(
                strategy.policy(),
                |action: Action|
                    match action {
                        Action::Upgrade => upgrade as nat,
                        Action::White => white as nat,
                        Action::Innocence => innocence as nat,
                    },
            ),
        ),
{
    let actions = strategy.get_actions();
    let ghost policy = strategy.policy();
    let ghost weight = |action: Action|
        match action {
            Action::Upgrade => upgrade as nat,
            Action::White => white as nat,
            Action::Innocence => innocence as nat,
        };
    let mut total: u64 = 0;
    let mut f: usize = 0;
    while f < actions.len()
        invariant
            f <= actions.len(),
            policy == policy_of(actions),
            weight == |action: Action|
                match action {
                    Action::Upgrade => upgrade as nat,
                    Action::White => white as nat,
                    Action::Innocence => innocence as nat,
                },
            total == capped(weight_of(policy.take(f as int), weight)),
        decreases actions.len() - f,
    {
        let row = &actions[f];
        assert(row@ == policy[f as int]);
        let mut in_row: u64 = 0;
        let mut s: usize = 0;
        while s < row.len()
            invariant
                s <= row.len(),
                weight == |action: Action|
                    match action {
                        Action::Upgrade => upgrade as nat,
                        Action::White => white as nat,
                        Action::Innocence => innocence as nat,
                    },
                in_row == capped(weight_of_row(row@.take(s as int), weight)),
            decreases row.len() - s,
        {
            assert(row@.take(s + 1).drop_last() =~= row@.take(s as int));
            let step = match row[s] {
                Action::Upgrade => upgrade,
                Action::White => white,
                Action::Innocence => innocence,
            };
            assert(step == weight(row@.take(s + 1).last()));
            in_row = in_row.saturating_add(step as u64);
            s = s + 1;
        }
        assert(row@.take(row.len() as int) =~= row@);
        assert(policy.take(f + 1).drop_last() =~= policy.take(f as int));
        total = total.saturating_add(in_row);
        f = f + 1;
    }
    assert(policy.take(actions.len() as int) =~= policy);
    total
}

/// The cost model that charges one unit for every cell that does not hold
/// `Innocence`. Under it every substitution is an improvement.
#[derive(Clone, Copy, Debug)]
pub struct PendingCells;

impl CostEvaluator for PendingCells {
    open spec fn cost(&self, context: UpgradeContext, policy: Policy) -> Cost {
        pending(policy)
    }

    open spec fn same_transitions(&self, first: Action, second: Action) -> bool {
        pending_in_cell(first) == pending_in_cell(second)
    }

    fn evaluate(&self, strategy: &Strategy) -> (total: u64) {
        let total = total_weight(strategy, 1, 1, 0);
        proof {
            let count = strategy.context().spec_upgradeable_count() as nat;
            assert(pending_weight() =~= (|action: Action|
                match action {
                    Action::Upgrade => 1u32 as nat,
                    Action::White => 1u32 as nat,
                    Action::Innocence => 0u32 as nat,
                }));
            lemma_weight_of_grid_bound(strategy.policy(), count, pending_weight(), 1);
            assert((count + 1) * count * 1 <= 0x1_0000_0000 * 0xffff_ffff) by (nonlinear_arith)
                requires
                    0 <= count <= 0xffff_ffff,
            ;
        }
        total
    }

    proof fn lemma_dominated_is_never_cheaper(
        &self,
        context: UpgradeContext,
        policy: Policy,
        position: Position,
        worse: Action,
    ) {
        lemma_with_action(policy, position, worse, pending_weight());
    }
}

/// The weight that charges each cell the price of its action.
pub open spec fn price_weight(context: UpgradeContext) -> spec_fn(Action) -> nat {
    |action: Action| price_of(context, action) as nat
}

/// The cost model that charges every cell of the policy once, at the price
/// that the context gives for its action. It knows no rates and no moves:
/// it is the cost of a walk that stops once in every state.
#[derive(Clone, Copy, Debug)]
pub struct StepPrices;

impl CostEvaluator for StepPrices {
    open spec fn cost(&self, context: UpgradeContext, policy: Policy) -> Cost {
        capped(weight_of(policy, price_weight(context)))
    }

    open spec fn same_transitions(&self, first: Action, second: Action) -> bool {
        true
    }

    fn evaluate(&self, strategy: &Strategy) -> (total: u64) {
        let context = strategy.get_upgrade_context();
        let total = total_weight(
            strategy,
            context.get_upgrade_price(),
            context.get_white_price(),
            context.get_innocence_price(),
        );
        assert(price_weight(strategy.context()) =~= (|action: Action|
            match action {
                Action::Upgrade => strategy.context().spec_upgrade_price() as nat,
                Action::White => strategy.context().spec_white_price() as nat,
                Action::Innocence => strategy.context().spec_innocence_price() as nat,
            }));
        total
    }

    proof fn lemma_dominated_is_never_cheaper(
        &self,
        context: UpgradeContext,
        policy: Policy,
        position: Position,
        worse: Action,
    ) {
        lemma_with_action(policy, position, worse, price_weight(context));
    }
}

/// `FlatCost` is indifferent to the policy.
pub proof fn lemma_flat_cost_is_constant(evaluator: &FlatCost, context: UpgradeContext)
    ensures
        constant_cost(evaluator, context),
{
}

/// `PendingCells` strictly prefers `Innocence`, whatever the context and the
/// budget.
pub proof fn lemma_pending_cells_prefers_innocence(
    evaluator: &PendingCells,
    context: UpgradeContext,
    count: usize,
)
    ensures
        prefers_innocence(evaluator, context, count),
{
    assert forall|policy: Policy, position: Position|
        same_shape(policy, baseline(count as nat)) && has_cell(policy, position)
            && !holds_innocence(policy, position) implies #[trigger] improves(
        evaluator,
        context,
        policy,
        position,
    ) by {
        lemma_with_innocence(policy, position);
    }
}

} // verus!
