//! The greedy frontier search as a function on policies, and why it ends.

use vstd::prelude::*;
use super::evaluator::CostEvaluator;
use super::policy::{
    Action,
    Policy,
    action_at,
    has_cell,
    lemma_with_action,
    same_shape,
    weight_of,
    with_innocence,
};
use super::position::Position;
use super::rate::UpgradeContext;

verus! {

/// The positions that a position leads to: up first, then right, each only
/// where the move exists.
pub open spec fn neighbors(position: Position) -> Seq<Position> {
    let up = match position.spec_up() {
        Some(next) => seq![next],
        None => Seq::<Position>::empty(),
    };
    match position.spec_right() {
        Some(next) => up.push(next),
        None => up,
    }
}

/// What one cell adds to the pending cells.
pub open spec fn pending_in_cell(action: Action) -> nat {
    if action == Action::Innocence {
        0
    } else {
        1
    }
}

/// The weight that counts the cells that do not hold `Innocence`.
pub open spec fn pending_weight() -> spec_fn(Action) -> nat {
    |action: Action| pending_in_cell(action)
}

/// Number of cells of a policy that do not hold `Innocence`.
pub open spec fn pending(policy: Policy) -> nat {
    weight_of(policy, pending_weight())
}

/// Writing `Innocence` into the cell of the position makes the policy
/// strictly cheaper.
pub open spec fn improves<E: CostEvaluator>(
    evaluator: &E,
    context: UpgradeContext,
    policy: Policy,
    position: Position,
) -> bool {
    evaluator.cost(context, with_innocence(policy, position)) < evaluator.cost(context, policy)
}

/// The policy that the search ends with, from a best policy so far and the
/// positions still to explore.
///
/// The first position of the queue is tried. Where `Innocence` in its cell is
/// a strict improvement the substitution is kept and the neighbors of the
/// position join the end of the queue; otherwise the position is dropped. A
/// position for which the policy has no cell changes nothing and is dropped
/// as well.
///
/// The search ends because every kept substitution takes one cell away from
/// those that do not hold `Innocence` yet, and adds at most two positions to
/// the queue.
pub open spec fn search<E: CostEvaluator>(
    evaluator: &E,
    context: UpgradeContext,
    policy: Policy,
    queue: Seq<Position>,
) -> Policy
    decreases 2 * pending(policy) + queue.len(),
    via search_terminates::<E>
{
    if queue.len() == 0 {
        policy
    } else if improves(evaluator, context, policy, queue.first()) {
        search(
            evaluator,
            context,
            with_innocence(policy, queue.first()),
            queue.drop_first() + neighbors(queue.first()),
        )
    } else {
        search(evaluator, context, policy, queue.drop_first())
    }
}

#[via_fn]
proof fn search_terminates<E: CostEvaluator>(
    evaluator: &E,
    context: UpgradeContext,
    policy: Policy,
    queue: Seq<Position>,
) {
    if queue.len() > 0 && improves(evaluator, context, policy, queue.first()) {
        lemma_improvement_consumes_pending(evaluator, context, policy, queue.first());
    }
}

/// Writing `Innocence` into a cell keeps the shape of the policy, and takes
/// one pending cell away unless the cell held `Innocence` already, in which
/// case the policy is unchanged.
pub proof fn lemma_with_innocence(policy: Policy, position: Position)
    ensures
        same_shape(with_innocence(policy, position), policy),
        has_cell(policy, position) && action_at(policy, position) != Action::Innocence
            ==> pending(with_innocence(policy, position)) + 1 == pending(policy),
        !has_cell(policy, position) || action_at(policy, position) == Action::Innocence
            ==> with_innocence(policy, position) == policy,
{
    lemma_with_action(policy, position, Action::Innocence, pending_weight());
}

/// A substitution that improves the cost takes one pending cell away.
pub proof fn lemma_improvement_consumes_pending<E: CostEvaluator>(
    evaluator: &E,
    context: UpgradeContext,
    policy: Policy,
    position: Position,
)
    requires
        improves(evaluator, context, policy, position),
    ensures
        has_cell(policy, position),
        action_at(policy, position) != Action::Innocence,
        pending(with_innocence(policy, position)) + 1 == pending(policy),
{
    lemma_with_innocence(policy, position);
}

} // verus!
