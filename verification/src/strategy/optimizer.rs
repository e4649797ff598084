//! A strategy and the greedy search that improves it.

use std::collections::VecDeque;
use vstd::prelude::*;
use super::evaluator::CostEvaluator;
use super::policy::{
    Action,
    Actions,
    Policy,
    baseline,
    baseline_row,
    has_cell,
    initial_row,
    policy_of,
    same_shape,
    with_innocence,
};
use super::position::Position;
use super::rate::UpgradeContext;
use super::search::{
    improves,
    lemma_improvement_consumes_pending,
    lemma_with_innocence,
    neighbors,
    pending,
    search,
};

verus! {

/// A policy together with the rates and prices it is evaluated under.
#[derive(Debug)]
pub struct Strategy {
    upgrade_context: UpgradeContext,
    actions: Actions,
}

/// Copies one row of a policy.
fn copy_row(row: &Vec<Action>) -> (copy: Vec<Action>)
    ensures
        copy@ == row@,
{
    let mut copy: Vec<Action> = Vec::new();
    let mut s: usize = 0;
    while s < row.len()
        invariant
            s <= row.len(),
            copy@ == row@.take(s as int),
        decreases row.len() - s,
    {
        copy.push(row[s]);
        s = s + 1;
        assert(copy@ =~= row@.take(s as int));
    }
    assert(row@.take(row.len() as int) =~= row@);
    copy
}

impl Clone for Strategy {
    /// A copy with rows of its own: changing the copy leaves this strategy
    /// as it was.
    fn clone(&self) -> (copy: Self)
        ensures
            copy.context() == self.context(),
            copy.policy() == self.policy(),
            self.well_formed() ==> copy.well_formed(),
    {
        let mut actions: Actions = Vec::new();
        let mut f: usize = 0;
        while f < self.actions.len()
            invariant
                f <= self.actions.len(),
                actions@.len() == f,
                forall|i: int| 0 <= i < f ==> (#[trigger] actions@[i])@ == self.actions@[i]@,
            decreases self.actions.len() - f,
        {
            let row = copy_row(&self.actions[f]);
            actions.push(row);
            f = f + 1;
        }
        assert(policy_of(&actions) =~= policy_of(&self.actions));
        Self { upgrade_context: self.upgrade_context, actions }
    }
}

impl Strategy {
    /// The rates and prices of the strategy.
    pub closed spec fn context(&self) -> UpgradeContext {
        self.upgrade_context
    }

    /// The policy of the strategy.
    pub closed spec fn policy(&self) -> Policy {
        policy_of(&self.actions)
    }

    /// The policy has the rows of the baseline for the budget of the
    /// context, each of its length.
    pub open spec fn well_formed(&self) -> bool {
        same_shape(self.policy(), baseline(self.context().spec_upgradeable_count() as nat))
    }

    /// The position that the search starts from.
    pub open spec fn origin(&self) -> Position {
        Position::spec_initial(self.context().spec_upgradeable_count() as usize)
    }

    /// The baseline strategy for a context.
    pub fn new(upgrade_context: UpgradeContext) -> (strategy: Self)
        requires
            upgrade_context.spec_upgradeable_count() < usize::MAX,
        ensures
            strategy.context() == upgrade_context,
            strategy.policy() == baseline(upgrade_context.spec_upgradeable_count() as nat),
            strategy.well_formed(),
    {
        let count = upgrade_context.get_upgradeable_count() as usize;
        let actions = Self::initial_actions(count);
        Self { upgrade_context, actions }
    }

    /// Builds the baseline policy for a budget of `count` attempts: plain
    /// attempts everywhere, and one `White` at the end of every row but the
    /// first.
    pub fn initial_actions(count: usize) -> (actions: Actions)
        requires
            count < usize::MAX,
        ensures
            policy_of(&actions) == baseline(count as nat),
    {
        let mut actions: Actions = Vec::new();
        let mut failure: usize = 0;
        while failure <= count
            invariant
                failure <= count + 1,
                count < usize::MAX,
                actions@.len() == failure,
                forall|f: int|
                    0 <= f < failure ==> (#[trigger] actions@[f])@ == baseline_row(
                        count as nat,
                        f as nat,
                    ),
            decreases count + 1 - failure,
        {
            let row = initial_row(count, failure);
            actions.push(row);
            failure = failure + 1;
        }
        assert(policy_of(&actions) =~= baseline(count as nat));
        actions
    }

    /// The rates and prices of the strategy.
    pub fn get_upgrade_context(&self) -> (context: &UpgradeContext)
        ensures
            *context == self.context(),
    {
        &self.upgrade_context
    }

    /// The rows of the policy.
    pub fn get_actions(&self) -> (actions: &Actions)
        ensures
            policy_of(actions) == self.policy(),
    {
        &self.actions
    }

    pub fn get_upgradeable_count(&self) -> (count: u32)
        ensures
            count == self.context().spec_upgradeable_count(),
    {
        self.upgrade_context.get_upgradeable_count()
    }

    /// Whether the policy has a cell for the position.
    pub fn has_cell(&self, position: &Position) -> (found: bool)
        ensures
            found == has_cell(self.policy(), *position),
    {
        position.get_failure() < self.actions.len() && position.get_success()
            < self.actions[position.get_failure()].len()
    }

    /// A copy of the strategy with `Innocence` in the cell of the position.
    pub fn placed_innocence(&self, position: &Position) -> (strategy: Self)
        requires
            has_cell(self.policy(), *position),
        ensures
            strategy.context() == self.context(),
            strategy.policy() == with_innocence(self.policy(), *position),
            self.well_formed() ==> strategy.well_formed(),
    {
        let mut strategy = self.clone();
        strategy.place_innocence(position);
        strategy
    }

    /// Writes `Innocence` into the cell of the position.
    pub fn place_innocence(&mut self, position: &Position)
        requires
            has_cell(old(self).policy(), *position),
        ensures
            final(self).context() == old(self).context(),
            final(self).policy() == with_innocence(old(self).policy(), *position),
            old(self).well_formed() ==> final(self).well_formed(),
    {
        let f = position.get_failure();
        let s = position.get_success();
        let mut row = copy_row(&self.actions[f]);
        row.set(s, Action::Innocence);
        self.actions.set(f, row);
        assert(self.policy() =~= with_innocence(old(self).policy(), *position));
        proof {
            lemma_with_innocence(old(self).policy(), *position);
        }
    }

    /// Whether this strategy costs strictly less than the other.
    pub fn is_better_than<E: CostEvaluator>(&self, other: &Self, evaluator: &E) -> (better: bool)
        requires
            self.well_formed(),
            other.well_formed(),
        ensures
            better == (evaluator.cost(self.context(), self.policy()) < evaluator.cost(
                other.context(),
                other.policy(),
            )),
    {
        self.simulate_cost(evaluator) < other.simulate_cost(evaluator)
    }

    /// The cost of the strategy under a cost model.
    pub fn simulate_cost<E: CostEvaluator>(&self, evaluator: &E) -> (total: u64)
        requires
            self.well_formed(),
        ensures
            total == evaluator.cost(self.context(), self.policy()),
    {
        evaluator.evaluate(self)
    }

    /// Searches from this strategy for a cheaper one.
    ///
    /// The search tries `Innocence` in the cell of the initial position and,
    /// from every substitution that made the strategy strictly cheaper, in
    /// the cells of the positions above and to the right of it. A tie is no
    /// improvement. What comes back is never costlier than this strategy.
    pub fn optimized<E: CostEvaluator>(&self, evaluator: &E) -> (best: Self)
        requires
            self.well_formed(),
        ensures
            best.well_formed(),
            best.context() == self.context(),
            best.policy() == search(evaluator, self.context(), self.policy(), seq![self.origin()]),
            evaluator.cost(best.context(), best.policy()) <= evaluator.cost(
                self.context(),
                self.policy(),
            ),
    {
        let mut best_strategy = self.clone();
        let mut positions_to_explore = self.initialize_exploration_queue();
        let ghost goal = search(evaluator, self.context(), self.policy(), seq![self.origin()]);
        while positions_to_explore.len() > 0
            invariant
                self.well_formed(),
                best_strategy.well_formed(),
                best_strategy.context() == self.context(),
                search(evaluator, self.context(), best_strategy.policy(), positions_to_explore@)
                    == goal,
                evaluator.cost(best_strategy.context(), best_strategy.policy()) <= evaluator.cost(
                    self.context(),
                    self.policy(),
                ),
            decreases 2 * pending(best_strategy.policy()) + positions_to_explore@.len(),
        {
            let ghost queue = positions_to_explore@;
            let position = positions_to_explore.pop_front().unwrap();
            assert(positions_to_explore@ =~= queue.drop_first());
            if let Some(improved_strategy) = best_strategy.improved(&position, evaluator) {
                proof {
                    lemma_improvement_consumes_pending(
                        evaluator,
                        best_strategy.context(),
                        best_strategy.policy(),
                        position,
                    );
                }
                best_strategy = improved_strategy;
                Self::add_neighboring_positions_to_queue(&position, &mut positions_to_explore);
            }
        }
        best_strategy
    }

    /// The queue that the search starts with: the initial position alone.
    pub fn initialize_exploration_queue(&self) -> (queue: VecDeque<Position>)
        ensures
            queue@ == seq![self.origin()],
    {
        let initial_position = Position::initial(self.get_upgradeable_count() as usize);
        let mut queue: VecDeque<Position> = VecDeque::new();
        queue.push_back(initial_position);
        assert(queue@ =~= seq![self.origin()]);
        queue
    }

    /// The strategy with `Innocence` in the cell of the position, where that
    /// is strictly cheaper than this strategy; nothing where the cell holds
    /// `Innocence` already, where the policy has no such cell, or where the
    /// cost does not fall.
    pub fn improved<E: CostEvaluator>(&self, position: &Position, evaluator: &E) -> (candidate:
        Option<Self>)
        requires
            self.well_formed(),
        ensures
            candidate is Some <==> improves(evaluator, self.context(), self.policy(), *position),
            candidate matches Some(strategy) ==> {
                &&& strategy.context() == self.context()
                &&& strategy.policy() == with_innocence(self.policy(), *position)
                &&& strategy.well_formed()
            },
    {
        if !self.has_cell(position) {
            return None;
        }
        let candidate_strategy = self.placed_innocence(position);
        if candidate_strategy.is_better_than(self, evaluator) {
            Some(candidate_strategy)
        } else {
            None
        }
    }

    /// Appends the positions above and to the right of a position to the
    /// queue, each only where the move exists.
    pub fn add_neighboring_positions_to_queue(position: &Position, queue: &mut VecDeque<Position>)
        ensures
            final(queue)@ == old(queue)@ + neighbors(*position),
    {
        if let Some(up) = position.up() {
            queue.push_back(up);
        }
        if let Some(right) = position.right() {
            queue.push_back(right);
        }
        assert(queue@ =~= old(queue)@ + neighbors(*position));
    }
}

} // verus!
