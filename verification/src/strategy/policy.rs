//! The action assigned to each state of the grid, as rows of cells.
//!
//! Row `f` of a policy belongs to failure counter `f`, cell `s` of that row to
//! `s` banked successes. Contracts speak of a policy as a sequence of
//! sequences of actions.

use vstd::prelude::*;
use super::position::Position;

verus! {

/// What to do in one state of the grid.
#[derive(Clone, Copy, Debug, PartialEq, Eq, Structural)]
pub enum Action {
    /// Attempt a plain enhancement.
    Upgrade,
    /// Consume the consumable that protects against the loss.
    White,
    /// Consume the consumable that resets the pity counters.
    Innocence,
}

/// The rows of a policy as they are stored.
pub type Actions = Vec<Vec<Action>>;

/// The rows of a policy as contracts see them.
pub type Policy = Seq<Seq<Action>>;

/// The policy that stored rows stand for.
pub open spec fn policy_of(actions: &Actions) -> Policy {
    Seq::new(actions@.len(), |f: int| actions@[f]@)
}

/// Row `failure` of the baseline for a budget of `count` attempts:
/// `count - failure` plain attempts, closed by one `White` in every row but
/// the first.
pub open spec fn baseline_row(count: nat, failure: nat) -> Seq<Action> {
    let upgrades = Seq::new((count - failure) as nat, |s: int| Action::Upgrade);
    if failure > 0 {
        upgrades.push(Action::White)
    } else {
        upgrades
    }
}

/// The baseline policy for a budget of `count` attempts: one row for each
/// failure counter from `0` to `count`.
pub open spec fn baseline(count: nat) -> Policy {
    Seq::new(count + 1, |f: int| baseline_row(count, f as nat))
}

/// Two policies have the same rows of the same lengths.
pub open spec fn same_shape(a: Policy, b: Policy) -> bool {
    &&& a.len() == b.len()
    &&& forall|f: int| 0 <= f < a.len() ==> (#[trigger] a[f]).len() == b[f].len()
}

/// Length of row `failure` in the grid for `count` attempts.
pub open spec fn row_len(count: nat, failure: nat) -> nat {
    if failure > 0 {
        (count - failure + 1) as nat
    } else {
        count
    }
}

/// A policy of the shape of the baseline has one row more than the budget,
/// and each row has the length of the baseline's.
pub proof fn lemma_grid_shape(policy: Policy, count: nat, failure: nat)
    requires
        same_shape(policy, baseline(count)),
        failure <= count,
    ensures
        policy.len() == count + 1,
        policy[failure as int].len() == row_len(count, failure),
{
    assert(baseline(count)[failure as int] == baseline_row(count, failure));
    assert(policy[failure as int].len() == baseline(count)[failure as int].len());
}

/// The policy has a cell for the position.
pub open spec fn has_cell(policy: Policy, position: Position) -> bool {
    &&& position.failure < policy.len()
    &&& position.success < policy[position.failure as int].len()
}

/// The action in the cell of the position.
pub open spec fn action_at(policy: Policy, position: Position) -> Action
    recommends
        has_cell(policy, position),
{
    policy[position.failure as int][position.success as int]
}

/// The policy with an action written into the cell of the position. A policy
/// without such a cell stays as it is.
pub open spec fn with_action(policy: Policy, position: Position, action: Action) -> Policy {
    if has_cell(policy, position) {
        policy.update(
            position.failure as int,
            policy[position.failure as int].update(position.success as int, action),
        )
    } else {
        policy
    }
}

/// The policy with `Innocence` written into the cell of the position. A
/// policy without such a cell stays as it is.
pub open spec fn with_innocence(policy: Policy, position: Position) -> Policy {
    with_action(policy, position, Action::Innocence)
}

/// The weights of the cells of a row, added up.
pub open spec fn weight_of_row(row: Seq<Action>, weight: spec_fn(Action) -> nat) -> nat
    decreases row.len(),
{
    if row.len() == 0 {
        0
    } else {
        weight_of_row(row.drop_last(), weight) + weight(row.last())
    }
}

/// The weights of the cells of a policy, added up.
pub open spec fn weight_of(policy: Policy, weight: spec_fn(Action) -> nat) -> nat
    decreases policy.len(),
{
    if policy.len() == 0 {
        0
    } else {
        weight_of(policy.drop_last(), weight) + weight_of_row(policy.last(), weight)
    }
}

/// Writing an action into a cell changes the weight of the row by the
/// difference between the old and the new action.
pub proof fn lemma_weight_of_row_update(
    row: Seq<Action>,
    index: int,
    action: Action,
    weight: spec_fn(Action) -> nat,
)
    requires
        0 <= index < row.len(),
    ensures
        weight_of_row(row.update(index, action), weight) + weight(row[index]) == weight_of_row(
            row,
            weight,
        ) + weight(action),
    decreases row.len(),
{
    let updated = row.update(index, action);
    if index == row.len() - 1 {
        assert(updated.drop_last() =~= row.drop_last());
    } else {
        assert(updated.drop_last() =~= row.drop_last().update(index, action));
        lemma_weight_of_row_update(row.drop_last(), index, action, weight);
    }
}

/// Replacing one row of a policy changes its weight by the difference between
/// the two rows.
pub proof fn lemma_weight_of_update(
    policy: Policy,
    index: int,
    row: Seq<Action>,
    weight: spec_fn(Action) -> nat,
)
    requires
        0 <= index < policy.len(),
    ensures
        weight_of(policy.update(index, row), weight) + weight_of_row(policy[index], weight)
            == weight_of(policy, weight) + weight_of_row(row, weight),
    decreases policy.len(),
{
    let updated = policy.update(index, row);
    if index == policy.len() - 1 {
        assert(updated.drop_last() =~= policy.drop_last());
    } else {
        assert(updated.drop_last() =~= policy.drop_last().update(index, row));
        lemma_weight_of_update(policy.drop_last(), index, row, weight);
    }
}

/// Writing an action into a cell keeps the shape of the policy and changes
/// its weight by the difference between the old and the new action. Writing
/// the action that the cell holds already changes nothing.
pub proof fn lemma_with_action(
    policy: Policy,
    position: Position,
    action: Action,
    weight: spec_fn(Action) -> nat,
)
    ensures
        same_shape(with_action(policy, position, action), policy),
        has_cell(policy, position) ==> weight_of(with_action(policy, position, action), weight)
            + weight(action_at(policy, position)) == weight_of(policy, weight) + weight(action),
        !has_cell(policy, position) || action_at(policy, position) == action ==> with_action(
            policy,
            position,
            action,
        ) == policy,
{
    if has_cell(policy, position) {
        let f = position.failure as int;
        let s = position.success as int;
        let row = policy[f].update(s, action);
        lemma_weight_of_row_update(policy[f], s, action, weight);
        lemma_weight_of_update(policy, f, row, weight);
        if policy[f][s] == action {
            assert(row =~= policy[f]);
            assert(policy.update(f, row) =~= policy);
        }
    }
}

/// A row whose cells weigh at most `bound` each weighs at most its length
/// times `bound`.
pub proof fn lemma_weight_of_row_bound(
    row: Seq<Action>,
    weight: spec_fn(Action) -> nat,
    bound: nat,
)
    requires
        forall|action: Action| #[trigger] weight(action) <= bound,
    ensures
        weight_of_row(row, weight) <= row.len() * bound,
    decreases row.len(),
{
    if row.len() > 0 {
        lemma_weight_of_row_bound(row.drop_last(), weight, bound);
        assert((row.len() - 1) * bound + bound == row.len() * bound) by (nonlinear_arith);
    }
}

/// A policy of the grid for `count` attempts whose cells weigh at most
/// `bound` each weighs at most `(count + 1) * count * bound`.
pub proof fn lemma_weight_of_grid_bound(
    policy: Policy,
    count: nat,
    weight: spec_fn(Action) -> nat,
    bound: nat,
)
    requires
        same_shape(policy, baseline(count)),
        forall|action: Action| #[trigger] weight(action) <= bound,
    ensures
        weight_of(policy, weight) <= (count + 1) * count * bound,
{
    lemma_grid_shape(policy, count, 0);
    assert forall|f: int| 0 <= f < policy.len() implies (#[trigger] policy[f]).len() <= count by {
        lemma_grid_shape(policy, count, f as nat);
    }
    lemma_weight_of_rows_bound(policy, weight, bound, count);
}

/// A policy whose rows have at most `width` cells, each of a weight of at
/// most `bound`, weighs at most its number of rows times `width * bound`.
proof fn lemma_weight_of_rows_bound(
    policy: Policy,
    weight: spec_fn(Action) -> nat,
    bound: nat,
    width: nat,
)
    requires
        forall|action: Action| #[trigger] weight(action) <= bound,
        forall|f: int| 0 <= f < policy.len() ==> (#[trigger] policy[f]).len() <= width,
    ensures
        weight_of(policy, weight) <= policy.len() * width * bound,
    decreases policy.len(),
{
    if policy.len() > 0 {
        let rest = policy.drop_last();
        assert forall|f: int| 0 <= f < rest.len() implies (#[trigger] rest[f]).len() <= width by {
            assert(rest[f] == policy[f]);
        }
        lemma_weight_of_rows_bound(rest, weight, bound, width);
        lemma_weight_of_row_bound(policy.last(), weight, bound);
        assert(policy.last() == policy[policy.len() - 1]);
        let rows = policy.len() as int;
        let cells = policy.last().len() as int;
        assert(cells * bound <= width * bound) by (nonlinear_arith)
            requires
                0 <= cells <= width,
                0 <= bound,
        ;
        assert((rows - 1) * width * bound + width * bound == rows * width * bound)
            by (nonlinear_arith);
    }
}

/// Builds one row of the baseline.
pub fn initial_row(count: usize, failure: usize) -> (row: Vec<Action>)
    requires
        failure <= count,
    ensures
        row@ == baseline_row(count as nat, failure as nat),
{
    let upgrades: usize = count - failure;
    let mut row: Vec<Action> = Vec::new();
    let mut s: usize = 0;
    while s < upgrades
        invariant
            s <= upgrades,
            row@ == Seq::new(s as nat, |i: int| Action::Upgrade),
        decreases upgrades - s,
    {
        row.push(Action::Upgrade);
        s = s + 1;
    }
    if failure > 0 {
        row.push(Action::White);
    }
    row
}

} // verus!
