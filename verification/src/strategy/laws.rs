//! Laws of the search that hold for every cost model.

use vstd::prelude::*;
use super::evaluator::CostEvaluator;
use super::policy::{
    Action,
    Policy,
    action_at,
    baseline,
    baseline_row,
    has_cell,
    lemma_grid_shape,
    row_len,
    same_shape,
    with_innocence,
};
use super::position::Position;
use super::rate::UpgradeContext;
use super::search::{
    improves,
    lemma_improvement_consumes_pending,
    lemma_with_innocence,
    neighbors,
    pending,
    search,
};

verus! {

/// The cell of the position exists and holds `Innocence`.
pub open spec fn holds_innocence(policy: Policy, position: Position) -> bool {
    &&& has_cell(policy, position)
    &&& action_at(policy, position) == Action::Innocence
}

/// Every cell of the policy holds `Innocence`.
pub open spec fn all_innocence(policy: Policy) -> bool {
    forall|f: int, s: int|
        0 <= f < policy.len() && 0 <= s < policy[f].len() ==> (#[trigger] policy[f][s])
            == Action::Innocence
}

/// No cell of the policy holds `Innocence`.
pub open spec fn no_innocence(policy: Policy) -> bool {
    forall|f: int, s: int|
        0 <= f < policy.len() && 0 <= s < policy[f].len() ==> (#[trigger] policy[f][s])
            != Action::Innocence
}

/// The cost model is indifferent: under the context every policy costs the
/// same.
pub open spec fn constant_cost<E: CostEvaluator>(evaluator: &E, context: UpgradeContext) -> bool {
    forall|a: Policy, b: Policy| #[trigger]
        evaluator.cost(context, a) == #[trigger] evaluator.cost(context, b)
}

/// The cost model strictly prefers `Innocence`: in a policy of the grid for
/// `count` attempts, writing it into any cell that holds another action
/// makes the policy strictly cheaper.
pub open spec fn prefers_innocence<E: CostEvaluator>(
    evaluator: &E,
    context: UpgradeContext,
    count: usize,
) -> bool {
    forall|policy: Policy, position: Position|
        same_shape(policy, baseline(count as nat)) && has_cell(policy, position)
            && !holds_innocence(policy, position) ==> #[trigger] improves(
            evaluator,
            context,
            policy,
            position,
        )
}

/// The search keeps the shape of the policy it starts from.
pub proof fn lemma_search_keeps_shape<E: CostEvaluator>(
    evaluator: &E,
    context: UpgradeContext,
    policy: Policy,
    queue: Seq<Position>,
)
    ensures
        same_shape(search(evaluator, context, policy, queue), policy),
    decreases 2 * pending(policy) + queue.len(),
{
    if queue.len() == 0 {
    } else if improves(evaluator, context, policy, queue.first()) {
        lemma_improvement_consumes_pending(evaluator, context, policy, queue.first());
        lemma_with_innocence(policy, queue.first());
        lemma_search_keeps_shape(
            evaluator,
            context,
            with_innocence(policy, queue.first()),
            queue.drop_first() + neighbors(queue.first()),
        );
    } else {
        lemma_search_keeps_shape(evaluator, context, policy, queue.drop_first());
    }
}

/// The search never returns a policy that costs more than the one it
/// started from.
pub proof fn lemma_search_never_costlier<E: CostEvaluator>(
    evaluator: &E,
    context: UpgradeContext,
    policy: Policy,
    queue: Seq<Position>,
)
    ensures
        evaluator.cost(context, search(evaluator, context, policy, queue)) <= evaluator.cost(
            context,
            policy,
        ),
    decreases 2 * pending(policy) + queue.len(),
{
    if queue.len() == 0 {
    } else if improves(evaluator, context, policy, queue.first()) {
        lemma_improvement_consumes_pending(evaluator, context, policy, queue.first());
        lemma_search_never_costlier(
            evaluator,
            context,
            with_innocence(policy, queue.first()),
            queue.drop_first() + neighbors(queue.first()),
        );
    } else {
        lemma_search_never_costlier(evaluator, context, policy, queue.drop_first());
    }
}

/// Under a cost model that is indifferent to the policy no substitution is
/// accepted: the search returns the policy it started from, cell for cell.
pub proof fn lemma_constant_cost_changes_nothing<E: CostEvaluator>(
    evaluator: &E,
    context: UpgradeContext,
    policy: Policy,
    queue: Seq<Position>,
)
    requires
        constant_cost(evaluator, context),
    ensures
        search(evaluator, context, policy, queue) == policy,
    decreases queue.len(),
{
    if queue.len() > 0 {
        assert(evaluator.cost(context, with_innocence(policy, queue.first())) == evaluator.cost(
            context,
            policy,
        ));
        lemma_constant_cost_changes_nothing(evaluator, context, policy, queue.drop_first());
    }
}

/// A cell that holds `Innocence` holds it still when the search ends.
pub proof fn lemma_search_keeps_innocence<E: CostEvaluator>(
    evaluator: &E,
    context: UpgradeContext,
    policy: Policy,
    queue: Seq<Position>,
    position: Position,
)
    requires
        holds_innocence(policy, position),
    ensures
        holds_innocence(search(evaluator, context, policy, queue), position),
    decreases 2 * pending(policy) + queue.len(),
{
    if queue.len() == 0 {
    } else if improves(evaluator, context, policy, queue.first()) {
        lemma_improvement_consumes_pending(evaluator, context, policy, queue.first());
        lemma_search_keeps_innocence(
            evaluator,
            context,
            with_innocence(policy, queue.first()),
            queue.drop_first() + neighbors(queue.first()),
            position,
        );
    } else {
        lemma_search_keeps_innocence(evaluator, context, policy, queue.drop_first(), position);
    }
}

/// The search writes nothing but `Innocence`: every cell of its result holds
/// what it held before, or `Innocence`.
pub proof fn lemma_search_only_writes_innocence<E: CostEvaluator>(
    evaluator: &E,
    context: UpgradeContext,
    policy: Policy,
    queue: Seq<Position>,
    position: Position,
)
    requires
        has_cell(policy, position),
    ensures
        has_cell(search(evaluator, context, policy, queue), position),
        action_at(search(evaluator, context, policy, queue), position) == action_at(
            policy,
            position,
        ) || action_at(search(evaluator, context, policy, queue), position)
            == Action::Innocence,
    decreases 2 * pending(policy) + queue.len(),
{
    if queue.len() == 0 {
    } else if improves(evaluator, context, policy, queue.first()) {
        lemma_improvement_consumes_pending(evaluator, context, policy, queue.first());
        lemma_search_only_writes_innocence(
            evaluator,
            context,
            with_innocence(policy, queue.first()),
            queue.drop_first() + neighbors(queue.first()),
            position,
        );
    } else {
        lemma_search_only_writes_innocence(
            evaluator,
            context,
            policy,
            queue.drop_first(),
            position,
        );
    }
}

/// Running the search again on its own result, from the same position,
/// returns that result: no further substitution improves it.
pub proof fn lemma_search_idempotent<E: CostEvaluator>(
    evaluator: &E,
    context: UpgradeContext,
    policy: Policy,
    origin: Position,
)
    ensures
        search(
            evaluator,
            context,
            search(evaluator, context, policy, seq![origin]),
            seq![origin],
        ) == search(evaluator, context, policy, seq![origin]),
{
    let queue = seq![origin];
    let once = search(evaluator, context, policy, queue);
    assert(queue.first() == origin);
    assert(queue.drop_first() =~= Seq::<Position>::empty());
    if improves(evaluator, context, policy, origin) {
        lemma_improvement_consumes_pending(evaluator, context, policy, origin);
        let placed = with_innocence(policy, origin);
        let next = queue.drop_first() + neighbors(origin);
        assert(once == search(evaluator, context, placed, next));
        lemma_with_innocence(policy, origin);
        assert(holds_innocence(placed, origin));
        lemma_search_keeps_innocence(evaluator, context, placed, next, origin);
        lemma_with_innocence(once, origin);
        assert(!improves(evaluator, context, once, origin));
        assert(search(evaluator, context, once, queue) == search(
            evaluator,
            context,
            once,
            queue.drop_first(),
        ));
    } else {
        assert(once == search(evaluator, context, policy, queue.drop_first()));
        assert(once == policy);
    }
}

/// The cell of the position, where the policy has one, holds `Innocence` or
/// the position waits in the queue.
spec fn settled(policy: Policy, queue: Seq<Position>, position: Position) -> bool {
    has_cell(policy, position) ==> holds_innocence(policy, position) || queue.contains(position)
}

/// What the search keeps true of its frontier: the initial position is
/// settled, and so are both neighbors of every position whose cell holds
/// `Innocence`.
spec fn frontier_closed(policy: Policy, queue: Seq<Position>, count: usize) -> bool {
    &&& settled(policy, queue, Position::spec_initial(count))
    &&& forall|position: Position|
        position.upgradeable_count == count && #[trigger] holds_innocence(policy, position) ==> {
            &&& position.spec_up() matches Some(next) ==> settled(policy, queue, next)
            &&& position.spec_right() matches Some(next) ==> settled(policy, queue, next)
        }
}

/// Every position of the queue belongs to the grid for `count` attempts.
spec fn queue_of_grid(queue: Seq<Position>, count: usize) -> bool {
    forall|i: int| 0 <= i < queue.len() ==> (#[trigger] queue[i]).upgradeable_count == count
}

/// A settled position stays settled when the first position of the queue is
/// accepted.
proof fn lemma_settled_after_accept(
    policy: Policy,
    queue: Seq<Position>,
    position: Position,
)
    requires
        queue.len() > 0,
        has_cell(policy, queue.first()),
        settled(policy, queue, position),
    ensures
        settled(
            with_innocence(policy, queue.first()),
            queue.drop_first() + neighbors(queue.first()),
            position,
        ),
{
    let after = queue.drop_first() + neighbors(queue.first());
    if has_cell(policy, position) && !holds_innocence(policy, position) && position
        != queue.first() {
        let i = choose|i: int| 0 <= i < queue.len() && queue[i] == position;
        assert(after[i - 1] == position);
    }
}

/// A settled position stays settled when the first position of the queue is
/// rejected although its cell, if any, holds `Innocence`.
proof fn lemma_settled_after_reject(policy: Policy, queue: Seq<Position>, position: Position)
    requires
        queue.len() > 0,
        settled(policy, queue, queue.first()) ==> !has_cell(policy, queue.first())
            || holds_innocence(policy, queue.first()),
        !has_cell(policy, queue.first()) || holds_innocence(policy, queue.first()),
        settled(policy, queue, position),
    ensures
        settled(policy, queue.drop_first(), position),
{
    if has_cell(policy, position) && !holds_innocence(policy, position) {
        let i = choose|i: int| 0 <= i < queue.len() && queue[i] == position;
        assert(queue.drop_first()[i - 1] == position);
    }
}

/// Under a cost model that strictly prefers `Innocence` the search ends with
/// a closed frontier and nothing left to explore.
proof fn lemma_search_closes_frontier<E: CostEvaluator>(
    evaluator: &E,
    context: UpgradeContext,
    policy: Policy,
    queue: Seq<Position>,
    count: usize,
)
    requires
        same_shape(policy, baseline(count as nat)),
        prefers_innocence(evaluator, context, count),
        frontier_closed(policy, queue, count),
        queue_of_grid(queue, count),
    ensures
        frontier_closed(
            search(evaluator, context, policy, queue),
            Seq::<Position>::empty(),
            count,
        ),
    decreases 2 * pending(policy) + queue.len(),
{
    if queue.len() == 0 {
        assert(queue =~= Seq::<Position>::empty());
    } else {
        let first = queue.first();
        let rest = queue.drop_first();
        if improves(evaluator, context, policy, first) {
            lemma_improvement_consumes_pending(evaluator, context, policy, first);
            lemma_with_innocence(policy, first);
            let placed = with_innocence(policy, first);
            let after = rest + neighbors(first);
            lemma_settled_after_accept(policy, queue, Position::spec_initial(count));
            assert forall|position: Position|
                position.upgradeable_count == count && #[trigger] holds_innocence(
                    placed,
                    position,
                ) implies {
                &&& position.spec_up() matches Some(next) ==> settled(placed, after, next)
                &&& position.spec_right() matches Some(next) ==> settled(placed, after, next)
            } by {
                if position == first {
                    if let Some(next) = position.spec_up() {
                        assert(after[rest.len() as int] == next);
                    }
                    if let Some(next) = position.spec_right() {
                        assert(after[after.len() - 1] == next);
                    }
                } else {
                    assert(holds_innocence(policy, position));
                    if let Some(next) = position.spec_up() {
                        lemma_settled_after_accept(policy, queue, next);
                    }
                    if let Some(next) = position.spec_right() {
                        lemma_settled_after_accept(policy, queue, next);
                    }
                }
            }
            assert(queue_of_grid(after, count)) by {
                assert forall|i: int| 0 <= i < after.len() implies (#[trigger] after[i]).upgradeable_count
                    == count by {
                    if i < rest.len() {
                        assert(after[i] == queue[i + 1]);
                    }
                }
            }
            lemma_search_closes_frontier(evaluator, context, placed, after, count);
        } else {
            lemma_settled_after_reject(policy, queue, Position::spec_initial(count));
            assert forall|position: Position|
                position.upgradeable_count == count && #[trigger] holds_innocence(
                    policy,
                    position,
                ) implies {
                &&& position.spec_up() matches Some(next) ==> settled(policy, rest, next)
                &&& position.spec_right() matches Some(next) ==> settled(policy, rest, next)
            } by {
                if let Some(next) = position.spec_up() {
                    lemma_settled_after_reject(policy, queue, next);
                }
                if let Some(next) = position.spec_right() {
                    lemma_settled_after_reject(policy, queue, next);
                }
            }
            assert(queue_of_grid(rest, count)) by {
                assert forall|i: int| 0 <= i < rest.len() implies (#[trigger] rest[i]).upgradeable_count
                    == count by {
                    assert(rest[i] == queue[i + 1]);
                }
            }
            lemma_search_closes_frontier(evaluator, context, policy, rest, count);
        }
    }
}

/// With nothing left to explore, a neighbor of a cell that holds `Innocence`
/// holds `Innocence` too, where it has a cell.
proof fn lemma_closed_frontier_step(policy: Policy, count: usize, from: Position, to: Position)
    requires
        frontier_closed(policy, Seq::<Position>::empty(), count),
        from.upgradeable_count == count,
        holds_innocence(policy, from),
        from.spec_up() == Some(to) || from.spec_right() == Some(to),
        has_cell(policy, to),
    ensures
        holds_innocence(policy, to),
{
    assert(settled(policy, Seq::<Position>::empty(), to));
    assert(!Seq::<Position>::empty().contains(to));
}

/// In a policy of the grid whose frontier is closed with nothing left to
/// explore, the cell at `failure` and `success` holds `Innocence`.
proof fn lemma_closed_frontier_reaches_cell(
    policy: Policy,
    count: usize,
    failure: nat,
    success: nat,
)
    requires
        same_shape(policy, baseline(count as nat)),
        frontier_closed(policy, Seq::<Position>::empty(), count),
        failure <= count,
        success < row_len(count as nat, failure),
    ensures
        holds_innocence(
            policy,
            Position {
                failure: failure as usize,
                success: success as usize,
                upgradeable_count: count,
            },
        ),
    decreases success, count - failure,
{
    let here = Position {
        failure: failure as usize,
        success: success as usize,
        upgradeable_count: count,
    };
    lemma_grid_shape(policy, count as nat, failure);
    assert(has_cell(policy, here));
    if success > 0 {
        let left = Position {
            failure: failure as usize,
            success: (success - 1) as usize,
            upgradeable_count: count,
        };
        lemma_closed_frontier_reaches_cell(policy, count, failure, (success - 1) as nat);
        assert(left.spec_right() == Some(here));
        lemma_closed_frontier_step(policy, count, left, here);
    } else if failure < count {
        let below = Position {
            failure: (failure + 1) as usize,
            success: 0,
            upgradeable_count: count,
        };
        lemma_closed_frontier_reaches_cell(policy, count, failure + 1, 0);
        assert(below.spec_up() == Some(here));
        lemma_closed_frontier_step(policy, count, below, here);
    } else {
        assert(here == Position::spec_initial(count));
        assert(settled(policy, Seq::<Position>::empty(), here));
        assert(!Seq::<Position>::empty().contains(here));
    }
}

/// Under a cost model that strictly prefers `Innocence`, the search from a
/// policy of the grid that holds no `Innocence` yet ends with `Innocence` in
/// every cell: the frontier reaches every cell from the initial position.
/// Searching again from that result changes nothing more.
pub proof fn lemma_eager_search_fills_grid<E: CostEvaluator>(
    evaluator: &E,
    context: UpgradeContext,
    policy: Policy,
    count: usize,
)
    requires
        same_shape(policy, baseline(count as nat)),
        no_innocence(policy),
        prefers_innocence(evaluator, context, count),
    ensures
        all_innocence(
            search(evaluator, context, policy, seq![Position::spec_initial(count)]),
        ),
        search(
            evaluator,
            context,
            search(evaluator, context, policy, seq![Position::spec_initial(count)]),
            seq![Position::spec_initial(count)],
        ) == search(evaluator, context, policy, seq![Position::spec_initial(count)]),
{
    let origin = Position::spec_initial(count);
    let queue = seq![origin];
    let filled = search(evaluator, context, policy, queue);
    assert(queue[0] == origin);
    assert(queue.contains(origin));
    lemma_search_closes_frontier(evaluator, context, policy, queue, count);
    lemma_search_keeps_shape(evaluator, context, policy, queue);
    assert forall|f: int, s: int| 0 <= f < filled.len() && 0 <= s < filled[f].len() implies (
    #[trigger] filled[f][s]) == Action::Innocence by {
        lemma_grid_shape(filled, count as nat, 0);
        lemma_grid_shape(filled, count as nat, f as nat);
        lemma_closed_frontier_reaches_cell(filled, count, f as nat, s as nat);
    }
    lemma_search_idempotent(evaluator, context, policy, origin);
}

} // verus!
