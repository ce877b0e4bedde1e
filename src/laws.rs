//! Properties of the step rule and of the facade that hold for every input.

use vstd::prelude::*;

use crate::cells::Coord;
use crate::game::{lemma_committed_wf, GameModel, PendingAction};
use crate::rule::{live_neighbors, next_generation};

verus! {

/// A live cell with fewer than two or more than three live neighbours
/// dies; a dead cell with exactly three live neighbours is born; a live
/// cell with two or three survives.
pub proof fn lemma_rule(s: Set<Coord>, c: Coord)
    ensures
        s.contains(c) && (live_neighbors(s, c) < 2 || live_neighbors(s, c) > 3)
            ==> !next_generation(s).contains(c),
        !s.contains(c) && live_neighbors(s, c) == 3 ==> next_generation(s).contains(c),
        s.contains(c) && 2 <= live_neighbors(s, c) <= 3 ==> next_generation(s).contains(c),
{
}

/// Applying a queue with one more input at its end is applying the queue,
/// then that input.
pub proof fn lemma_apply_all_push<P>(m: GameModel<P>, q: Seq<PendingAction<P>>, a: PendingAction<P>)
    ensures
        m.apply_all(q.push(a)) == m.apply_all(q).apply(a),
    decreases q.len(),
{
    if q.len() == 0 {
        assert(q.push(a).drop_first() =~= Seq::<PendingAction<P>>::empty());
        assert(q.push(a)[0] == a);
        assert(m.apply(a).apply_all(Seq::empty()) == m.apply(a));
    } else {
        assert(q.push(a).drop_first() =~= q.drop_first().push(a));
        assert(q.push(a)[0] == q[0]);
        lemma_apply_all_push(m.apply(q[0]), q.drop_first(), a);
    }
}

/// Clearing twice in a row leaves the state that clearing once leaves, with
/// the population history `[0]`. While a step is outstanding both clears
/// wait in the queue, and the state once the step's result is taken in is
/// again that of a single clear.
pub proof fn lemma_clear_idempotent<P>(m: GameModel<P>, next: Set<Coord>)
    requires
        m.wf(),
    ensures
        !m.busy ==> m.submit(PendingAction::Clear).submit(PendingAction::Clear) == m.submit(
            PendingAction::Clear,
        ),
        !m.busy ==> m.submit(PendingAction::Clear).history == seq![0usize],
        m.busy ==> m.submit(PendingAction::Clear).submit(PendingAction::Clear).committed(next)
            == m.submit(PendingAction::Clear).committed(next),
        m.busy ==> m.submit(PendingAction::Clear).committed(next).history == seq![0usize],
{
    let once = m.submit(PendingAction::Clear);
    if !m.busy {
        assert(once.cleared() =~= once);
    } else {
        let twice = once.submit(PendingAction::Clear);
        let base = m.with_result(next);
        assert(GameModel { queue: Seq::empty(), ..once } =~= GameModel { queue: Seq::empty(), ..m });
        lemma_apply_all_push(base, m.queue, PendingAction::Clear);
        lemma_apply_all_push(base, m.queue.push(PendingAction::Clear), PendingAction::Clear);
        assert(twice.committed(next) == base.apply_all(m.queue).cleared().cleared());
        assert(once.committed(next) == base.apply_all(m.queue).cleared());
        assert(base.apply_all(m.queue).cleared().cleared() =~= base.apply_all(m.queue).cleared());
    }
}

/// While a step is outstanding, a request for another changes nothing and
/// hands nothing to the worker: at most one step is ever outstanding. Once
/// a request has handed a snapshot out, the next request is such a no-op.
pub proof fn lemma_single_flight<P>(m: GameModel<P>)
    requires
        m.wf(),
    ensures
        m.busy ==> m.stepped() == m && !m.dispatches(),
        m.dispatches() ==> m.stepped().busy && m.stepped().stepped() == m.stepped()
            && !m.stepped().dispatches(),
{
}

/// Inputs submitted while a step is outstanding are applied, once its
/// result is taken in, in the order they were submitted, after the inputs
/// that were already waiting.
pub proof fn lemma_deferred_order<P>(
    m: GameModel<P>,
    a1: PendingAction<P>,
    a2: PendingAction<P>,
    a3: PendingAction<P>,
    next: Set<Coord>,
)
    requires
        m.wf(),
        m.busy,
    ensures
        m.submit(a1).submit(a2).submit(a3).committed(next) == m.committed(next).apply(a1).apply(
            a2,
        ).apply(a3),
{
    let base = m.with_result(next);
    let s3 = m.submit(a1).submit(a2).submit(a3);
    assert(GameModel { queue: Seq::empty(), ..s3 } =~= GameModel { queue: Seq::empty(), ..m });
    lemma_apply_all_push(base, m.queue, a1);
    lemma_apply_all_push(base, m.queue.push(a1), a2);
    lemma_apply_all_push(base, m.queue.push(a1).push(a2), a3);
}

/// Toggling one cell twice while a step is outstanding leaves, once the
/// result is taken in, the cells as if no toggle had happened, and two more
/// entries in the toggle history.
pub proof fn lemma_toggle_twice_deferred<P>(m: GameModel<P>, c: Coord, next: Set<Coord>)
    requires
        m.wf(),
        m.busy,
    ensures
        m.submit(PendingAction::Toggle(c)).submit(PendingAction::Toggle(c)).committed(next).cells
            == m.committed(next).cells,
        m.submit(PendingAction::Toggle(c)).submit(PendingAction::Toggle(c)).committed(next).toggles
            == m.committed(next).toggles.push(m.committed(next).step_count).push(
            m.committed(next).step_count,
        ),
{
    let t = PendingAction::<P>::Toggle(c);
    let s2 = m.submit(t).submit(t);
    let base = m.with_result(next);
    assert(GameModel { queue: Seq::empty(), ..s2 } =~= GameModel { queue: Seq::empty(), ..m });
    lemma_apply_all_push(base, m.queue, t);
    lemma_apply_all_push(base, m.queue.push(t), t);
    let done = m.committed(next);
    if done.cells.contains(c) {
        assert(done.cells.remove(c).insert(c) =~= done.cells);
    } else {
        assert(done.cells.insert(c).remove(c) =~= done.cells);
    }
}

/// The two ways of running steps agree: handing the snapshot to a worker
/// and taking back the next generation of it leaves the state that running
/// the step inline leaves.
pub proof fn lemma_strategies_agree<P>(m: GameModel<P>)
    requires
        m.wf(),
        !m.busy,
        !m.inline,
    ensures
        m.stepped().committed(next_generation(m.cells)) == (GameModel {
            inline: false,
            ..(GameModel { inline: true, ..m }).stepped()
        }),
{
    let i = GameModel { inline: true, ..m };
    let next = next_generation(m.cells);
    let b = m.with_result(next);
    assert(m.queue =~= Seq::<PendingAction<P>>::empty());
    assert(b.apply_all(m.queue) == b);
    let bi = GameModel { inline: true, ..b };
    assert(bi.apply_all(i.queue) == bi);
    assert(m.stepped().committed(next) =~= b);
    assert(i.stepped() =~= bi);
}

/// The results of successive steps taken in, first to last.
pub open spec fn committed_all<P>(m: GameModel<P>, results: Seq<Set<Coord>>) -> GameModel<P>
    decreases results.len(),
{
    if results.len() == 0 {
        m
    } else {
        committed_all(m.committed(results[0]), results.drop_first())
    }
}

/// Inputs never lengthen the population history by more than resetting it
/// to its seed.
proof fn lemma_apply_all_history<P>(m: GameModel<P>, q: Seq<PendingAction<P>>)
    ensures
        m.apply_all(q).history.len() <= m.history.len() || m.apply_all(q).history.len() == 1,
    decreases q.len(),
{
    if q.len() > 0 {
        lemma_apply_all_history(m.apply(q[0]), q.drop_first());
    }
}

/// Over any sequence of completed steps, the population history stays one
/// entry longer than the step count after each of them.
pub proof fn lemma_history_tracks_all_steps<P>(m: GameModel<P>, results: Seq<Set<Coord>>)
    requires
        m.wf(),
        m.history.len() + results.len() < usize::MAX,
    ensures
        committed_all(m, results).history.len() == committed_all(m, results).step_count + 1,
        committed_all(m, results).history.len() <= m.history.len() + results.len(),
    decreases results.len(),
{
    if results.len() > 0 {
        let next = results[0];
        lemma_committed_wf(m, next);
        let base = m.with_result(next);
        lemma_apply_all_history(base, m.queue);
        lemma_history_tracks_all_steps(m.committed(next), results.drop_first());
    }
}

} // verus!
