//! The step rule: the next generation of a set of live cells.
//!
//! Cells live on the grid of `i32` coordinates. A cell is born when exactly
//! three of its eight neighbours (diagonals included) are alive, and a live
//! cell survives with two or three live neighbours. Positions beyond the
//! `i32` range cannot hold a cell, so births there do not happen.

use vstd::prelude::*;

use crate::cells::{
    empty_set, set_contains, set_insert, set_items, tally_entries, tally_get, tally_insert,
    Coord, LiveSet, Tally,
};

verus! {

/// Whether `(x, y)` is a position of the `i32` grid.
pub open spec fn on_grid(x: int, y: int) -> bool {
    i32::MIN <= x <= i32::MAX && i32::MIN <= y <= i32::MAX
}

/// Whether the position `(x, y)` holds a live cell of `s`.
pub open spec fn live_at(s: Set<Coord>, x: int, y: int) -> bool {
    on_grid(x, y) && s.contains((x as i32, y as i32))
}

/// 1 for a live position, 0 otherwise.
pub open spec fn live_count_at(s: Set<Coord>, x: int, y: int) -> int {
    if live_at(s, x, y) {
        1
    } else {
        0
    }
}

/// The number of live cells among the eight neighbours of `c`.
pub open spec fn live_neighbors(s: Set<Coord>, c: Coord) -> int {
    let x = c.0 as int;
    let y = c.1 as int;
    live_count_at(s, x - 1, y - 1) + live_count_at(s, x - 1, y) + live_count_at(s, x - 1, y + 1)
        + live_count_at(s, x, y - 1) + live_count_at(s, x, y + 1) + live_count_at(s, x + 1, y - 1)
        + live_count_at(s, x + 1, y) + live_count_at(s, x + 1, y + 1)
}

/// The rule for one cell: alive in the next generation given its live
/// neighbour count and whether it is alive now.
pub open spec fn survives(count: int, alive: bool) -> bool {
    count == 3 || (count == 2 && alive)
}

/// The next generation of `s`.
pub open spec fn next_generation(s: Set<Coord>) -> Set<Coord> {
    Set::new(|c: Coord| survives(live_neighbors(s, c), s.contains(c)))
}

/// Whether `a` and `b` are distinct cells at most one step apart on each axis.
pub open spec fn adjacent(a: Coord, b: Coord) -> bool {
    &&& a != b
    &&& -1 <= a.0 - b.0 <= 1
    &&& -1 <= a.1 - b.1 <= 1
}

/// The count stored for `k` in a tally, 0 when absent.
pub open spec fn tally_of(m: Map<Coord, u32>, k: Coord) -> int {
    if m.contains_key(k) {
        m[k] as int
    } else {
        0
    }
}

/// `m` holds, for every cell with at least one live neighbour in `s`, that
/// neighbour count, and no other key.
pub open spec fn tallies(m: Map<Coord, u32>, s: Set<Coord>) -> bool {
    &&& forall|k: Coord| #[trigger] tally_of(m, k) == live_neighbors(s, k)
    &&& forall|k: Coord| #[trigger] m.contains_key(k) ==> m[k] > 0
}

/// Adding a cell that was not alive raises the neighbour count of exactly
/// its eight neighbours, by one.
pub proof fn lemma_neighbors_insert(s: Set<Coord>, p: Coord, c: Coord)
    requires
        !s.contains(p),
    ensures
        live_neighbors(s.insert(p), c) == live_neighbors(s, c) + (if adjacent(p, c) {
            1int
        } else {
            0int
        }),
{
}

/// The rule applied to one tallied cell.
pub fn alive_rules(count: u32, prev: &LiveSet, coords: &Coord) -> (r: bool)
    ensures
        r == survives(count as int, prev@.contains(*coords)),
{
    count == 3 || (count == 2 && set_contains(prev, coords))
}

/// Counts one more live neighbour for the position `(x, y)`, if it is on the
/// grid.
fn bump(m: &mut Tally, x: i64, y: i64)
    requires
        forall|k: Coord| #[trigger] tally_of(old(m)@, k) < 100,
        forall|k: Coord| #[trigger] old(m)@.contains_key(k) ==> old(m)@[k] > 0,
    ensures
        forall|k: Coord|
            #[trigger] tally_of(final(m)@, k) == tally_of(old(m)@, k) + (if k.0 == x && k.1 == y {
                1int
            } else {
                0int
            }),
        forall|k: Coord| #[trigger] final(m)@.contains_key(k) ==> final(m)@[k] > 0,
{
    if i32::MIN as i64 <= x && x <= i32::MAX as i64 && i32::MIN as i64 <= y && y
        <= i32::MAX as i64 {
        let k: Coord = (x as i32, y as i32);
        assert(tally_of(m@, k) < 100);
        match tally_get(m, &k) {
            Some(c) => tally_insert(m, k, c + 1),
            None => tally_insert(m, k, 1),
        }
    }
}

/// Adds the live cell `c` to a tally of the cells `s`: each of its
/// neighbours on the grid counts one more live neighbour.
fn tally_neighbors(m: &mut Tally, c: Coord, Ghost(s): Ghost<Set<Coord>>)
    requires
        tallies(old(m)@, s),
        !s.contains(c),
    ensures
        tallies(final(m)@, s.insert(c)),
{
    let x = c.0 as i64;
    let y = c.1 as i64;
    let ghost m0 = m@;
    assert forall|k: Coord| #[trigger] tally_of(m0, k) <= 8 by {}
    bump(m, x - 1, y - 1);
    bump(m, x - 1, y);
    bump(m, x - 1, y + 1);
    bump(m, x, y - 1);
    bump(m, x, y + 1);
    bump(m, x + 1, y - 1);
    bump(m, x + 1, y);
    bump(m, x + 1, y + 1);
    assert forall|k: Coord| #[trigger] tally_of(m@, k) == live_neighbors(s.insert(c), k) by {
        lemma_neighbors_insert(s, c, k);
    }
}

/// The next generation of the live cells `prev`.
///
/// Every live cell adds one to the tally of each of its neighbours; then the
/// tallied cells that meet the rule make up the result. The work is linear
/// in the number of live cells, whatever their spread over the grid.
pub fn compute_step(prev: &LiveSet) -> (next: LiveSet)
    ensures
        next@ == next_generation(prev@),
{
    let cells = set_items(prev);
    let mut tally = Tally::default();
    let n = cells.len();
    let mut i: usize = 0;
    proof {
        assert forall|k: Coord| #[trigger]
            tally_of(tally@, k) == live_neighbors(cells@.subrange(0, 0).to_set(), k) by {
            assert(cells@.subrange(0, 0).to_set() =~= Set::<Coord>::empty());
        }
    }
    while i < n
        invariant
            n == cells@.len(),
            0 <= i <= n,
            cells@.no_duplicates(),
            tallies(tally@, cells@.subrange(0, i as int).to_set()),
        decreases n - i,
    {
        let c = cells[i];
        let ghost done = cells@.subrange(0, i as int);
        proof {
            assert(!done.to_set().contains(c)) by {
                if done.to_set().contains(c) {
                    let j = choose|j: int| 0 <= j < done.len() && done[j] == c;
                    assert(cells@[j] == cells@[i as int]);
                }
            }
            assert(cells@.subrange(0, i + 1).to_set() =~= done.to_set().insert(c)) by {
                assert(cells@.subrange(0, i + 1) =~= done.push(c));
                done.lemma_push_to_set_commute(c);
            }
        }
        tally_neighbors(&mut tally, c, Ghost(done.to_set()));
        i += 1;
    }
    proof {
        assert(cells@.subrange(0, n as int) =~= cells@);
    }
    let entries = tally_entries(&tally);
    let mut next = empty_set();
    let len = entries.len();
    let mut j: usize = 0;
    while j < len
        invariant
            len == entries@.len(),
            0 <= j <= len,
            tallies(tally@, prev@),
            forall|i: int|
                0 <= i < entries@.len() ==> tally@.contains_key(#[trigger] entries@[i].0)
                    && tally@[entries@[i].0] == entries@[i].1,
            forall|c: Coord|
                next@.contains(c) <==> exists|i: int|
                    0 <= i < j && #[trigger] entries@[i].0 == c && survives(
                        entries@[i].1 as int,
                        prev@.contains(c),
                    ),
        decreases len - j,
    {
        let (coords, count) = entries[j];
        if alive_rules(count, prev, &coords) {
            set_insert(&mut next, coords);
        }
        j += 1;
    }
    proof {
        assert forall|c: Coord| next@.contains(c) <==> next_generation(prev@).contains(c) by {
            if next_generation(prev@).contains(c) {
                assert(tally_of(tally@, c) == live_neighbors(prev@, c));
                assert(tally@.contains_key(c));
                let i = choose|i: int| 0 <= i < entries@.len() && #[trigger] entries@[i].0 == c;
                assert(entries@[i].1 == tally@[c]);
            }
            if next@.contains(c) {
                let i = choose|i: int|
                    0 <= i < j && #[trigger] entries@[i].0 == c && survives(
                        entries@[i].1 as int,
                        prev@.contains(c),
                    );
                assert(tally_of(tally@, c) == live_neighbors(prev@, c));
            }
        }
        assert(next@ =~= next_generation(prev@));
    }
    next
}

} // verus!
