//! Live-cell sets and neighbour tallies, kept in the hash collections of
//! `rustc_hash`. Every operation the library performs on them goes through
//! one of the small wrappers below, whose contracts are stated over the
//! `Set` / `Map` views that vstd gives std's hash collections.

use vstd::prelude::*;

use rustc_hash::{FxHashMap, FxHashSet};

verus! {

/// A grid coordinate, `(x, y)`.
pub type Coord = (i32, i32);

/// The set of living cells.
pub type LiveSet = FxHashSet<Coord>;

/// Neighbour counts accumulated per candidate cell.
pub type Tally = FxHashMap<Coord, u32>;

/// `rustc_hash::FxBuildHasher`, the hasher of the sets and maps above,
/// made known to Verus as an opaque type.
#[verifier::external_type_specification]
#[verifier::external_body]
pub struct ExFxBuildHasher(rustc_hash::FxBuildHasher);

/// Relies on `HashSet::contains`: true iff `c` is in the set.
#[verifier::external_body]
pub(crate) fn set_contains(s: &LiveSet, c: &Coord) -> (r: bool)
    ensures
        r == s@.contains(*c),
{
    s.contains(c)
}

/// Relies on `HashSet::insert`: afterwards the set holds its old items and `c`.
#[verifier::external_body]
pub(crate) fn set_insert(s: &mut LiveSet, c: Coord)
    ensures
        final(s)@ == old(s)@.insert(c),
{
    s.insert(c);
}

/// Relies on `HashSet::remove`: afterwards the set holds its old items but `c`.
#[verifier::external_body]
pub(crate) fn set_remove(s: &mut LiveSet, c: &Coord)
    ensures
        final(s)@ == old(s)@.remove(*c),
{
    s.remove(c);
}

/// Relies on `HashSet::len`: the number of items in the set.
#[verifier::external_body]
pub(crate) fn set_len(s: &LiveSet) -> (r: usize)
    ensures
        r == s@.len(),
{
    s.len()
}

/// Relies on `HashSet`'s `Clone`: the copy holds the same items.
#[verifier::external_body]
pub(crate) fn set_clone(s: &LiveSet) -> (r: LiveSet)
    ensures
        r@ == s@,
{
    s.clone()
}

/// Relies on `HashSet::iter`: it visits every item of the set exactly once,
/// in an unspecified order.
#[verifier::external_body]
pub(crate) fn set_items(s: &LiveSet) -> (r: Vec<Coord>)
    ensures
        r@.to_set() == s@,
        r@.no_duplicates(),
{
    s.iter().copied().collect()
}

/// Relies on `HashMap::get`: the value stored under `k`, if any.
#[verifier::external_body]
pub(crate) fn tally_get(m: &Tally, k: &Coord) -> (r: Option<u32>)
    ensures
        r == (if m@.contains_key(*k) { Some(m@[*k]) } else { None::<u32> }),
{
    m.get(k).copied()
}

/// Relies on `HashMap::insert`: afterwards `k` maps to `v`, other keys unchanged.
#[verifier::external_body]
pub(crate) fn tally_insert(m: &mut Tally, k: Coord, v: u32)
    ensures
        final(m)@ == old(m)@.insert(k, v),
{
    m.insert(k, v);
}

/// Relies on `HashMap::iter`: it visits every key of the map, each with the
/// value stored under it.
#[verifier::external_body]
pub(crate) fn tally_entries(m: &Tally) -> (r: Vec<(Coord, u32)>)
    ensures
        forall|i: int|
            0 <= i < r@.len() ==> m@.contains_key(#[trigger] r@[i].0) && m@[r@[i].0] == r@[i].1,
        forall|k: Coord| m@.contains_key(k) ==> exists|i: int| 0 <= i < r@.len() && #[trigger] r@[i].0 == k,
{
    m.iter().map(|(k, v)| (*k, *v)).collect()
}

/// An empty set of cells.
pub fn empty_set() -> (r: LiveSet)
    ensures
        r@ == Set::<Coord>::empty(),
{
    LiveSet::default()
}

} // verus!
