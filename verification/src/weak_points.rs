//! Weak points in reality: finding the nearest one that has not collapsed.

use crate::anchors::{count_true, distance_sq, distance_sq_fits, squared_distance};
use crate::dimension::ChunkPos;
use vstd::prelude::*;

verus! {

/// `i` is the first index, among the weak points that have not collapsed,
/// whose position is nearest to `pos`.
pub open spec fn is_nearest_active(positions: Seq<ChunkPos>, collapsed: Seq<bool>, pos: ChunkPos, i: int) -> bool {
    &&& 0 <= i < positions.len()
    &&& !collapsed[i]
    &&& forall|j: int| 0 <= j < positions.len() && !collapsed[j] ==> distance_sq(positions[i], pos) <= distance_sq(#[trigger] positions[j], pos)
    &&& forall|j: int| 0 <= j < i && !collapsed[j] ==> distance_sq(positions[i], pos) < distance_sq(#[trigger] positions[j], pos)
}

/// Find the weak point nearest to `pos` among those that have not collapsed
/// (`collapsed[i]` tells whether the `i`-th has); among equally near ones the
/// first wins. None when every weak point has collapsed.
pub fn nearest_active_index(positions: &Vec<ChunkPos>, collapsed: &Vec<bool>, pos: ChunkPos) -> (r: Option<usize>)
    requires
        positions@.len() == collapsed@.len(),
        forall|i: int| 0 <= i < positions@.len() && !collapsed@[i] ==> distance_sq_fits(#[trigger] positions@[i], pos),
    ensures
        r is None <==> (forall|i: int| 0 <= i < collapsed@.len() ==> #[trigger] collapsed@[i]),
        r matches Some(i) ==> is_nearest_active(positions@, collapsed@, pos, i as int),
{
    let mut best: Option<usize> = None;
    let mut best_d: i32 = 0;
    let mut i: usize = 0;
    while i < positions.len()
        invariant
            0 <= i <= positions@.len(),
            positions@.len() == collapsed@.len(),
            forall|k: int| 0 <= k < positions@.len() && !collapsed@[k] ==> distance_sq_fits(#[trigger] positions@[k], pos),
            best is None <==> (forall|k: int| 0 <= k < i ==> #[trigger] collapsed@[k]),
            best matches Some(b) ==> {
                &&& b < i
                &&& !collapsed@[b as int]
                &&& best_d == distance_sq(positions@[b as int], pos)
                &&& forall|j: int| 0 <= j < i && !collapsed@[j] ==> best_d <= distance_sq(#[trigger] positions@[j], pos)
                &&& forall|j: int| 0 <= j < b && !collapsed@[j] ==> best_d < distance_sq(#[trigger] positions@[j], pos)
            },
        decreases positions@.len() - i,
    {
        if !collapsed[i] {
            let d = squared_distance(positions[i], pos);
            match best {
                None => {
                    best = Some(i);
                    best_d = d;
                },
                Some(_) => {
                    if d < best_d {
                        best = Some(i);
                        best_d = d;
                    }
                },
            }
        }
        i += 1;
    }
    best
}

/// Count the weak points that have not collapsed (`collapsed[i]` tells
/// whether the `i`-th has).
pub fn active_weak_point_count(collapsed: &Vec<bool>) -> (n: usize)
    ensures
        n == count_true(collapsed@.map_values(|c: bool| !c)),
{
    let ghost flags = collapsed@.map_values(|c: bool| !c);
    let mut n: usize = 0;
    let mut i: usize = 0;
    while i < collapsed.len()
        invariant
            0 <= i <= collapsed@.len(),
            flags == collapsed@.map_values(|c: bool| !c),
            n == count_true(flags.take(i as int)),
            n <= i,
        decreases collapsed@.len() - i,
    {
        assert(flags.take(i + 1).drop_last() =~= flags.take(i as int));
        if !collapsed[i] {
            n += 1;
        }
        i += 1;
    }
    assert(flags.take(collapsed@.len() as int) =~= flags);
    n
}

/// Whether the weak point at `index` can be reinforced: it exists and has
/// not collapsed.
pub fn can_reinforce(collapsed: &Vec<bool>, index: usize) -> (b: bool)
    ensures
        b == (index < collapsed@.len() && !collapsed@[index as int]),
{
    index < collapsed.len() && !collapsed[index]
}

} // verus!
