//! Dimensional anchors: their tiers and the reach of their protection.

use crate::dimension::ChunkPos;
use vstd::prelude::*;

verus! {

/// Tiers of dimensional anchors with increasing power.
#[derive(Clone, Copy, Debug, PartialEq, Eq, Hash, Structural)]
pub enum AnchorTier {
    /// Basic anchor - small radius, short duration.
    Basic,
    /// Standard anchor - medium radius and duration.
    Standard,
    /// Military-grade anchor - large radius, long duration.
    Military,
}

/// Protection radius of a tier, in chunks.
pub open spec fn tier_radius(t: AnchorTier) -> u32 {
    match t {
        AnchorTier::Basic => 3,
        AnchorTier::Standard => 5,
        AnchorTier::Military => 7,
    }
}

/// The display name of a tier.
pub open spec fn tier_name(t: AnchorTier) -> Seq<char> {
    match t {
        AnchorTier::Basic => "Basic"@,
        AnchorTier::Standard => "Standard"@,
        AnchorTier::Military => "Military"@,
    }
}

impl AnchorTier {
    /// Get the protection radius in chunks.
    pub fn radius(&self) -> (r: u32)
        ensures
            r == tier_radius(*self),
    {
        match self {
            AnchorTier::Basic => 3,
            AnchorTier::Standard => 5,
            AnchorTier::Military => 7,
        }
    }

    /// Get all tier variants.
    pub fn all() -> (v: Vec<AnchorTier>)
        ensures
            v@ == seq![AnchorTier::Basic, AnchorTier::Standard, AnchorTier::Military],
    {
        vec![AnchorTier::Basic, AnchorTier::Standard, AnchorTier::Military]
    }

    /// The display name ("Basic", "Standard", "Military").
    pub fn name(&self) -> (s: &'static str)
        ensures
            s@ == tier_name(*self),
    {
        match self {
            AnchorTier::Basic => "Basic",
            AnchorTier::Standard => "Standard",
            AnchorTier::Military => "Military",
        }
    }
}

/// The squared Euclidean distance between two chunk positions.
pub open spec fn distance_sq(a: ChunkPos, b: ChunkPos) -> int {
    (a.x - b.x) * (a.x - b.x) + (a.y - b.y) * (a.y - b.y) + (a.z - b.z) * (a.z - b.z)
}

/// Whether the squared distance between two positions can be computed in
/// `i32` arithmetic: each difference and the sum of squares fit.
pub open spec fn distance_sq_fits(a: ChunkPos, b: ChunkPos) -> bool {
    &&& i32::MIN <= a.x - b.x <= i32::MAX
    &&& i32::MIN <= a.y - b.y <= i32::MAX
    &&& i32::MIN <= a.z - b.z <= i32::MAX
    &&& distance_sq(a, b) <= i32::MAX
}

/// The squared distance between two positions, in `i32` arithmetic.
pub fn squared_distance(a: ChunkPos, b: ChunkPos) -> (d: i32)
    requires
        distance_sq_fits(a, b),
    ensures
        d == distance_sq(a, b),
{
    let dx = a.x - b.x;
    let dy = a.y - b.y;
    let dz = a.z - b.z;
    proof {
        assert(0 <= dx * dx) by (nonlinear_arith);
        assert(0 <= dy * dy) by (nonlinear_arith);
        assert(0 <= dz * dz) by (nonlinear_arith);
    }
    dx * dx + dy * dy + dz * dz
}

/// Whether an anchor at `center` with protection radius `radius` covers the
/// chunk at `chunk`: it must be active, and the chunk within the radius
/// (squared distance at most the squared radius).
pub fn anchor_covers(active: bool, center: ChunkPos, radius: u32, chunk: ChunkPos) -> (b: bool)
    requires
        active ==> distance_sq_fits(chunk, center),
        radius <= 46340,
    ensures
        b == (active && distance_sq(chunk, center) <= radius * radius),
{
    if !active {
        return false;
    }
    let distance_sq = squared_distance(chunk, center);
    let r = radius as i32;
    proof {
        assert(r * r <= 46340 * 46340) by (nonlinear_arith)
            requires
                0 <= r <= 46340,
        ;
    }
    distance_sq <= r * r
}

/// What decides whether an anchor protects a chunk: whether it is active,
/// where it stands and its protection radius in chunks.
#[derive(Clone, Copy, Debug, PartialEq, Eq, Structural)]
pub struct AnchorReach {
    /// Whether the anchor is active.
    pub active: bool,
    /// World position of the anchor.
    pub center: ChunkPos,
    /// Protection radius in chunks.
    pub radius: u32,
}

/// Whether the anchor described by `a` protects `chunk`.
pub open spec fn reach_covers(a: AnchorReach, chunk: ChunkPos) -> bool {
    a.active && distance_sq(chunk, a.center) <= a.radius * a.radius
}

/// The protection test of `a` on `chunk` can be computed without overflow.
pub open spec fn reach_computable(a: AnchorReach, chunk: ChunkPos) -> bool {
    &&& a.active ==> distance_sq_fits(chunk, a.center)
    &&& a.radius <= 46340
}

/// Whether some anchor protects `chunk`.
pub fn chunk_anchored(anchors: &Vec<AnchorReach>, chunk: ChunkPos) -> (b: bool)
    requires
        forall|i: int| 0 <= i < anchors@.len() ==> reach_computable(#[trigger] anchors@[i], chunk),
    ensures
        b == exists|i: int| 0 <= i < anchors@.len() && reach_covers(#[trigger] anchors@[i], chunk),
{
    let mut i: usize = 0;
    while i < anchors.len()
        invariant
            0 <= i <= anchors@.len(),
            forall|k: int| 0 <= k < anchors@.len() ==> reach_computable(#[trigger] anchors@[k], chunk),
            forall|k: int| 0 <= k < i ==> !reach_covers(#[trigger] anchors@[k], chunk),
        decreases anchors@.len() - i,
    {
        let a = anchors[i];
        if anchor_covers(a.active, a.center, a.radius, chunk) {
            assert(reach_covers(anchors@[i as int], chunk));
            return true;
        }
        i += 1;
    }
    false
}

/// The indices, in order, of the anchors that protect `chunk`.
pub fn anchors_covering(anchors: &Vec<AnchorReach>, chunk: ChunkPos) -> (v: Vec<usize>)
    requires
        forall|i: int| 0 <= i < anchors@.len() ==> reach_computable(#[trigger] anchors@[i], chunk),
    ensures
        forall|k: int| 0 <= k < v@.len() ==> #[trigger] v@[k] < anchors@.len(),
        forall|k: int, l: int| 0 <= k < l < v@.len() ==> #[trigger] v@[k] < #[trigger] v@[l],
        forall|i: int| 0 <= i < anchors@.len() ==> (reach_covers(#[trigger] anchors@[i], chunk) <==> v@.contains(i as usize)),
{
    let mut v: Vec<usize> = Vec::new();
    let mut i: usize = 0;
    while i < anchors.len()
        invariant
            0 <= i <= anchors@.len(),
            forall|k: int| 0 <= k < anchors@.len() ==> reach_computable(#[trigger] anchors@[k], chunk),
            forall|k: int| 0 <= k < v@.len() ==> #[trigger] v@[k] < i,
            forall|k: int, l: int| 0 <= k < l < v@.len() ==> #[trigger] v@[k] < #[trigger] v@[l],
            forall|j: int| 0 <= j < i ==> (reach_covers(#[trigger] anchors@[j], chunk) <==> v@.contains(j as usize)),
        decreases anchors@.len() - i,
    {
        let a = anchors[i];
        let ghost before = v@;
        if anchor_covers(a.active, a.center, a.radius, chunk) {
            v.push(i);
            assert(v@[v@.len() - 1] == i);
        }
        assert forall|j: int| 0 <= j < i + 1 implies (reach_covers(#[trigger] anchors@[j], chunk) <==> v@.contains(j as usize)) by {
            if j < i {
                if before.contains(j as usize) {
                    let k = choose|k: int| 0 <= k < before.len() && before[k] == j as usize;
                    assert(v@[k] == j as usize);
                }
                if v@.contains(j as usize) {
                    let k = choose|k: int| 0 <= k < v@.len() && v@[k] == j as usize;
                    if k < before.len() {
                        assert(before[k] == j as usize);
                    }
                }
            } else {
                if v@.contains(j as usize) {
                    let k = choose|k: int| 0 <= k < v@.len() && v@[k] == j as usize;
                    if k < before.len() {
                        assert(before[k] < i);
                    }
                }
            }
        }
        i += 1;
    }
    v
}

/// The number of `true` entries of `flags`.
pub open spec fn count_true(flags: Seq<bool>) -> nat
    decreases flags.len(),
{
    if flags.len() == 0 {
        0
    } else {
        count_true(flags.drop_last()) + if flags.last() { 1nat } else { 0nat }
    }
}

/// Count the active anchors.
pub fn active_anchor_count(anchors: &Vec<AnchorReach>) -> (n: usize)
    ensures
        n == count_true(anchors@.map_values(|a: AnchorReach| a.active)),
{
    let ghost flags = anchors@.map_values(|a: AnchorReach| a.active);
    let mut n: usize = 0;
    let mut i: usize = 0;
    while i < anchors.len()
        invariant
            0 <= i <= anchors@.len(),
            flags == anchors@.map_values(|a: AnchorReach| a.active),
            n == count_true(flags.take(i as int)),
            n <= i,
        decreases anchors@.len() - i,
    {
        assert(flags.take(i + 1).drop_last() =~= flags.take(i as int));
        if anchors[i].active {
            n += 1;
        }
        i += 1;
    }
    assert(flags.take(anchors@.len() as int) =~= flags);
    n
}

/// A chunk is anchored exactly when some anchor's index is among those that
/// cover it.
pub proof fn law_anchored_iff_covered(anchors: Seq<AnchorReach>, chunk: ChunkPos, covering: Seq<usize>)
    requires
        forall|i: int| 0 <= i < anchors.len() ==> (reach_covers(#[trigger] anchors[i], chunk) <==> covering.contains(i as usize)),
        forall|k: int| 0 <= k < covering.len() ==> #[trigger] covering[k] < anchors.len(),
    ensures
        (exists|i: int| 0 <= i < anchors.len() && reach_covers(#[trigger] anchors[i], chunk)) <==> covering.len() > 0,
{
    if covering.len() > 0 {
        let i = covering[0] as int;
        assert(covering.contains(i as usize));
        assert(reach_covers(anchors[i], chunk));
    }
    if exists|i: int| 0 <= i < anchors.len() && reach_covers(#[trigger] anchors[i], chunk) {
        let i = choose|i: int| 0 <= i < anchors.len() && reach_covers(#[trigger] anchors[i], chunk);
        assert(covering.contains(i as usize));
    }
}

} // verus!
