//! The dimensions of reality and the tracking of which dimension each chunk
//! of the world belongs to.

use std::collections::HashMap;
use vstd::prelude::*;
use vstd::std_specs::iter::IteratorSpec;

verus! {

broadcast use vstd::std_specs::hash::group_hash_axioms;

/// The four dimensions of reality in the game world.
#[derive(Clone, Copy, Debug, PartialEq, Eq, Hash, Structural)]
pub enum Dimension {
    /// The normal, stable dimension where players start.
    Prime,
    /// A mirror dimension with altered physics and temperature.
    Inverted,
    /// A cold, dark, low-gravity dimension.
    Void,
    /// A nexus dimension connecting all others with high gravity.
    Nexus,
}

impl Default for Dimension {
    /// The default dimension is Prime.
    fn default() -> (d: Dimension)
        ensures
            d == Dimension::Prime,
    {
        Dimension::Prime
    }
}

/// The name under which a dimension is displayed.
pub open spec fn dimension_name(d: Dimension) -> Seq<char> {
    match d {
        Dimension::Prime => "Prime"@,
        Dimension::Inverted => "Inverted"@,
        Dimension::Void => "Void"@,
        Dimension::Nexus => "Nexus"@,
    }
}

/// Every dimension, in declaration order.
pub open spec fn all_dimensions() -> Seq<Dimension> {
    seq![Dimension::Prime, Dimension::Inverted, Dimension::Void, Dimension::Nexus]
}

impl Dimension {
    /// Get all dimension variants.
    pub fn all() -> (v: Vec<Dimension>)
        ensures
            v@ == all_dimensions(),
    {
        vec![Dimension::Prime, Dimension::Inverted, Dimension::Void, Dimension::Nexus]
    }

    /// The display name of the dimension ("Prime", "Inverted", "Void", "Nexus").
    pub fn name(&self) -> (s: &'static str)
        ensures
            s@ == dimension_name(*self),
    {
        match self {
            Dimension::Prime => "Prime",
            Dimension::Inverted => "Inverted",
            Dimension::Void => "Void",
            Dimension::Nexus => "Nexus",
        }
    }
}

/// An integer position of a chunk in the world (x, y, z).
#[derive(Clone, Copy, Debug, PartialEq, Eq, Hash, Structural)]
pub struct ChunkPos {
    pub x: i32,
    pub y: i32,
    pub z: i32,
}

impl ChunkPos {
    /// Create a chunk position from its coordinates.
    pub fn new(x: i32, y: i32, z: i32) -> (p: ChunkPos)
        ensures
            p.x == x,
            p.y == y,
            p.z == z,
    {
        ChunkPos { x, y, z }
    }

    /// Whether adding `o` to this position stays within the `i32` range.
    pub open spec fn can_add(self, o: ChunkPos) -> bool {
        &&& i32::MIN <= self.x + o.x <= i32::MAX
        &&& i32::MIN <= self.y + o.y <= i32::MAX
        &&& i32::MIN <= self.z + o.z <= i32::MAX
    }

    /// Component-wise sum of two positions.
    pub open spec fn spec_add(self, o: ChunkPos) -> ChunkPos {
        ChunkPos {
            x: (self.x + o.x) as i32,
            y: (self.y + o.y) as i32,
            z: (self.z + o.z) as i32,
        }
    }

    /// Component-wise sum of two positions.
    pub fn add(self, o: ChunkPos) -> (r: ChunkPos)
        requires
            self.can_add(o),
        ensures
            r == self.spec_add(o),
    {
        ChunkPos { x: self.x + o.x, y: self.y + o.y, z: self.z + o.z }
    }
}

/// The six cardinal directions, in the order in which neighbours are visited:
/// +x, -x, +y, -y, +z, -z.
pub open spec fn neighbor_offsets() -> Seq<ChunkPos> {
    seq![
        ChunkPos { x: 1, y: 0, z: 0 },
        ChunkPos { x: -1i32, y: 0, z: 0 },
        ChunkPos { x: 0, y: 1, z: 0 },
        ChunkPos { x: 0, y: -1i32, z: 0 },
        ChunkPos { x: 0, y: 0, z: 1 },
        ChunkPos { x: 0, y: 0, z: -1i32 },
    ]
}

fn neighbor_offsets_vec() -> (v: Vec<ChunkPos>)
    ensures
        v@ == neighbor_offsets(),
{
    vec![
        ChunkPos { x: 1, y: 0, z: 0 },
        ChunkPos { x: -1, y: 0, z: 0 },
        ChunkPos { x: 0, y: 1, z: 0 },
        ChunkPos { x: 0, y: -1, z: 0 },
        ChunkPos { x: 0, y: 0, z: 1 },
        ChunkPos { x: 0, y: 0, z: -1 },
    ]
}

/// Whether every cardinal neighbour of `p` is a representable position.
pub open spec fn has_all_neighbors(p: ChunkPos) -> bool {
    &&& i32::MIN < p.x < i32::MAX
    &&& i32::MIN < p.y < i32::MAX
    &&& i32::MIN < p.z < i32::MAX
}

/// The `i`-th cardinal neighbour of `p`.
pub open spec fn neighbor(p: ChunkPos, i: int) -> ChunkPos {
    p.spec_add(neighbor_offsets()[i])
}

/// The integer key under which a position is stored: the three coordinates,
/// each as 32 bits, packed into 96 bits.
pub open spec fn key_of(p: ChunkPos) -> u128 {
    ((p.x as u32 as u128) << 64u128) | ((p.y as u32 as u128) << 32u128) | (p.z as u32 as u128)
}

/// The position that a key stands for.
pub open spec fn pos_of(k: u128) -> ChunkPos {
    ChunkPos {
        x: (k >> 64u128) as u32 as i32,
        y: (k >> 32u128) as u32 as i32,
        z: k as u32 as i32,
    }
}

/// A position is recovered from its key.
pub proof fn lemma_key_roundtrip(p: ChunkPos)
    ensures
        pos_of(key_of(p)) == p,
{
    let x = p.x;
    let y = p.y;
    let z = p.z;
    assert(((((x as u32 as u128) << 64u128) | ((y as u32 as u128) << 32u128) | (z as u32 as u128))
        >> 64u128) as u32 as i32 == x) by (bit_vector);
    assert(((((x as u32 as u128) << 64u128) | ((y as u32 as u128) << 32u128) | (z as u32 as u128))
        >> 32u128) as u32 as i32 == y) by (bit_vector);
    assert((((x as u32 as u128) << 64u128) | ((y as u32 as u128) << 32u128) | (
    z as u32 as u128)) as u32 as i32 == z) by (bit_vector);
}

/// Distinct positions have distinct keys.
pub proof fn lemma_key_injective(p: ChunkPos, q: ChunkPos)
    ensures
        key_of(p) == key_of(q) <==> p == q,
{
    lemma_key_roundtrip(p);
    lemma_key_roundtrip(q);
}

fn key_of_exec(p: ChunkPos) -> (k: u128)
    ensures
        k == key_of(p),
{
    ((p.x as u32 as u128) << 64u128) | ((p.y as u32 as u128) << 32u128) | (p.z as u32 as u128)
}

fn pos_of_exec(k: u128) -> (p: ChunkPos)
    ensures
        p == pos_of(k),
{
    ChunkPos { x: (k >> 64u128) as u32 as i32, y: (k >> 32u128) as u32 as i32, z: k as u32 as i32 }
}


/// Removes repeated elements, keeping the first occurrence of each, in order.
pub open spec fn dedup(s: Seq<Dimension>) -> Seq<Dimension>
    decreases s.len(),
{
    if s.len() == 0 {
        Seq::empty()
    } else {
        let d = dedup(s.drop_last());
        if d.contains(s.last()) {
            d
        } else {
            d.push(s.last())
        }
    }
}

/// The tracked chunks after chunk `pos` is set to `dim`: Prime is the
/// default and is not tracked.
pub open spec fn after_set(m: Map<ChunkPos, Dimension>, pos: ChunkPos, dim: Dimension) -> Map<ChunkPos, Dimension> {
    if dim == Dimension::Prime {
        m.remove(pos)
    } else {
        m.insert(pos, dim)
    }
}

/// The deduplicated sequence holds each element of the original once.
pub proof fn lemma_dedup(s: Seq<Dimension>)
    ensures
        dedup(s).no_duplicates(),
        forall|d: Dimension| #[trigger] dedup(s).contains(d) <==> s.contains(d),
        dedup(s).len() <= s.len(),
    decreases s.len(),
{
    if s.len() > 0 {
        let init = s.drop_last();
        lemma_dedup(init);
        assert forall|d: Dimension| #[trigger] s.contains(d) <==> (init.contains(d) || d == s.last()) by {
            if s.contains(d) {
                let i = choose|i: int| 0 <= i < s.len() && s[i] == d;
                if i < s.len() - 1 {
                    assert(init[i] == d);
                }
            }
            if init.contains(d) {
                let i = choose|i: int| 0 <= i < init.len() && init[i] == d;
                assert(s[i] == d);
            }
            if d == s.last() {
                assert(s[s.len() - 1] == d);
            }
        }
        let di = dedup(init);
        if !di.contains(s.last()) {
            assert forall|d: Dimension| #[trigger] di.push(s.last()).contains(d) <==> (di.contains(d) || d == s.last()) by {
                if di.push(s.last()).contains(d) {
                    let i = choose|i: int| 0 <= i < di.len() + 1 && di.push(s.last())[i] == d;
                    if i < di.len() {
                        assert(di[i] == d);
                    }
                }
                if di.contains(d) {
                    let i = choose|i: int| 0 <= i < di.len() && di[i] == d;
                    assert(di.push(s.last())[i] == d);
                }
                if d == s.last() {
                    assert(di.push(s.last())[di.len() as int] == d);
                }
            }
        }
    }
}

/// Tracks which dimension each chunk in the world belongs to.
///
/// Chunks that are not tracked are in the Prime dimension; Prime chunks are
/// never stored.
#[derive(Clone, Debug)]
pub struct DimensionState {
    /// Map from the key of a chunk position to its current dimension.
    chunk_dimensions: HashMap<u128, Dimension>,
}

impl View for DimensionState {
    type V = Map<ChunkPos, Dimension>;

    /// The explicitly tracked (non-Prime) chunks and their dimensions.
    closed spec fn view(&self) -> Map<ChunkPos, Dimension> {
        Map::new(
            |p: ChunkPos| self.chunk_dimensions@.contains_key(key_of(p)),
            |p: ChunkPos| self.chunk_dimensions@[key_of(p)],
        )
    }
}

impl DimensionState {
    /// Every stored key stands for a position, and no Prime chunk is stored.
    pub closed spec fn wf(&self) -> bool {
        forall|k: u128| #[trigger]
            self.chunk_dimensions@.contains_key(k) ==> key_of(pos_of(k)) == k
                && self.chunk_dimensions@[k] != Dimension::Prime
    }

    /// The dimension of a chunk: its tracked dimension, or Prime.
    pub open spec fn dimension_at(&self, p: ChunkPos) -> Dimension {
        if self@.contains_key(p) {
            self@[p]
        } else {
            Dimension::Prime
        }
    }

    /// The dimensions of the six cardinal neighbours of `p`, in visiting order.
    pub open spec fn neighbor_dimensions(&self, p: ChunkPos) -> Seq<Dimension> {
        Seq::new(6, |i: int| self.dimension_at(neighbor(p, i)))
    }

    /// The tracked chunks that are in dimension `dim`.
    pub open spec fn chunks_of(&self, dim: Dimension) -> Set<ChunkPos> {
        self@.dom().filter(|p: ChunkPos| self@[p] == dim)
    }

    proof fn lemma_view_dom(&self)
        requires
            self.wf(),
        ensures
            self@.dom() == self.chunk_dimensions@.dom().map(|k: u128| pos_of(k)),
            self@.dom().finite(),
            self@.dom().len() == self.chunk_dimensions@.len(),
            forall|p: ChunkPos| #[trigger] self@.contains_key(p) ==> self@[p] != Dimension::Prime,
    {
        let inner = self.chunk_dimensions@.dom();
        let f = |k: u128| pos_of(k);
        assert forall|p: ChunkPos| #[trigger] self@.dom().contains(p) implies inner.map(f).contains(p) by {
            lemma_key_roundtrip(p);
            assert(inner.contains(key_of(p)));
        }
        assert forall|p: ChunkPos| #[trigger] inner.map(f).contains(p) implies self@.dom().contains(p) by {
            let k = choose|k: u128| inner.contains(k) && f(k) == p;
            assert(key_of(pos_of(k)) == k);
        }
        assert(self@.dom() =~= inner.map(f));
        assert(vstd::relations::injective_on(f, inner)) by {
            assert forall|a: u128, b: u128| inner.contains(a) && inner.contains(b) && #[trigger] f(a) == #[trigger] f(b) implies a == b by {
                assert(key_of(pos_of(a)) == a);
                assert(key_of(pos_of(b)) == b);
            }
        }
        vstd::set_lib::lemma_map_size(inner, self@.dom(), f);
    }

    /// Create a new dimension state with no tracked chunks.
    ///
    /// Untracked chunks default to Prime dimension.
    pub fn new() -> (s: DimensionState)
        ensures
            s.wf(),
            s@ == Map::<ChunkPos, Dimension>::empty(),
    {
        let s = DimensionState { chunk_dimensions: HashMap::new() };
        assert(s@ =~= Map::<ChunkPos, Dimension>::empty());
        s
    }

    /// Get the dimension of a chunk.
    ///
    /// Returns Prime if the chunk is not explicitly tracked.
    pub fn get_dimension(&self, pos: ChunkPos) -> (d: Dimension)
        requires
            self.wf(),
        ensures
            d == self.dimension_at(pos),
    {
        let k = key_of_exec(pos);
        match self.chunk_dimensions.get(&k) {
            Some(d) => *d,
            None => Dimension::Prime,
        }
    }

    /// Set the dimension of a chunk.
    ///
    /// Returns the previous dimension (Prime if untracked). Setting a chunk to
    /// Prime stops tracking it.
    pub fn set_dimension(&mut self, pos: ChunkPos, dim: Dimension) -> (previous: Dimension)
        requires
            old(self).wf(),
        ensures
            final(self).wf(),
            previous == old(self).dimension_at(pos),
            final(self)@ == after_set(old(self)@, pos, dim),
    {
        let previous = self.get_dimension(pos);
        let k = key_of_exec(pos);
        proof { lemma_key_roundtrip(pos); }
        let ghost old_view = self@;
        if dim == Dimension::Prime {
            self.chunk_dimensions.remove(&k);
        } else {
            self.chunk_dimensions.insert(k, dim);
        }
        proof {
            assert forall|p: ChunkPos| #[trigger] key_of(p) == k <==> p == pos by {
                lemma_key_injective(p, pos);
            }
            assert(dim == Dimension::Prime ==> after_set(old_view, pos, dim) == old_view.remove(pos));
            if dim == Dimension::Prime {
                assert(self@ =~= old_view.remove(pos));
            } else {
                assert(self@ =~= old_view.insert(pos, dim));
            }
        }
        previous
    }

    /// Get the distinct dimensions of the 6 cardinal neighbors, in the order
    /// in which they are first met (+x, -x, +y, -y, +z, -z).
    pub fn get_adjacent_dimensions(&self, pos: ChunkPos) -> (dims: Vec<Dimension>)
        requires
            self.wf(),
            has_all_neighbors(pos),
        ensures
            dims@ == dedup(self.neighbor_dimensions(pos)),
            dims@.no_duplicates(),
            forall|d: Dimension| #[trigger] dims@.contains(d) <==> self.neighbor_dimensions(pos).contains(d),
    {
        proof { lemma_dedup(self.neighbor_dimensions(pos)); }
        let offsets = neighbor_offsets_vec();
        let mut dimensions: Vec<Dimension> = Vec::new();
        let ghost nd = self.neighbor_dimensions(pos);
        let mut i: usize = 0;
        while i < 6
            invariant
                0 <= i <= 6,
                offsets@ == neighbor_offsets(),
                has_all_neighbors(pos),
                self.wf(),
                nd == self.neighbor_dimensions(pos),
                dimensions@ == dedup(nd.take(i as int)),
            decreases 6 - i,
        {
            let neighbor_pos = pos.add(offsets[i]);
            let dim = self.get_dimension(neighbor_pos);
            assert(nd.take(i + 1).drop_last() =~= nd.take(i as int));
            assert(nd.take(i + 1).last() == dim);
            let mut found = false;
            let mut j: usize = 0;
            while j < dimensions.len()
                invariant
                    0 <= j <= dimensions.len(),
                    found <==> exists|t: int| 0 <= t < j && dimensions@[t] == dim,
                decreases dimensions.len() - j,
            {
                if dimensions[j] == dim {
                    found = true;
                }
                j += 1;
            }
            if !found {
                dimensions.push(dim);
            }
            i += 1;
        }
        assert(nd.take(6) =~= nd);
        dimensions
    }

    /// Check if a chunk is on a fracture border.
    ///
    /// Returns true if any of the 6 cardinal neighbors has a different dimension.
    pub fn is_fracture_border(&self, pos: ChunkPos) -> (b: bool)
        requires
            self.wf(),
            has_all_neighbors(pos),
        ensures
            b == exists|i: int|
                0 <= i < 6 && #[trigger] self.dimension_at(neighbor(pos, i)) != self.dimension_at(pos),
    {
        let offsets = neighbor_offsets_vec();
        let my_dim = self.get_dimension(pos);
        let mut i: usize = 0;
        while i < 6
            invariant
                0 <= i <= 6,
                offsets@ == neighbor_offsets(),
                has_all_neighbors(pos),
                self.wf(),
                my_dim == self.dimension_at(pos),
                forall|j: int| 0 <= j < i ==> #[trigger] self.dimension_at(neighbor(pos, j)) == my_dim,
            decreases 6 - i,
        {
            let neighbor_pos = pos.add(offsets[i]);
            if self.get_dimension(neighbor_pos) != my_dim {
                assert(self.dimension_at(neighbor(pos, i as int)) != self.dimension_at(pos));
                return true;
            }
            i += 1;
        }
        false
    }

    /// Get all chunk positions in a specific dimension, each once, in no
    /// particular order.
    ///
    /// Prime chunks are not stored, so they cannot be enumerated: for Prime the
    /// result is empty.
    pub fn chunks_in_dimension(&self, dim: Dimension) -> (v: Vec<ChunkPos>)
        requires
            self.wf(),
        ensures
            dim == Dimension::Prime ==> v@.len() == 0,
            v@.no_duplicates(),
            v@.to_set() == self.chunks_of(dim),
            v@.len() == self.chunks_of(dim).len(),
    {
        proof {
            self.lemma_view_dom();
        }
        let ghost m = self.chunk_dimensions@;
        if dim == Dimension::Prime {
            let v: Vec<ChunkPos> = Vec::new();
            assert(self.chunks_of(dim) =~= Set::<ChunkPos>::empty());
            return v;
        }
        let mut result: Vec<ChunkPos> = Vec::new();
        let ghost mut src: Seq<int> = Seq::empty();
        let ghost seq0 = vstd::std_specs::hash::spec_hash_map_iter(&self.chunk_dimensions).remaining();
        proof {
            vstd::std_specs::hash::axiom_spec_hash_map_iter(&self.chunk_dimensions);
        }
        for pair in it: self.chunk_dimensions.iter()
            invariant
                dim != Dimension::Prime,
                m == self.chunk_dimensions@,
                self.wf(),
                it.seq() == seq0,
                seq0.no_duplicates(),
                seq0.len() == m.dom().len(),
                forall|i: int| 0 <= i < seq0.len() ==> #[trigger] m.contains_key(*seq0[i].0) && m[*seq0[i].0] == *seq0[i].1,
                forall|k: u128| #[trigger] m.contains_key(k) ==> seq0.contains((&k, &m[k])),
                result@.no_duplicates(),
                src.len() == result@.len(),
                forall|j: int| #![trigger result@[j]] 0 <= j < result@.len() ==> self@.contains_key(result@[j]) && self@[result@[j]] == dim,
                forall|j: int| #![trigger src[j]] 0 <= j < src.len() ==> 0 <= src[j] < it.index(),
                forall|j: int| #![trigger result@[j]] 0 <= j < result@.len() ==> pos_of(*seq0[src[j]].0) == result@[j],
                forall|i: int| 0 <= i < it.index() && *seq0[i].1 == dim ==> result@.contains(#[trigger] pos_of(*seq0[i].0)),
        {
            let (k, d) = pair;
            let ghost idx = it.index();
            assert(pair == seq0[idx]);
            if *d == dim {
                let p = pos_of_exec(*k);
                proof {
                    assert(m.contains_key(*seq0[idx].0));
                    assert(key_of(pos_of(*k)) == *k);
                    assert forall|j: int| 0 <= j < result@.len() implies result@[j] != p by {
                        if result@[j] == p {
                            let i = src[j];
                            assert(pos_of(*seq0[i].0) == result@[j]);
                            assert(m.contains_key(*seq0[i].0));
                            assert(key_of(pos_of(*seq0[i].0)) == *seq0[i].0);
                            assert(*seq0[i].0 == *k);
                            assert(seq0[i] == seq0[idx]);
                        }
                    }
                    lemma_key_roundtrip(p);
                }
                let ghost old_result = result@;
                result.push(p);
                proof {
                    let ghost old_src = src;
                    src = src.push(idx);
                    assert forall|j: int| 0 <= j < src.len() implies 0 <= #[trigger] src[j] < idx + 1 by {
                        if j < old_src.len() {
                            assert(old_src[j] == src[j]);
                        }
                    }
                    assert(result@[result@.len() - 1] == p);
                    assert(self@.contains_key(p) && self@[p] == dim);
                    assert forall|i: int| 0 <= i < idx + 1 && *seq0[i].1 == dim implies result@.contains(#[trigger] pos_of(*seq0[i].0)) by {
                        if i == idx {
                            assert(result@[result@.len() - 1] == pos_of(*seq0[i].0));
                        } else {
                            let q = pos_of(*seq0[i].0);
                            assert(old_result.contains(q));
                            let j = choose|j: int| 0 <= j < old_result.len() && old_result[j] == q;
                            assert(result@[j] == q);
                        }
                    }
                }
            }
        }
        proof {
            assert forall|q: ChunkPos| #[trigger] self.chunks_of(dim).contains(q) implies result@.contains(q) by {
                lemma_key_roundtrip(q);
                let k = key_of(q);
                assert(m.contains_key(k));
                assert(seq0.contains((&k, &m[k])));
                let i = choose|i: int| 0 <= i < seq0.len() && seq0[i] == (&k, &m[k]);
                assert(pos_of(*seq0[i].0) == q);
            }
            assert forall|q: ChunkPos| #[trigger] result@.contains(q) implies self.chunks_of(dim).contains(q) by {
                let j = choose|j: int| 0 <= j < result@.len() && result@[j] == q;
            }
            assert(result@.to_set() =~= self.chunks_of(dim));
            result@.unique_seq_to_set();
        }
        result
    }

    /// Count the tracked chunks in a specific dimension (0 for Prime, whose
    /// chunks are not stored).
    pub fn dimension_count(&self, dim: Dimension) -> (n: usize)
        requires
            self.wf(),
        ensures
            n == self.chunks_of(dim).len(),
            dim == Dimension::Prime ==> n == 0,
    {
        let chunks = self.chunks_in_dimension(dim);
        chunks.len()
    }

    /// Get total number of explicitly tracked chunks (non-Prime).
    pub fn total_tracked(&self) -> (n: usize)
        requires
            self.wf(),
        ensures
            n == self@.dom().len(),
    {
        proof {
            self.lemma_view_dom();
        }
        self.chunk_dimensions.len()
    }
}

impl Default for DimensionState {
    /// A dimension state with no tracked chunks.
    fn default() -> (s: Self)
        ensures
            s.wf(),
            s@ == Map::<ChunkPos, Dimension>::empty(),
    {
        DimensionState::new()
    }
}

/// The neighbours visited are exactly the six unit steps: for each of +x,
/// -x, +y, -y, +z, -z there is a visited neighbour one step that way, and no
/// two visited neighbours coincide. So when the chunk one unit step from `pos`
/// is in another dimension, `pos` is on a fracture border and that dimension
/// is among its adjacent dimensions.
pub proof fn law_all_six_neighbors_seen(s: DimensionState, pos: ChunkPos, off: ChunkPos)
    requires
        has_all_neighbors(pos),
        off == (ChunkPos { x: 1, y: 0, z: 0 }) || off == (ChunkPos { x: -1i32, y: 0, z: 0 })
            || off == (ChunkPos { x: 0, y: 1, z: 0 }) || off == (ChunkPos { x: 0, y: -1i32, z: 0 })
            || off == (ChunkPos { x: 0, y: 0, z: 1 }) || off == (ChunkPos { x: 0, y: 0, z: -1i32 }),
    ensures
        exists|i: int| 0 <= i < 6 && #[trigger] neighbor(pos, i) == pos.spec_add(off),
        forall|i: int, j: int| 0 <= i < 6 && 0 <= j < 6 && i != j ==> #[trigger] neighbor(pos, i) != #[trigger] neighbor(pos, j),
        s.dimension_at(pos.spec_add(off)) != s.dimension_at(pos) ==> {
            &&& exists|i: int| 0 <= i < 6 && #[trigger] s.dimension_at(neighbor(pos, i)) != s.dimension_at(pos)
            &&& dedup(s.neighbor_dimensions(pos)).contains(s.dimension_at(pos.spec_add(off)))
        },
{
    let i: int = if off.x == 1 {
        0
    } else if off.x == -1 {
        1
    } else if off.y == 1 {
        2
    } else if off.y == -1 {
        3
    } else if off.z == 1 {
        4
    } else {
        5
    };
    assert(neighbor(pos, i) == pos.spec_add(off));
    let nd = s.neighbor_dimensions(pos);
    lemma_dedup(nd);
    assert(nd[i] == s.dimension_at(pos.spec_add(off)));
    assert(nd.contains(nd[i]));
}

/// Reading a chunk after setting it gives back the dimension that was set,
/// and every other chunk keeps its dimension.
pub proof fn law_get_after_set(before: DimensionState, after: DimensionState, pos: ChunkPos, dim: Dimension, other: ChunkPos)
    requires
        after@ == after_set(before@, pos, dim),
    ensures
        after.dimension_at(pos) == dim,
        other != pos ==> after.dimension_at(other) == before.dimension_at(other),
{
}

/// Setting a chunk to the dimension it already has changes nothing.
pub proof fn law_set_same_is_noop(before: DimensionState, after: DimensionState, pos: ChunkPos)
    requires
        before.wf(),
        after@ == after_set(before@, pos, before.dimension_at(pos)),
    ensures
        after@ == before@,
{
    before.lemma_view_dom();
    if before@.contains_key(pos) {
        assert(after@ =~= before@);
    } else {
        assert(after@ =~= before@);
    }
}

/// Setting a chunk back to the dimension it had before undoes the change.
pub proof fn law_set_back_restores(before: DimensionState, mid: DimensionState, after: DimensionState, pos: ChunkPos, dim: Dimension)
    requires
        before.wf(),
        mid@ == after_set(before@, pos, dim),
        after@ == after_set(mid@, pos, before.dimension_at(pos)),
    ensures
        after@ == before@,
{
    before.lemma_view_dom();
    assert(after@ =~= before@);
}

/// Every tracked chunk is in Inverted, Void or Nexus, so the number of tracked
/// chunks is the sum of the counts of those three dimensions.
pub proof fn law_tracked_is_sum_of_counts(s: DimensionState)
    requires
        s.wf(),
    ensures
        s@.dom().len() == s.chunks_of(Dimension::Inverted).len() + s.chunks_of(Dimension::Void).len()
            + s.chunks_of(Dimension::Nexus).len(),
        s.chunks_of(Dimension::Prime).len() == 0,
{
    s.lemma_view_dom();
    let a = s.chunks_of(Dimension::Inverted);
    let b = s.chunks_of(Dimension::Void);
    let c = s.chunks_of(Dimension::Nexus);
    assert(s@.dom() =~= a + b + c);
    assert(a.disjoint(b));
    assert((a + b).disjoint(c));
    vstd::set_lib::lemma_set_disjoint_lens(a, b);
    vstd::set_lib::lemma_set_disjoint_lens(a + b, c);
    assert(s.chunks_of(Dimension::Prime) =~= Set::<ChunkPos>::empty());
}

/// A chunk is on a fracture border exactly when its distinct adjacent
/// dimensions include one other than its own.
pub proof fn law_border_iff_adjacent_other(s: DimensionState, pos: ChunkPos)
    ensures
        (exists|i: int| 0 <= i < 6 && #[trigger] s.dimension_at(neighbor(pos, i)) != s.dimension_at(pos))
            <==> (exists|d: Dimension| #[trigger] dedup(s.neighbor_dimensions(pos)).contains(d) && d != s.dimension_at(pos)),
{
    let nd = s.neighbor_dimensions(pos);
    lemma_dedup(nd);
    if exists|i: int| 0 <= i < 6 && #[trigger] s.dimension_at(neighbor(pos, i)) != s.dimension_at(pos) {
        let i = choose|i: int| 0 <= i < 6 && #[trigger] s.dimension_at(neighbor(pos, i)) != s.dimension_at(pos);
        assert(nd[i] == s.dimension_at(neighbor(pos, i)));
        assert(nd.contains(nd[i]));
        assert(dedup(nd).contains(nd[i]));
    }
    if exists|d: Dimension| #[trigger] dedup(nd).contains(d) && d != s.dimension_at(pos) {
        let d = choose|d: Dimension| #[trigger] dedup(nd).contains(d) && d != s.dimension_at(pos);
        assert(nd.contains(d));
        let i = choose|i: int| 0 <= i < nd.len() && nd[i] == d;
        assert(s.dimension_at(neighbor(pos, i)) != s.dimension_at(pos));
    }
}

/// Prime chunks are never tracked: every tracked chunk is in another
/// dimension, so the dimension of a chunk is Prime exactly when it is not
/// tracked.
pub proof fn law_prime_never_tracked(s: DimensionState, p: ChunkPos)
    requires
        s.wf(),
    ensures
        s@.contains_key(p) ==> s@[p] != Dimension::Prime,
        s.dimension_at(p) == Dimension::Prime <==> !s@.contains_key(p),
{
    s.lemma_view_dom();
}

} // verus!
