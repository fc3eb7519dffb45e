//! Fracture mechanics for dimension instability: fracture types, fracture
//! events, and the engine that tracks weak points and the history of events.

use crate::dimension::{ChunkPos, Dimension};
use rand::Rng;
use vstd::prelude::*;

verus! {

/// Types of fractures with increasing severity.
#[derive(Clone, Copy, Debug, PartialEq, Eq, Hash, Structural)]
pub enum FractureType {
    /// Small, localized fracture affecting a single chunk.
    Micro,
    /// Medium fracture affecting a small area.
    Meso,
    /// Large fracture affecting a significant area.
    Macro,
    /// Catastrophic cascade affecting multiple areas in waves.
    Cascade,
}

/// The display name of a fracture type.
pub open spec fn fracture_type_name(t: FractureType) -> Seq<char> {
    match t {
        FractureType::Micro => "Micro"@,
        FractureType::Meso => "Meso"@,
        FractureType::Macro => "Macro"@,
        FractureType::Cascade => "Cascade"@,
    }
}

/// Radius of effect in chunks (per wave for a cascade).
pub open spec fn spec_base_radius(t: FractureType) -> u32 {
    match t {
        FractureType::Micro => 1,
        FractureType::Meso => 3,
        FractureType::Macro => 7,
        FractureType::Cascade => 7,
    }
}

/// The first world day on which a fracture type can occur.
pub open spec fn spec_start_day(t: FractureType) -> u32 {
    match t {
        FractureType::Micro => 3,
        FractureType::Meso => 7,
        FractureType::Macro => 14,
        FractureType::Cascade => 21,
    }
}

/// The fracture types from most to least severe: the order in which they are
/// tried at a weak point each day.
pub open spec fn severity_order() -> Seq<FractureType> {
    seq![FractureType::Cascade, FractureType::Macro, FractureType::Meso, FractureType::Micro]
}

impl FractureType {
    /// The display name ("Micro", "Meso", "Macro", "Cascade").
    pub fn name(&self) -> (s: &'static str)
        ensures
            s@ == fracture_type_name(*self),
    {
        match self {
            FractureType::Micro => "Micro",
            FractureType::Meso => "Meso",
            FractureType::Macro => "Macro",
            FractureType::Cascade => "Cascade",
        }
    }

    /// Get the base radius of effect for this fracture type.
    pub fn base_radius(&self) -> (r: u32)
        ensures
            r == spec_base_radius(*self),
    {
        match self {
            FractureType::Micro => 1,
            FractureType::Meso => 3,
            FractureType::Macro => 7,
            FractureType::Cascade => 7,
        }
    }

    /// Get the day when this fracture type can first occur.
    pub fn start_day(&self) -> (d: u32)
        ensures
            d == spec_start_day(*self),
    {
        match self {
            FractureType::Micro => 3,
            FractureType::Meso => 7,
            FractureType::Macro => 14,
            FractureType::Cascade => 21,
        }
    }
}

/// A fracture event that occurred at a weak point.
#[derive(Clone, Copy, Debug, PartialEq, Eq, Structural)]
pub struct FractureEvent {
    /// Position of the weak point that fractured.
    pub weak_point_pos: ChunkPos,
    /// Type of fracture.
    pub fracture_type: FractureType,
    /// Radius of chunks affected.
    pub radius: u32,
    /// The dimension the fracture originated from.
    pub source_dimension: Dimension,
    /// The dimension that chunks will transform into.
    pub target_dimension: Dimension,
}

/// The event of a single (non-wave) fracture of type `t`.
pub open spec fn spec_fracture_event(pos: ChunkPos, t: FractureType, source: Dimension, target: Dimension) -> FractureEvent {
    FractureEvent {
        weak_point_pos: pos,
        fracture_type: t,
        radius: spec_base_radius(t),
        source_dimension: source,
        target_dimension: target,
    }
}

/// The event of wave `wave` of a cascade: its radius grows by one chunk per wave.
pub open spec fn spec_cascade_wave(pos: ChunkPos, wave: u32, source: Dimension, target: Dimension) -> FractureEvent {
    FractureEvent {
        weak_point_pos: pos,
        fracture_type: FractureType::Cascade,
        radius: (7 + wave) as u32,
        source_dimension: source,
        target_dimension: target,
    }
}

impl FractureEvent {
    /// Create a new fracture event with the base radius of its type.
    pub fn new(pos: ChunkPos, ftype: FractureType, source: Dimension, target: Dimension) -> (e: FractureEvent)
        ensures
            e == spec_fracture_event(pos, ftype, source, target),
    {
        FractureEvent {
            weak_point_pos: pos,
            fracture_type: ftype,
            radius: ftype.base_radius(),
            source_dimension: source,
            target_dimension: target,
        }
    }

    /// Create a cascade wave event: the cascade base radius plus the wave number.
    pub fn cascade_wave(pos: ChunkPos, wave_number: u32, source: Dimension, target: Dimension) -> (e: FractureEvent)
        requires
            wave_number <= u32::MAX - 7,
        ensures
            e == spec_cascade_wave(pos, wave_number, source, target),
    {
        FractureEvent {
            weak_point_pos: pos,
            fracture_type: FractureType::Cascade,
            radius: FractureType::Cascade.base_radius() + wave_number,
            source_dimension: source,
            target_dimension: target,
        }
    }
}

/// Outcome of the daily random draws at one weak point: for each fracture
/// type, in severity order (Cascade, Macro, Meso, Micro), whether the draw fell
/// below that type's fracture probability.
pub type FractureRolls = [bool; 4];

/// The fracture that occurs on `day` given the draws: the most severe type that
/// has started by that day and whose draw hit, if any.
pub open spec fn chosen_fracture(day: u32, rolls: Seq<bool>) -> Option<FractureType> {
    if spec_start_day(FractureType::Cascade) <= day && rolls[0] {
        Some(FractureType::Cascade)
    } else if spec_start_day(FractureType::Macro) <= day && rolls[1] {
        Some(FractureType::Macro)
    } else if spec_start_day(FractureType::Meso) <= day && rolls[2] {
        Some(FractureType::Meso)
    } else if spec_start_day(FractureType::Micro) <= day && rolls[3] {
        Some(FractureType::Micro)
    } else {
        None
    }
}

/// Pick the fracture that occurs at a weak point on `day`: the first type in
/// severity order that has started by that day and whose draw hit.
pub fn pick_fracture(day: u32, rolls: &FractureRolls) -> (t: Option<FractureType>)
    ensures
        t == chosen_fracture(day, rolls@),
{
    let order = [FractureType::Cascade, FractureType::Macro, FractureType::Meso, FractureType::Micro];
    let mut i: usize = 0;
    while i < 4
        invariant
            0 <= i <= 4,
            order@ == severity_order(),
            forall|j: int| 0 <= j < i ==> !(spec_start_day(#[trigger] severity_order()[j]) <= day && rolls@[j]),
        decreases 4 - i,
    {
        let ftype = order[i];
        if day >= ftype.start_day() && rolls[i] {
            return Some(ftype);
        }
        i += 1;
    }
    None
}

/// The events of one weak point on one day, given the fracture that occurred
/// there: none; one event of the base radius; or, for a cascade, between 3 and
/// 5 waves numbered from 0. All events start in Prime and share one target
/// dimension other than Prime.
pub open spec fn point_events_ok(pos: ChunkPos, chosen: Option<FractureType>, g: Seq<FractureEvent>) -> bool {
    match chosen {
        None => g.len() == 0,
        Some(t) => {
            &&& g.len() >= 1
            &&& g[0].target_dimension != Dimension::Prime
            &&& if t == FractureType::Cascade {
                &&& 3 <= g.len() <= 5
                &&& forall|w: int| 0 <= w < g.len() ==> #[trigger] g[w] == spec_cascade_wave(pos, w as u32, Dimension::Prime, g[0].target_dimension)
            } else {
                &&& g.len() == 1
                &&& g[0] == spec_fracture_event(pos, t, Dimension::Prime, g[0].target_dimension)
            }
        }
    }
}

/// `events` is the concatenation, in weak point order, of the events of each
/// weak point given the fracture that occurred there.
pub open spec fn day_events_ok(points: Seq<ChunkPos>, chosen: Seq<Option<FractureType>>, events: Seq<FractureEvent>) -> bool
    decreases points.len(),
{
    if points.len() == 0 {
        events.len() == 0
    } else {
        exists|k: int|
            0 <= k <= events.len() && day_events_ok(points.drop_last(), chosen.drop_last(), #[trigger] events.take(k))
                && point_events_ok(points.last(), chosen.last(), events.skip(k))
    }
}

/// A uniformly random index below `len`.
///
/// Calls `rand::Rng::gen_range(0..len)` on the thread-local generator, which
/// returns a value of the half-open range and panics only on an empty range;
/// which value is returned is left open. The generator itself panics when the
/// operating system cannot seed it, which no precondition can rule out.
#[verifier::external_body]
fn random_index(len: usize) -> (r: usize)
    requires
        len > 0,
    ensures
        r < len,
{
    rand::thread_rng().gen_range(0..len)
}

/// A uniformly random number of cascade waves, between 3 and 5.
///
/// Calls `rand::Rng::gen_range(3..=5)` on the thread-local generator, which
/// returns a value of the closed range; which value is returned is left open.
/// The generator itself panics when the operating system cannot seed it.
#[verifier::external_body]
fn random_wave_count() -> (n: u32)
    ensures
        3 <= n <= 5,
{
    rand::thread_rng().gen_range(3..=5)
}

/// The predicate "is not `d`".
pub open spec fn not_dimension(d: Dimension) -> spec_fn(Dimension) -> bool {
    |e: Dimension| e != d
}

/// The dimensions other than `source`, in declaration order.
pub open spec fn other_dimensions(source: Dimension) -> Seq<Dimension> {
    crate::dimension::all_dimensions().filter(not_dimension(source))
}

/// The dimensions other than `source`, in declaration order.
fn other_dimensions_vec(source: Dimension) -> (v: Vec<Dimension>)
    ensures
        v@ == other_dimensions(source),
        v@.len() == 3,
{
    let all = Dimension::all();
    let ghost pred = not_dimension(source);
    let mut targets: Vec<Dimension> = Vec::new();
    let mut i: usize = 0;
    while i < all.len()
        invariant
            0 <= i <= all.len(),
            all@ == crate::dimension::all_dimensions(),
            pred == not_dimension(source),
            targets@ == all@.take(i as int).filter(pred),
        decreases all.len() - i,
    {
        proof {
            assert(all@.take(i + 1) =~= all@.take(i as int).push(all@[i as int]));
            all@.take(i as int).lemma_filter_push(all@[i as int], pred);
        }
        if all[i] != source {
            targets.push(all[i]);
        }
        i += 1;
    }
    proof {
        assert(all@.take(4) =~= all@);
        reveal_with_fuel(Seq::<Dimension>::filter, 5);
        assert(other_dimensions(source).len() == 3);
    }
    targets
}

/// The target dimension that a draw of `index` picks for a fracture from
/// `source`: the `index`-th of the other dimensions.
pub fn target_dimension_at(source: Dimension, index: usize) -> (d: Dimension)
    requires
        index < 3,
    ensures
        d == other_dimensions(source)[index as int],
        d != source,
{
    let targets = other_dimensions_vec(source);
    proof {
        crate::dimension::all_dimensions().lemma_filter_pred(not_dimension(source), index as int);
    }
    targets[index]
}

/// Pick a random target dimension different from `source`, uniformly among
/// the other three.
pub fn random_target_dimension(source: Dimension) -> (d: Dimension)
    ensures
        d != source,
        other_dimensions(source).contains(d),
{
    let idx = random_index(3);
    target_dimension_at(source, idx)
}

/// The weak points after registering `pos`: added at the end unless already there.
pub open spec fn after_register(points: Seq<ChunkPos>, pos: ChunkPos) -> Seq<ChunkPos> {
    if points.contains(pos) {
        points
    } else {
        points.push(pos)
    }
}

/// The weak points after unregistering `pos`: every other one, in order.
pub open spec fn after_unregister(points: Seq<ChunkPos>, pos: ChunkPos) -> Seq<ChunkPos> {
    points.filter(other_than(pos))
}

/// The predicate "is not `pos`".
pub open spec fn other_than(pos: ChunkPos) -> spec_fn(ChunkPos) -> bool {
    |p: ChunkPos| p != pos
}

/// Engine that tracks weak points and generates fracture events.
///
/// The fracture probabilities (and their reduction by reinforcement) are
/// worked out by the caller, which hands each day's draws to `advance_day`.
#[derive(Clone, Debug)]
pub struct FractureEngine {
    /// Current world day.
    world_day: u32,
    /// Active weak points that can fracture, each once.
    active_weak_points: Vec<ChunkPos>,
    /// History of all fracture events.
    fracture_history: Vec<FractureEvent>,
}

impl FractureEngine {
    /// No weak point is registered twice.
    pub open spec fn wf(&self) -> bool {
        self.spec_weak_points().no_duplicates()
    }

    /// The current world day.
    pub closed spec fn spec_day(&self) -> u32 {
        self.world_day
    }

    /// The registered weak points, in registration order, each once.
    pub closed spec fn spec_weak_points(&self) -> Seq<ChunkPos> {
        self.active_weak_points@
    }

    /// Every fracture event so far, oldest first.
    pub closed spec fn spec_history(&self) -> Seq<FractureEvent> {
        self.fracture_history@
    }

    /// Create a new fracture engine starting at day 1.
    pub fn new() -> (e: FractureEngine)
        ensures
            e.wf(),
            e.spec_day() == 1,
            e.spec_weak_points() == Seq::<ChunkPos>::empty(),
            e.spec_history() == Seq::<FractureEvent>::empty(),
    {
        FractureEngine { world_day: 1, active_weak_points: Vec::new(), fracture_history: Vec::new() }
    }

    /// Whether `pos` is a registered weak point.
    pub fn is_weak_point(&self, pos: ChunkPos) -> (b: bool)
        ensures
            b == self.spec_weak_points().contains(pos),
    {
        let mut i: usize = 0;
        while i < self.active_weak_points.len()
            invariant
                0 <= i <= self.active_weak_points@.len(),
                forall|j: int| 0 <= j < i ==> self.active_weak_points@[j] != pos,
            decreases self.active_weak_points@.len() - i,
        {
            if self.active_weak_points[i] == pos {
                return true;
            }
            i += 1;
        }
        false
    }

    /// The registered weak points, in registration order.
    pub fn weak_points(&self) -> (v: &Vec<ChunkPos>)
        ensures
            v@ == self.spec_weak_points(),
    {
        &self.active_weak_points
    }

    /// Register a new weak point; a position already registered is not added again.
    pub fn register_weak_point(&mut self, pos: ChunkPos)
        requires
            old(self).wf(),
        ensures
            final(self).wf(),
            final(self).spec_weak_points() == after_register(old(self).spec_weak_points(), pos),
            final(self).spec_day() == old(self).spec_day(),
            final(self).spec_history() == old(self).spec_history(),
    {
        if !self.is_weak_point(pos) {
            let ghost before = self.active_weak_points@;
            self.active_weak_points.push(pos);
            proof {
                assert forall|a: int, b: int| 0 <= a < b < self.active_weak_points@.len() implies self.active_weak_points@[a] != self.active_weak_points@[b] by {
                    if b == self.active_weak_points@.len() - 1 {
                        assert(before[a] == self.active_weak_points@[a]);
                    } else {
                        assert(before[a] == self.active_weak_points@[a]);
                        assert(before[b] == self.active_weak_points@[b]);
                    }
                }
            }
        }
    }

    /// Unregister a weak point.
    pub fn unregister_weak_point(&mut self, pos: ChunkPos)
        requires
            old(self).wf(),
        ensures
            final(self).wf(),
            final(self).spec_weak_points() == after_unregister(old(self).spec_weak_points(), pos),
            !final(self).spec_weak_points().contains(pos),
            final(self).spec_day() == old(self).spec_day(),
            final(self).spec_history() == old(self).spec_history(),
    {
        let ghost old_points = self.active_weak_points@;
        let ghost pred = other_than(pos);
        let mut kept: Vec<ChunkPos> = Vec::new();
        let mut i: usize = 0;
        while i < self.active_weak_points.len()
            invariant
                0 <= i <= old_points.len(),
                self.active_weak_points@ == old_points,
                old_points.no_duplicates(),
                pred == other_than(pos),
                kept@ == old_points.take(i as int).filter(pred),
                kept@.no_duplicates(),
                forall|j: int| 0 <= j < kept@.len() ==> exists|t: int| 0 <= t < i && #[trigger] kept@[j] == old_points[t],
            decreases old_points.len() - i,
        {
            let p = self.active_weak_points[i];
            proof {
                assert(old_points.take(i + 1) =~= old_points.take(i as int).push(p));
                old_points.take(i as int).lemma_filter_push(p, pred);
                assert(pred(p) == (p != pos));
            }
            if p != pos {
                let ghost before = kept@;
                proof {
                    assert forall|j: int| 0 <= j < before.len() implies before[j] != p by {
                        let t = choose|t: int| 0 <= t < i && #[trigger] before[j] == old_points[t];
                    }
                }
                kept.push(p);
                proof {
                    assert forall|a: int, b: int| 0 <= a < b < kept@.len() implies kept@[a] != kept@[b] by {
                        if b == kept@.len() - 1 {
                            assert(before[a] == kept@[a]);
                        } else {
                            assert(before[a] == kept@[a]);
                            assert(before[b] == kept@[b]);
                        }
                    }
                    assert forall|j: int| 0 <= j < kept@.len() implies exists|t: int| 0 <= t < i + 1 && #[trigger] kept@[j] == old_points[t] by {
                        if j == kept@.len() - 1 {
                            assert(kept@[j] == old_points[i as int]);
                        } else {
                            assert(before[j] == kept@[j]);
                        }
                    }
                }
            }
            assert(kept@ == old_points.take(i + 1).filter(pred));
            i += 1;
        }
        assert(old_points.take(old_points.len() as int) =~= old_points);
        proof {
            broadcast use vstd::seq_lib::group_filter_ensures;
            assert(!kept@.contains(pos));
        }
        self.active_weak_points = kept;
    }

    /// Advance to the next day and record the fracture events that occur.
    ///
    /// `rolls[i]` are the draws of the `i`-th weak point (see
    /// [`FractureRolls`]). At each weak point the most severe type that has
    /// started by the new day and whose draw hit fractures: a cascade
    /// produces 3 to 5 waves, any other type one event; all start in Prime and
    /// target a random other dimension. The events are returned and added to
    /// the history.
    pub fn advance_day(&mut self, rolls: &Vec<FractureRolls>) -> (events: Vec<FractureEvent>)
        requires
            old(self).wf(),
            old(self).spec_day() < u32::MAX,
            rolls@.len() == old(self).spec_weak_points().len(),
        ensures
            final(self).wf(),
            final(self).spec_day() == old(self).spec_day() + 1,
            final(self).spec_weak_points() == old(self).spec_weak_points(),
            final(self).spec_history() == old(self).spec_history() + events@,
            day_events_ok(
                old(self).spec_weak_points(),
                Seq::new(rolls@.len(), |i: int| chosen_fracture((old(self).spec_day() + 1) as u32, rolls@[i]@)),
                events@,
            ),
    {
        self.world_day = self.world_day + 1;
        let day = self.world_day;
        let ghost points = self.active_weak_points@;
        let ghost chosen = Seq::new(rolls@.len(), |i: int| chosen_fracture(day, rolls@[i]@));
        let mut events: Vec<FractureEvent> = Vec::new();
        let n = self.active_weak_points.len();
        let mut i: usize = 0;
        while i < n
            invariant
                0 <= i <= n,
                n == points.len(),
                self.active_weak_points@ == points,
                rolls@.len() == n,
                chosen == Seq::new(rolls@.len(), |i: int| chosen_fracture(day, rolls@[i]@)),
                day_events_ok(points.take(i as int), chosen.take(i as int), events@),
            decreases n - i,
        {
            let pos = self.active_weak_points[i];
            let ghost before = events@;
            let fired = pick_fracture(day, &rolls[i]);
            match fired {
                Some(ftype) => {
                    let target = random_target_dimension(Dimension::Prime);
                    if ftype == FractureType::Cascade {
                        let wave_count = random_wave_count();
                        let mut wave: u32 = 0;
                        while wave < wave_count
                            invariant
                                0 <= wave <= wave_count <= 5,
                                events@.len() == before.len() + wave,
                                events@.take(before.len() as int) == before,
                                forall|w: int| 0 <= w < wave ==> #[trigger] events@[before.len() + w]
                                    == spec_cascade_wave(pos, w as u32, Dimension::Prime, target),
                            decreases wave_count - wave,
                        {
                            events.push(FractureEvent::cascade_wave(pos, wave, Dimension::Prime, target));
                            assert(events@.take(before.len() as int) =~= before);
                            wave += 1;
                        }
                        proof {
                            let g = events@.skip(before.len() as int);
                            assert(events@[before.len() + 0int] == spec_cascade_wave(pos, 0, Dimension::Prime, target));
                            assert(g[0] == spec_cascade_wave(pos, 0, Dimension::Prime, target));
                            assert forall|w: int| 0 <= w < g.len() implies #[trigger] g[w] == spec_cascade_wave(pos, w as u32, Dimension::Prime, g[0].target_dimension) by {
                                assert(g[w] == events@[before.len() + w]);
                            }
                        }
                    } else {
                        events.push(FractureEvent::new(pos, ftype, Dimension::Prime, target));
                    }
                }
                None => {}
            }
            proof {
                let k = before.len() as int;
                assert(events@.take(k) =~= before);
                assert(points.take(i + 1).drop_last() =~= points.take(i as int));
                assert(chosen.take(i + 1).drop_last() =~= chosen.take(i as int));
                assert(points.take(i + 1).last() == pos);
                assert(chosen.take(i + 1).last() == fired);
                assert(point_events_ok(pos, fired, events@.skip(k)));
                assert(day_events_ok(points.take(i + 1), chosen.take(i + 1), events@));
            }
            i += 1;
        }
        assert(points.take(n as int) =~= points);
        assert(chosen.take(n as int) =~= chosen);
        let mut recorded = events.clone();
        self.fracture_history.append(&mut recorded);
        events
    }

    /// Get the current day.
    pub fn current_day(&self) -> (d: u32)
        ensures
            d == self.spec_day(),
    {
        self.world_day
    }

    /// Set the current day.
    pub fn set_day(&mut self, day: u32)
        requires
            old(self).wf(),
        ensures
            final(self).wf(),
            final(self).spec_day() == day,
            final(self).spec_weak_points() == old(self).spec_weak_points(),
            final(self).spec_history() == old(self).spec_history(),
    {
        self.world_day = day;
    }

    /// Get the number of registered weak points.
    pub fn weak_point_count(&self) -> (n: usize)
        ensures
            n == self.spec_weak_points().len(),
    {
        self.active_weak_points.len()
    }

    /// Get the number of fracture events in history.
    pub fn history_count(&self) -> (n: usize)
        ensures
            n == self.spec_history().len(),
    {
        self.fracture_history.len()
    }
}

impl Default for FractureEngine {
    /// A fracture engine at day 0 (unlike `new`, which starts at day 1) with
    /// no weak points and no history.
    fn default() -> (e: Self)
        ensures
            e.wf(),
            e.spec_day() == 0,
            e.spec_weak_points() == Seq::<ChunkPos>::empty(),
            e.spec_history() == Seq::<FractureEvent>::empty(),
    {
        FractureEngine { world_day: 0, active_weak_points: Vec::new(), fracture_history: Vec::new() }
    }
}

/// Registering a weak point makes it registered, adds it at most once, and
/// registering it again changes nothing.
pub proof fn law_register_idempotent(points: Seq<ChunkPos>, pos: ChunkPos)
    ensures
        after_register(points, pos).contains(pos),
        after_register(after_register(points, pos), pos) == after_register(points, pos),
        after_register(points, pos).len() <= points.len() + 1,
        points.no_duplicates() ==> after_register(points, pos).no_duplicates(),
{
    if !points.contains(pos) {
        let r = points.push(pos);
        assert(r[points.len() as int] == pos);
        assert forall|a: int, b: int| 0 <= a < b < r.len() && points.no_duplicates() implies r[a] != r[b] by {
            if b == points.len() {
                assert(points[a] == r[a]);
            }
        }
    }
}

proof fn lemma_filter_keeps_all(points: Seq<ChunkPos>, pos: ChunkPos)
    requires
        !points.contains(pos),
    ensures
        after_unregister(points, pos) == points,
    decreases points.len(),
{
    if points.len() > 0 {
        let init = points.drop_last();
        assert(!init.contains(pos)) by {
            if init.contains(pos) {
                let i = choose|i: int| 0 <= i < init.len() && init[i] == pos;
                assert(points[i] == pos);
            }
        }
        lemma_filter_keeps_all(init, pos);
        assert(points =~= init.push(points.last()));
        init.lemma_filter_push(points.last(), other_than(pos));
        assert(points[points.len() - 1] != pos);
    } else {
        assert(points.filter(other_than(pos)) =~= points);
    }
}

/// Unregistering a weak point removes it and keeps every other weak point;
/// registering a new weak point and unregistering it again gives back the
/// weak points as they were.
pub proof fn law_unregister_undoes_register(points: Seq<ChunkPos>, pos: ChunkPos, q: ChunkPos)
    ensures
        !after_unregister(points, pos).contains(pos),
        q != pos ==> (after_unregister(points, pos).contains(q) <==> points.contains(q)),
        !points.contains(pos) ==> after_unregister(after_register(points, pos), pos) == points,
{
    broadcast use vstd::seq_lib::group_filter_ensures;
    let f = after_unregister(points, pos);
    if q != pos && points.contains(q) {
        let i = choose|i: int| 0 <= i < points.len() && points[i] == q;
        assert(other_than(pos)(points[i]));
        assert(f.contains(points[i]));
    }
    if f.contains(q) {
        let j = choose|j: int| 0 <= j < f.len() && f[j] == q;
        points.lemma_filter_contains_rev(other_than(pos), q);
    }
    if !points.contains(pos) {
        points.lemma_filter_push(pos, other_than(pos));
        lemma_filter_keeps_all(points, pos);
    }
}

/// The conditions every event of a day meets.
pub open spec fn event_ok(points: Seq<ChunkPos>, day: u32, e: FractureEvent) -> bool {
    &&& points.contains(e.weak_point_pos)
    &&& spec_start_day(e.fracture_type) <= day
    &&& e.source_dimension == Dimension::Prime
    &&& e.target_dimension != Dimension::Prime
}

proof fn lemma_day_events(points: Seq<ChunkPos>, chosen: Seq<Option<FractureType>>, day: u32, events: Seq<FractureEvent>)
    requires
        chosen.len() == points.len(),
        forall|i: int| 0 <= i < chosen.len() && #[trigger] chosen[i] is Some ==> spec_start_day(chosen[i]->0) <= day,
        day_events_ok(points, chosen, events),
    ensures
        forall|j: int| 0 <= j < events.len() ==> event_ok(points, day, #[trigger] events[j]),
    decreases points.len(),
{
    if points.len() > 0 {
        let k = choose|k: int|
            0 <= k <= events.len() && day_events_ok(points.drop_last(), chosen.drop_last(), #[trigger] events.take(k))
                && point_events_ok(points.last(), chosen.last(), events.skip(k));
        let init = points.drop_last();
        assert forall|i: int| 0 <= i < chosen.drop_last().len() && #[trigger] chosen.drop_last()[i] is Some implies spec_start_day(chosen.drop_last()[i]->0) <= day by {
            assert(chosen.drop_last()[i] == chosen[i]);
        }
        lemma_day_events(init, chosen.drop_last(), day, events.take(k));
        let g = events.skip(k);
        let last = chosen[chosen.len() - 1];
        assert forall|j: int| 0 <= j < events.len() implies event_ok(points, day, #[trigger] events[j]) by {
            if j < k {
                assert(events.take(k)[j] == events[j]);
                let e = events[j];
                assert(init.contains(e.weak_point_pos));
                let t = choose|t: int| 0 <= t < init.len() && init[t] == e.weak_point_pos;
                assert(points[t] == e.weak_point_pos);
            } else {
                assert(g[j - k] == events[j]);
                assert(points[points.len() - 1] == points.last());
                let t = last->0;
                if t == FractureType::Cascade {
                    assert(g[j - k] == spec_cascade_wave(points.last(), (j - k) as u32, Dimension::Prime, g[0].target_dimension));
                } else {
                    assert(j - k == 0);
                }
            }
        }
    }
}

/// Every event of a day happens at a registered weak point, starts in Prime,
/// targets another dimension, and is of a type that has started by that day;
/// in particular nothing fractures before day 3, and a cascade only from day 21.
pub proof fn law_day_events_valid(points: Seq<ChunkPos>, rolls: Seq<FractureRolls>, day: u32, events: Seq<FractureEvent>)
    requires
        rolls.len() == points.len(),
        day_events_ok(points, Seq::new(rolls.len(), |i: int| chosen_fracture(day, rolls[i]@)), events),
    ensures
        forall|j: int| 0 <= j < events.len() ==> event_ok(points, day, #[trigger] events[j]),
        day < 3 ==> events.len() == 0,
        forall|j: int| 0 <= j < events.len() && #[trigger] events[j].fracture_type == FractureType::Cascade ==> day >= 21,
{
    let chosen = Seq::new(rolls.len(), |i: int| chosen_fracture(day, rolls[i]@));
    assert forall|i: int| 0 <= i < chosen.len() && #[trigger] chosen[i] is Some implies spec_start_day(chosen[i]->0) <= day by {
    }
    lemma_day_events(points, chosen, day, events);
    if day < 3 && events.len() > 0 {
        assert(event_ok(points, day, events[0]));
    }
}

proof fn lemma_day_events_at_points(points: Seq<ChunkPos>, chosen: Seq<Option<FractureType>>, events: Seq<FractureEvent>)
    requires
        day_events_ok(points, chosen, events),
    ensures
        forall|j: int| 0 <= j < events.len() ==> points.contains(#[trigger] events[j].weak_point_pos),
    decreases points.len(),
{
    if points.len() > 0 {
        let k = choose|k: int|
            0 <= k <= events.len() && day_events_ok(points.drop_last(), chosen.drop_last(), #[trigger] events.take(k))
                && point_events_ok(points.last(), chosen.last(), events.skip(k));
        let init = points.drop_last();
        let g = events.skip(k);
        lemma_day_events_at_points(init, chosen.drop_last(), events.take(k));
        assert forall|j: int| 0 <= j < events.len() implies points.contains(#[trigger] events[j].weak_point_pos) by {
            if j < k {
                assert(events.take(k)[j] == events[j]);
                let t = choose|t: int| 0 <= t < init.len() && init[t] == events[j].weak_point_pos;
                assert(points[t] == events[j].weak_point_pos);
            } else {
                assert(g[j - k] == events[j]);
                if chosen.last()->0 == FractureType::Cascade {
                    assert(g[j - k] == spec_cascade_wave(points.last(), (j - k) as u32, Dimension::Prime, g[0].target_dimension));
                }
                assert(points[points.len() - 1] == events[j].weak_point_pos);
            }
        }
    }
}

proof fn lemma_one_fracture_per_point(points: Seq<ChunkPos>, chosen: Seq<Option<FractureType>>, events: Seq<FractureEvent>)
    requires
        points.no_duplicates(),
        day_events_ok(points, chosen, events),
    ensures
        forall|j: int, l: int|
            0 <= j < events.len() && 0 <= l < events.len() && #[trigger] events[j].weak_point_pos == #[trigger] events[l].weak_point_pos
                ==> events[j].fracture_type == events[l].fracture_type && events[j].target_dimension == events[l].target_dimension,
    decreases points.len(),
{
    if points.len() > 0 {
        let k = choose|k: int|
            0 <= k <= events.len() && day_events_ok(points.drop_last(), chosen.drop_last(), #[trigger] events.take(k))
                && point_events_ok(points.last(), chosen.last(), events.skip(k));
        let init = points.drop_last();
        let head = events.take(k);
        let g = events.skip(k);
        assert(init.no_duplicates()) by {
            assert forall|a: int, b: int| 0 <= a < b < init.len() implies init[a] != init[b] by {
                assert(init[a] == points[a] && init[b] == points[b]);
            }
        }
        lemma_one_fracture_per_point(init, chosen.drop_last(), head);
        lemma_day_events_at_points(init, chosen.drop_last(), head);
        assert(!init.contains(points.last())) by {
            if init.contains(points.last()) {
                let t = choose|t: int| 0 <= t < init.len() && init[t] == points.last();
                assert(points[t] == points[points.len() - 1]);
            }
        }
        assert forall|j: int| k <= j < events.len() implies #[trigger] events[j].weak_point_pos == points.last()
            && events[j].fracture_type == chosen.last()->0 && events[j].target_dimension == g[0].target_dimension by {
            assert(g[j - k] == events[j]);
            if chosen.last()->0 == FractureType::Cascade {
                assert(g[j - k] == spec_cascade_wave(points.last(), (j - k) as u32, Dimension::Prime, g[0].target_dimension));
            } else {
                assert(j - k == 0);
            }
        }
        assert forall|j: int, l: int|
            0 <= j < events.len() && 0 <= l < events.len() && #[trigger] events[j].weak_point_pos == #[trigger] events[l].weak_point_pos
            implies events[j].fracture_type == events[l].fracture_type && events[j].target_dimension == events[l].target_dimension by {
            if j < k && l < k {
                assert(head[j] == events[j] && head[l] == events[l]);
            } else if j < k {
                assert(head[j] == events[j]);
                assert(init.contains(head[j].weak_point_pos));
            } else if l < k {
                assert(head[l] == events[l]);
                assert(init.contains(head[l].weak_point_pos));
            }
        }
    }
}

/// At most one fracture occurs at a weak point on a day: when the weak
/// points are distinct, all events of the day at one position share their
/// fracture type and their target dimension.
pub proof fn law_one_fracture_per_point(points: Seq<ChunkPos>, rolls: Seq<FractureRolls>, day: u32, events: Seq<FractureEvent>)
    requires
        points.no_duplicates(),
        rolls.len() == points.len(),
        day_events_ok(points, Seq::new(rolls.len(), |i: int| chosen_fracture(day, rolls[i]@)), events),
    ensures
        forall|j: int, l: int|
            0 <= j < events.len() && 0 <= l < events.len() && #[trigger] events[j].weak_point_pos == #[trigger] events[l].weak_point_pos
                ==> events[j].fracture_type == events[l].fracture_type && events[j].target_dimension == events[l].target_dimension,
{
    lemma_one_fracture_per_point(points, Seq::new(rolls.len(), |i: int| chosen_fracture(day, rolls[i]@)), events);
}

/// Which fracture occurs at a weak point on `day`, given its four draws in
/// severity order (Cascade, Macro, Meso, Micro): a Cascade from day 21 when
/// its draw hit; else a Macro from day 14 when its draw hit; else a Meso from
/// day 7 when its draw hit; else a Micro from day 3 when its draw hit; else
/// none. Each type fractures on its own draw.
pub proof fn law_fracture_choice(day: u32, rolls: Seq<bool>)
    requires
        rolls.len() == 4,
    ensures
        chosen_fracture(day, rolls) == Some(FractureType::Cascade) <==> (day >= 21 && rolls[0]),
        chosen_fracture(day, rolls) == Some(FractureType::Macro) <==> (day >= 14 && rolls[1] && !(day >= 21 && rolls[0])),
        chosen_fracture(day, rolls) == Some(FractureType::Meso) <==> (day >= 7 && rolls[2] && !(day >= 14 && rolls[1])
            && !(day >= 21 && rolls[0])),
        chosen_fracture(day, rolls) == Some(FractureType::Micro) <==> (day >= 3 && rolls[3] && !(day >= 7 && rolls[2])
            && !(day >= 14 && rolls[1]) && !(day >= 21 && rolls[0])),
        chosen_fracture(day, rolls) is None <==> !(day >= 3 && rolls[3]) && !(day >= 7 && rolls[2])
            && !(day >= 14 && rolls[1]) && !(day >= 21 && rolls[0]),
{
}

} // verus!
