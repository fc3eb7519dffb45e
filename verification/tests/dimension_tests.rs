use fracture::dimension::{ChunkPos, Dimension, DimensionState};

#[test]
fn test_dimension_display() {
    assert_eq!(Dimension::Prime.name(), "Prime");
    assert_eq!(Dimension::Inverted.name(), "Inverted");
    assert_eq!(Dimension::Void.name(), "Void");
    assert_eq!(Dimension::Nexus.name(), "Nexus");
}

#[test]
fn test_dimension_default() {
    assert_eq!(Dimension::default(), Dimension::Prime);
}

#[test]
fn test_dimension_all() {
    let all = Dimension::all();
    assert_eq!(all.len(), 4);
    assert!(all.contains(&Dimension::Prime));
    assert!(all.contains(&Dimension::Inverted));
    assert!(all.contains(&Dimension::Void));
    assert!(all.contains(&Dimension::Nexus));
}

#[test]
fn test_dimension_state_new() {
    let state = DimensionState::new();
    assert_eq!(state.total_tracked(), 0);
    assert_eq!(state.get_dimension(ChunkPos::new(0, 0, 0)), Dimension::Prime);
}

#[test]
fn test_dimension_state_set_get() {
    let mut state = DimensionState::new();
    let pos = ChunkPos::new(1, 2, 3);

    // Default is Prime
    assert_eq!(state.get_dimension(pos), Dimension::Prime);

    // Set to Void
    let prev = state.set_dimension(pos, Dimension::Void);
    assert_eq!(prev, Dimension::Prime);
    assert_eq!(state.get_dimension(pos), Dimension::Void);

    // Set back to Prime
    let prev = state.set_dimension(pos, Dimension::Prime);
    assert_eq!(prev, Dimension::Void);
    assert_eq!(state.get_dimension(pos), Dimension::Prime);
}

#[test]
fn test_dimension_state_adjacent() {
    let mut state = DimensionState::new();
    let center = ChunkPos::new(0, 0, 0);

    // All neighbors are Prime by default
    let adjacent = state.get_adjacent_dimensions(center);
    assert_eq!(adjacent.len(), 1);
    assert!(adjacent.contains(&Dimension::Prime));

    // Set one neighbor to Void
    state.set_dimension(ChunkPos::new(1, 0, 0), Dimension::Void);
    let adjacent = state.get_adjacent_dimensions(center);
    assert_eq!(adjacent.len(), 2);
    assert!(adjacent.contains(&Dimension::Prime));
    assert!(adjacent.contains(&Dimension::Void));
}

#[test]
fn test_dimension_state_is_fracture_border() {
    let mut state = DimensionState::new();
    let center = ChunkPos::new(0, 0, 0);

    // Not a border when all neighbors are same dimension
    assert!(!state.is_fracture_border(center));

    // Becomes border when neighbor is different
    state.set_dimension(ChunkPos::new(1, 0, 0), Dimension::Inverted);
    assert!(state.is_fracture_border(center));
}

#[test]
fn test_dimension_state_chunks_in_dimension() {
    let mut state = DimensionState::new();

    state.set_dimension(ChunkPos::new(0, 0, 0), Dimension::Void);
    state.set_dimension(ChunkPos::new(1, 0, 0), Dimension::Void);
    state.set_dimension(ChunkPos::new(2, 0, 0), Dimension::Nexus);

    let void_chunks = state.chunks_in_dimension(Dimension::Void);
    assert_eq!(void_chunks.len(), 2);
    assert!(void_chunks.contains(&ChunkPos::new(0, 0, 0)));
    assert!(void_chunks.contains(&ChunkPos::new(1, 0, 0)));

    let nexus_chunks = state.chunks_in_dimension(Dimension::Nexus);
    assert_eq!(nexus_chunks.len(), 1);

    // Prime chunks can't be enumerated
    let prime_chunks = state.chunks_in_dimension(Dimension::Prime);
    assert!(prime_chunks.is_empty());
}

#[test]
fn test_dimension_state_count() {
    let mut state = DimensionState::new();

    state.set_dimension(ChunkPos::new(0, 0, 0), Dimension::Void);
    state.set_dimension(ChunkPos::new(1, 0, 0), Dimension::Void);
    state.set_dimension(ChunkPos::new(2, 0, 0), Dimension::Nexus);

    assert_eq!(state.dimension_count(Dimension::Void), 2);
    assert_eq!(state.dimension_count(Dimension::Nexus), 1);
    assert_eq!(state.dimension_count(Dimension::Inverted), 0);
    assert_eq!(state.total_tracked(), 3);
}

#[test]
fn dimension_state_negative_coordinates_are_distinct() {
    let mut state = DimensionState::new();
    state.set_dimension(ChunkPos::new(-1, 0, 0), Dimension::Void);
    state.set_dimension(ChunkPos::new(0, -1, 0), Dimension::Nexus);
    state.set_dimension(ChunkPos::new(0, 0, -1), Dimension::Inverted);
    assert_eq!(state.get_dimension(ChunkPos::new(-1, 0, 0)), Dimension::Void);
    assert_eq!(state.get_dimension(ChunkPos::new(0, -1, 0)), Dimension::Nexus);
    assert_eq!(state.get_dimension(ChunkPos::new(0, 0, -1)), Dimension::Inverted);
    assert_eq!(state.get_dimension(ChunkPos::new(0, 0, 0)), Dimension::Prime);
    assert_eq!(state.get_dimension(ChunkPos::new(i32::MIN, i32::MAX, -7)), Dimension::Prime);
    assert_eq!(state.total_tracked(), 3);
    // The adjacency order follows +x, -x, +y, -y, +z, -z.
    let adjacent = state.get_adjacent_dimensions(ChunkPos::new(0, 0, 0));
    assert_eq!(adjacent, vec![Dimension::Prime, Dimension::Void, Dimension::Nexus, Dimension::Inverted]);
}

#[test]
fn dimension_state_set_prime_untracks() {
    let mut state = DimensionState::new();
    let p = ChunkPos::new(4, 5, 6);
    state.set_dimension(p, Dimension::Nexus);
    assert_eq!(state.total_tracked(), 1);
    assert_eq!(state.set_dimension(p, Dimension::Nexus), Dimension::Nexus);
    assert_eq!(state.total_tracked(), 1);
    assert_eq!(state.set_dimension(p, Dimension::Prime), Dimension::Nexus);
    assert_eq!(state.total_tracked(), 0);
    assert_eq!(state.dimension_count(Dimension::Prime), 0);
    // Total is the sum of the non-Prime counts.
    state.set_dimension(ChunkPos::new(1, 1, 1), Dimension::Void);
    state.set_dimension(ChunkPos::new(2, 2, 2), Dimension::Inverted);
    let sum = state.dimension_count(Dimension::Inverted)
        + state.dimension_count(Dimension::Void)
        + state.dimension_count(Dimension::Nexus);
    assert_eq!(state.total_tracked(), sum);
}

#[test]
fn border_agrees_with_adjacent_dimensions() {
    let mut state = DimensionState::new();
    let c = ChunkPos::new(10, 10, 10);
    state.set_dimension(c, Dimension::Void);
    // All neighbours Prime: the chunk itself is Void, so it is a border.
    assert!(state.is_fracture_border(c));
    let adjacent = state.get_adjacent_dimensions(c);
    assert!(adjacent.iter().any(|d| *d != Dimension::Void));
}

#[test]
fn chunk_pos_add() {
    let p = ChunkPos::new(1, -2, 3).add(ChunkPos::new(-1, 2, 4));
    assert_eq!(p, ChunkPos::new(0, 0, 7));
}

#[test]
fn default_state_tracks_nothing() {
    let state = DimensionState::default();
    assert_eq!(state.total_tracked(), 0);
    assert_eq!(state.get_dimension(ChunkPos::new(3, 4, 5)), Dimension::Prime);
}

#[test]
fn setting_back_restores_and_same_is_noop() {
    let mut state = DimensionState::new();
    let p = ChunkPos::new(7, -7, 0);
    state.set_dimension(p, Dimension::Void);
    let previous = state.set_dimension(p, Dimension::Nexus);
    assert_eq!(previous, Dimension::Void);
    state.set_dimension(p, previous);
    assert_eq!(state.get_dimension(p), Dimension::Void);
    assert_eq!(state.total_tracked(), 1);
    let q = ChunkPos::new(1, 1, 1);
    let previous = state.set_dimension(q, Dimension::Inverted);
    state.set_dimension(q, previous);
    assert_eq!(state.get_dimension(q), Dimension::Prime);
    assert_eq!(state.total_tracked(), 1);
    state.set_dimension(p, Dimension::Void);
    assert_eq!(state.total_tracked(), 1);
    assert_eq!(state.dimension_count(Dimension::Void), 1);
}
