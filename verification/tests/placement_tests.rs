use fracture::placement::{cube_vertices, GhostPreview, WorldPos};

#[test]
fn test_cube_vertices_count() {
    let vertices = cube_vertices();
    assert_eq!(vertices.len(), 36, "Cube should have 36 vertices");
}

#[test]
fn test_cube_vertices_in_bounds() {
    for v in &cube_vertices() {
        assert!(v.0 <= 1, "X out of bounds: {}", v.0);
        assert!(v.1 <= 1, "Y out of bounds: {}", v.1);
        assert!(v.2 <= 1, "Z out of bounds: {}", v.2);
    }
}

#[test]
fn test_cube_has_all_corners() {
    let positions = cube_vertices();
    let corners = [(0, 0, 0), (1, 0, 0), (1, 1, 0), (0, 1, 0), (0, 0, 1), (1, 0, 1), (1, 1, 1), (0, 1, 1)];
    for corner in &corners {
        assert!(positions.iter().any(|p| p == corner), "Corner {:?} should appear in cube vertices", corner);
    }
}

#[test]
fn cube_front_face_triangles() {
    let v = cube_vertices();
    assert_eq!(&v[0..6], &[(0, 0, 0), (1, 0, 0), (1, 1, 0), (0, 0, 0), (1, 1, 0), (0, 1, 0)]);
    assert_eq!(&v[30..36], &[(0, 0, 1), (1, 0, 1), (1, 0, 0), (0, 0, 1), (1, 0, 0), (0, 0, 0)]);
}

#[test]
fn test_ghost_update_sets_position() {
    let mut state = GhostPreview::new();
    let pos = WorldPos::new(5, 10, 15);
    state.update(Some(pos), true);
    assert_eq!(state.preview_pos(), Some(pos));
    assert!(state.is_valid());
    state.update(Some(pos), false);
    assert!(!state.is_valid());
}

#[test]
fn test_ghost_visibility() {
    let mut state = GhostPreview::new();
    assert!(state.is_visible());
    state.set_visible(false);
    assert!(!state.is_visible());
}

#[test]
fn test_ghost_no_preview() {
    let mut state = GhostPreview::new();
    assert_eq!(state.preview_pos(), None);
    state.update(None, false);
    assert_eq!(state.preview_pos(), None);
}

#[test]
fn ghost_should_render_needs_position_and_visibility() {
    let mut state = GhostPreview::new();
    assert!(!state.should_render());
    state.update(Some(WorldPos::new(-1, 2, -3)), false);
    assert!(state.should_render());
    state.set_visible(false);
    assert!(!state.should_render());
    let p = state.preview_pos().unwrap();
    assert_eq!((p.x(), p.y(), p.z()), (-1, 2, -3));
}
