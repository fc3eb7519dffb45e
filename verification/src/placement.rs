//! Block placement preview: where the ghost block stands, whether the
//! placement there is valid, and the unit cube it is drawn with.
use vstd::prelude::*;

verus! {

/// A block position in the world.
#[derive(Clone, Copy, Debug, PartialEq, Eq, Hash, Structural)]
pub struct WorldPos {
    x: i32,
    y: i32,
    z: i32,
}

impl WorldPos {
    /// The position's coordinates.
    pub closed spec fn coords(&self) -> (i32, i32, i32) {
        (self.x, self.y, self.z)
    }

    /// Create a block position.
    pub fn new(x: i32, y: i32, z: i32) -> (p: WorldPos)
        ensures
            p.coords() == (x, y, z),
    {
        WorldPos { x, y, z }
    }

    /// The x coordinate.
    pub fn x(&self) -> (v: i32)
        ensures
            v == self.coords().0,
    {
        self.x
    }

    /// The y coordinate.
    pub fn y(&self) -> (v: i32)
        ensures
            v == self.coords().1,
    {
        self.y
    }

    /// The z coordinate.
    pub fn z(&self) -> (v: i32)
        ensures
            v == self.coords().2,
    {
        self.z
    }
}

/// The state of the placement preview.
#[derive(Clone, Copy, Debug, PartialEq, Eq, Structural)]
pub struct GhostPreview {
    /// Current preview position (None = not showing).
    preview_pos: Option<WorldPos>,
    /// Whether current placement is valid.
    is_valid: bool,
    /// Whether the preview is visible.
    visible: bool,
}

impl GhostPreview {
    /// The previewed position, if any.
    pub closed spec fn spec_pos(&self) -> Option<WorldPos> {
        self.preview_pos
    }

    /// Whether the placement is valid.
    pub closed spec fn spec_valid(&self) -> bool {
        self.is_valid
    }

    /// Whether the preview is visible.
    pub closed spec fn spec_visible(&self) -> bool {
        self.visible
    }

    /// A visible preview showing nothing yet, with a valid placement.
    pub fn new() -> (g: GhostPreview)
        ensures
            g.spec_pos() is None,
            g.spec_valid(),
            g.spec_visible(),
    {
        GhostPreview { preview_pos: None, is_valid: true, visible: true }
    }

    /// Update the preview position and validity.
    pub fn update(&mut self, preview_pos: Option<WorldPos>, is_valid: bool)
        ensures
            final(self).spec_pos() == preview_pos,
            final(self).spec_valid() == is_valid,
            final(self).spec_visible() == old(self).spec_visible(),
    {
        self.preview_pos = preview_pos;
        self.is_valid = is_valid;
    }

    /// Set visibility.
    pub fn set_visible(&mut self, visible: bool)
        ensures
            final(self).spec_pos() == old(self).spec_pos(),
            final(self).spec_valid() == old(self).spec_valid(),
            final(self).spec_visible() == visible,
    {
        self.visible = visible;
    }

    /// Get current preview position.
    pub fn preview_pos(&self) -> (p: Option<WorldPos>)
        ensures
            p == self.spec_pos(),
    {
        self.preview_pos
    }

    /// Get whether current placement is valid.
    pub fn is_valid(&self) -> (b: bool)
        ensures
            b == self.spec_valid(),
    {
        self.is_valid
    }

    /// Get whether the preview is visible.
    pub fn is_visible(&self) -> (b: bool)
        ensures
            b == self.spec_visible(),
    {
        self.visible
    }

    /// Whether there is anything to draw: the preview is visible and shows a
    /// position.
    pub fn should_render(&self) -> (b: bool)
        ensures
            b == (self.spec_visible() && self.spec_pos() is Some),
    {
        self.visible && self.preview_pos.is_some()
    }
}

/// Corner `i` of the unit cube from (0,0,0) to (1,1,1): the front face
/// (z = 0) counter-clockwise from the origin, then the back face (z = 1).
pub open spec fn cube_corner(i: int) -> (u8, u8, u8) {
    if i == 0 {
        (0, 0, 0)
    } else if i == 1 {
        (1, 0, 0)
    } else if i == 2 {
        (1, 1, 0)
    } else if i == 3 {
        (0, 1, 0)
    } else if i == 4 {
        (0, 0, 1)
    } else if i == 5 {
        (1, 0, 1)
    } else if i == 6 {
        (1, 1, 1)
    } else {
        (0, 1, 1)
    }
}

/// The four corners of face `f` of the cube: front, back, left, right, top,
/// bottom.
pub open spec fn cube_face(f: int) -> Seq<int> {
    if f == 0 {
        seq![0, 1, 2, 3]
    } else if f == 1 {
        seq![5, 4, 7, 6]
    } else if f == 2 {
        seq![4, 0, 3, 7]
    } else if f == 3 {
        seq![1, 5, 6, 2]
    } else if f == 4 {
        seq![3, 2, 6, 7]
    } else {
        seq![4, 5, 1, 0]
    }
}

/// Of the six vertices that draw a face as two triangles, which of the
/// face's four corners vertex `j` is: (a, b, c) then (a, c, d).
pub open spec fn triangle_corner(j: int) -> int {
    if j == 0 {
        0
    } else if j == 1 {
        1
    } else if j == 2 {
        2
    } else if j == 3 {
        0
    } else if j == 4 {
        2
    } else {
        3
    }
}

/// The 36 vertices of the unit cube: six faces, two triangles each.
pub open spec fn cube_vertex_seq() -> Seq<(u8, u8, u8)> {
    Seq::new(36, |k: int| cube_corner(cube_face(k / 6)[triangle_corner(k % 6)]))
}

/// Generate the vertices of the unit cube (0,0,0) to (1,1,1), six per face.
pub fn cube_vertices() -> (v: Vec<(u8, u8, u8)>)
    ensures
        v@ == cube_vertex_seq(),
        v@.len() == 36,
        forall|k: int| 0 <= k < 36 ==> (#[trigger] v@[k]).0 <= 1 && v@[k].1 <= 1 && v@[k].2 <= 1,
        forall|i: int| 0 <= i < 8 ==> v@.contains(#[trigger] cube_corner(i)),
{
    let corners: [(u8, u8, u8); 8] = [(0, 0, 0), (1, 0, 0), (1, 1, 0), (0, 1, 0), (0, 0, 1), (1, 0, 1), (1, 1, 1), (0, 1, 1)];
    let faces: [[usize; 4]; 6] = [[0, 1, 2, 3], [5, 4, 7, 6], [4, 0, 3, 7], [1, 5, 6, 2], [3, 2, 6, 7], [4, 5, 1, 0]];
    assert(forall|i: int| 0 <= i < 8 ==> #[trigger] corners@[i] == cube_corner(i));
    assert forall|f: int, c: int| 0 <= f < 6 && 0 <= c < 4 implies #[trigger] faces@[f]@[c] == cube_face(f)[c] && 0 <= cube_face(f)[c] < 8 by {}
    let mut v: Vec<(u8, u8, u8)> = Vec::new();
    let mut f: usize = 0;
    while f < 6
        invariant
            0 <= f <= 6,
            v@.len() == 6 * f,
            forall|i: int| 0 <= i < 8 ==> #[trigger] corners@[i] == cube_corner(i),
            forall|g: int, c: int| 0 <= g < 6 && 0 <= c < 4 ==> #[trigger] faces@[g]@[c] == cube_face(g)[c] && 0 <= cube_face(g)[c] < 8,
            forall|k: int| 0 <= k < v@.len() ==> #[trigger] v@[k] == cube_vertex_seq()[k],
        decreases 6 - f,
    {
        let face = faces[f];
        let a = corners[face[0]];
        let b = corners[face[1]];
        let c = corners[face[2]];
        let d = corners[face[3]];
        let ghost start = v@.len() as int;
        v.push(a);
        v.push(b);
        v.push(c);
        v.push(a);
        v.push(c);
        v.push(d);
        assert forall|k: int| 0 <= k < v@.len() implies #[trigger] v@[k] == cube_vertex_seq()[k] by {
            if k >= start {
                assert(k / 6 == f as int);
                assert(k % 6 == k - start);
                assert(faces@[f as int]@[0] == cube_face(f as int)[0]);
                assert(faces@[f as int]@[1] == cube_face(f as int)[1]);
                assert(faces@[f as int]@[2] == cube_face(f as int)[2]);
                assert(faces@[f as int]@[3] == cube_face(f as int)[3]);
            }
        }
        f += 1;
    }
    assert(v@ =~= cube_vertex_seq());
    assert(v@[0] == cube_corner(0));
    assert(v@[1] == cube_corner(1));
    assert(v@[2] == cube_corner(2));
    assert(v@[5] == cube_corner(3));
    assert(v@[6] == cube_corner(5));
    assert(v@[7] == cube_corner(4));
    assert(v@[8] == cube_corner(7));
    assert(v@[11] == cube_corner(6));
    v
}

/// Coordinate `axis` (0 = x, 1 = y, 2 = z) of a vertex.
pub open spec fn vertex_coord(p: (u8, u8, u8), axis: int) -> u8 {
    if axis == 0 {
        p.0
    } else if axis == 1 {
        p.1
    } else {
        p.2
    }
}

/// All six vertices of block `b` (vertices `6b .. 6b + 6`) have coordinate
/// `axis` equal to `side`: the block lies in that face plane of the cube.
pub open spec fn block_on_face(v: Seq<(u8, u8, u8)>, b: int, axis: int, side: u8) -> bool {
    forall|k: int| 0 <= k < 6 ==> vertex_coord(#[trigger] v[6 * b + k], axis) == side
}

/// The cube mesh covers every face exactly once: for each axis and each side
/// (0 or 1) of the unit cube, exactly one of the six blocks of six vertices
/// lies in that face plane.
pub proof fn law_cube_faces_each_once(axis: int, side: u8)
    requires
        0 <= axis < 3,
        side <= 1,
    ensures
        exists|b: int| 0 <= b < 6 && block_on_face(cube_vertex_seq(), b, axis, side),
        forall|b1: int, b2: int|
            0 <= b1 < 6 && 0 <= b2 < 6 && block_on_face(cube_vertex_seq(), b1, axis, side)
                && block_on_face(cube_vertex_seq(), b2, axis, side) ==> b1 == b2,
{
    let v = cube_vertex_seq();
    assert(v =~= seq![
        (0u8, 0u8, 0u8), (1u8, 0u8, 0u8), (1u8, 1u8, 0u8), (0u8, 0u8, 0u8), (1u8, 1u8, 0u8), (0u8, 1u8, 0u8),
        (1u8, 0u8, 1u8), (0u8, 0u8, 1u8), (0u8, 1u8, 1u8), (1u8, 0u8, 1u8), (0u8, 1u8, 1u8), (1u8, 1u8, 1u8),
        (0u8, 0u8, 1u8), (0u8, 0u8, 0u8), (0u8, 1u8, 0u8), (0u8, 0u8, 1u8), (0u8, 1u8, 0u8), (0u8, 1u8, 1u8),
        (1u8, 0u8, 0u8), (1u8, 0u8, 1u8), (1u8, 1u8, 1u8), (1u8, 0u8, 0u8), (1u8, 1u8, 1u8), (1u8, 1u8, 0u8),
        (0u8, 1u8, 0u8), (1u8, 1u8, 0u8), (1u8, 1u8, 1u8), (0u8, 1u8, 0u8), (1u8, 1u8, 1u8), (0u8, 1u8, 1u8),
        (0u8, 0u8, 1u8), (1u8, 0u8, 1u8), (1u8, 0u8, 0u8), (0u8, 0u8, 1u8), (1u8, 0u8, 0u8), (0u8, 0u8, 0u8),
    ]);
    // The block of each face: z = 0, z = 1, x = 0, x = 1, y = 1, y = 0.
    let face_block: int = if axis == 2 {
        if side == 0 { 0 } else { 1 }
    } else if axis == 0 {
        if side == 0 { 2 } else { 3 }
    } else {
        if side == 1 { 4 } else { 5 }
    };
    assert(block_on_face(v, face_block, axis, side)) by {
        assert forall|k: int| 0 <= k < 6 implies vertex_coord(#[trigger] v[6 * face_block + k], axis) == side by {
            assert(0 <= k < 6);
        }
    }
    assert forall|b: int| 0 <= b < 6 && b != face_block implies !block_on_face(v, b, axis, side) by {
        if block_on_face(v, b, axis, side) {
            assert(vertex_coord(v[6 * b + 0], axis) == side);
            assert(vertex_coord(v[6 * b + 1], axis) == side);
            assert(vertex_coord(v[6 * b + 2], axis) == side);
            assert(vertex_coord(v[6 * b + 3], axis) == side);
            assert(vertex_coord(v[6 * b + 4], axis) == side);
            assert(vertex_coord(v[6 * b + 5], axis) == side);
        }
    }
}

} // verus!
