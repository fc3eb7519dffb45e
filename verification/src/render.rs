//! Which dimension-specific visual effects apply: ghost blocks across
//! dimension boundaries, star skies, and fracture screen shake.

use crate::dimension::Dimension;
use crate::fractures::FractureType;
use vstd::prelude::*;

verus! {

/// Ghost block renderer: shows semi-transparent blocks of adjacent dimensions.
#[derive(Clone, Copy, Debug, Default, PartialEq, Eq, Structural)]
pub struct GhostBlockRenderer;

impl GhostBlockRenderer {
    /// Create a new ghost block renderer.
    pub fn new() -> (r: GhostBlockRenderer)
        ensures
            r == GhostBlockRenderer,
    {
        GhostBlockRenderer
    }

    /// Check if ghost blocks should be rendered between two dimensions: only
    /// across a dimension boundary.
    pub fn should_render_ghost(&self, dim: Dimension, neighbor_dim: Dimension) -> (b: bool)
        ensures
            b == (dim != neighbor_dim),
    {
        dim != neighbor_dim
    }

    /// Check if a ghost block should have a glowing effect (Inverted, Nexus).
    pub fn should_glow(&self, dim: Dimension) -> (b: bool)
        ensures
            b == (dim == Dimension::Inverted || dim == Dimension::Nexus),
    {
        match dim {
            Dimension::Inverted | Dimension::Nexus => true,
            _ => false,
        }
    }

    /// Check if blocks should be rendered as wireframe ghosts (Void only).
    pub fn use_wireframe(&self, dim: Dimension) -> (b: bool)
        ensures
            b == (dim == Dimension::Void),
    {
        match dim {
            Dimension::Void => true,
            _ => false,
        }
    }
}

/// Check if ghost should render between dimensions (standalone function).
pub fn should_render_ghost(dim: Dimension, neighbor_dim: Dimension) -> (b: bool)
    ensures
        b == (dim != neighbor_dim),
{
    GhostBlockRenderer::new().should_render_ghost(dim, neighbor_dim)
}

/// Phase shift visual effects handler.
#[derive(Clone, Copy, Debug, Default, PartialEq, Eq, Structural)]
pub struct PhaseShiftVisuals;

impl PhaseShiftVisuals {
    /// Create a new phase shift visuals handler.
    pub fn new() -> (v: PhaseShiftVisuals)
        ensures
            v == PhaseShiftVisuals,
    {
        PhaseShiftVisuals
    }
}

/// Fracture visual effects handler.
#[derive(Clone, Copy, Debug, Default, PartialEq, Eq, Structural)]
pub struct FractureVisuals;

impl FractureVisuals {
    /// Create a new fracture visuals handler.
    pub fn new() -> (v: FractureVisuals)
        ensures
            v == FractureVisuals,
    {
        FractureVisuals
    }

    /// Check if screen shake should occur: for every fracture but a Micro one.
    pub fn has_screen_shake(&self, ftype: FractureType) -> (b: bool)
        ensures
            b == (ftype != FractureType::Micro),
    {
        match ftype {
            FractureType::Micro => false,
            _ => true,
        }
    }
}

/// Visual effects handler for dimensions.
#[derive(Clone, Copy, Debug, Default, PartialEq, Eq, Structural)]
pub struct DimensionVisuals;

impl DimensionVisuals {
    /// Create a new dimension visuals handler.
    pub fn new() -> (v: DimensionVisuals)
        ensures
            v == DimensionVisuals,
    {
        DimensionVisuals
    }

    /// Check if stars should be visible in this dimension (Void, Nexus).
    pub fn has_stars(&self, dim: Dimension) -> (b: bool)
        ensures
            b == (dim == Dimension::Void || dim == Dimension::Nexus),
    {
        match dim {
            Dimension::Void | Dimension::Nexus => true,
            _ => false,
        }
    }
}

} // verus!
