//! HUD state: the dimension indicator and the sickness levels.

use crate::dimension::Dimension;
use vstd::prelude::*;

verus! {

/// The label shown for a dimension.
pub open spec fn dimension_label(d: Dimension) -> Seq<char> {
    match d {
        Dimension::Prime => "PRIME"@,
        Dimension::Inverted => "INVERTED"@,
        Dimension::Void => "VOID"@,
        Dimension::Nexus => "NEXUS"@,
    }
}

/// The icon shown for a dimension.
pub open spec fn dimension_icon(d: Dimension) -> Seq<char> {
    match d {
        Dimension::Prime => "icon_dimension_prime"@,
        Dimension::Inverted => "icon_dimension_inverted"@,
        Dimension::Void => "icon_dimension_void"@,
        Dimension::Nexus => "icon_dimension_nexus"@,
    }
}

/// Display state for the dimension indicator.
#[derive(Clone, Copy, Debug, PartialEq, Eq, Structural)]
pub struct DimensionIndicatorDisplay {
    /// Current dimension.
    current_dim: Dimension,
}

impl DimensionIndicatorDisplay {
    /// The dimension shown.
    pub closed spec fn spec_dimension(&self) -> Dimension {
        self.current_dim
    }

    /// Create a new dimension indicator display, showing Prime.
    pub fn new() -> (d: DimensionIndicatorDisplay)
        ensures
            d.spec_dimension() == Dimension::Prime,
    {
        DimensionIndicatorDisplay { current_dim: Dimension::Prime }
    }

    /// Update the display with a new dimension.
    pub fn update(&mut self, dim: Dimension)
        ensures
            final(self).spec_dimension() == dim,
    {
        self.current_dim = dim;
    }

    /// Get the current dimension.
    pub fn current_dimension(&self) -> (d: Dimension)
        ensures
            d == self.spec_dimension(),
    {
        self.current_dim
    }

    /// Get the display label for the current dimension.
    pub fn label(&self) -> (s: &'static str)
        ensures
            s@ == dimension_label(self.spec_dimension()),
    {
        match self.current_dim {
            Dimension::Prime => "PRIME",
            Dimension::Inverted => "INVERTED",
            Dimension::Void => "VOID",
            Dimension::Nexus => "NEXUS",
        }
    }

    /// Get the icon name for the current dimension.
    pub fn icon(&self) -> (s: &'static str)
        ensures
            s@ == dimension_icon(self.spec_dimension()),
    {
        match self.current_dim {
            Dimension::Prime => "icon_dimension_prime",
            Dimension::Inverted => "icon_dimension_inverted",
            Dimension::Void => "icon_dimension_void",
            Dimension::Nexus => "icon_dimension_nexus",
        }
    }

    /// Check if an alert should be shown (non-Prime dimension).
    pub fn should_show_alert(&self) -> (b: bool)
        ensures
            b == (self.spec_dimension() != Dimension::Prime),
    {
        match self.current_dim {
            Dimension::Prime => false,
            _ => true,
        }
    }
}

impl Default for DimensionIndicatorDisplay {
    fn default() -> (d: Self)
        ensures
            d.spec_dimension() == Dimension::Prime,
    {
        Self::new()
    }
}

/// Sickness severity levels.
#[derive(Clone, Copy, Debug, PartialEq, Eq, Structural)]
pub enum SicknessLevel {
    /// No sickness (0).
    NoSickness,
    /// Mild sickness (1-25).
    Mild,
    /// Moderate sickness (26-50).
    Moderate,
    /// Severe sickness (51-75).
    Severe,
    /// Critical sickness (76-100).
    Critical,
}

/// The warning shown at a sickness level, if any.
pub open spec fn sickness_warning(l: SicknessLevel) -> Option<Seq<char>> {
    match l {
        SicknessLevel::NoSickness => None,
        SicknessLevel::Mild => Some("Mild disorientation"@),
        SicknessLevel::Moderate => Some("Vision impaired"@),
        SicknessLevel::Severe => Some("Hallucinations occurring"@),
        SicknessLevel::Critical => Some("CRITICAL - Return to Prime!"@),
    }
}

/// The icon shown at a sickness level.
pub open spec fn sickness_icon(l: SicknessLevel) -> Seq<char> {
    match l {
        SicknessLevel::NoSickness => "icon_sickness_none"@,
        SicknessLevel::Mild => "icon_sickness_mild"@,
        SicknessLevel::Moderate => "icon_sickness_moderate"@,
        SicknessLevel::Severe => "icon_sickness_severe"@,
        SicknessLevel::Critical => "icon_sickness_critical"@,
    }
}

impl SicknessLevel {
    /// The warning text for this level; none when there is no sickness.
    pub fn warning_text(&self) -> (t: Option<&'static str>)
        ensures
            t is None <==> sickness_warning(*self) is None,
            t matches Some(s) ==> sickness_warning(*self) == Some(s@),
    {
        match self {
            SicknessLevel::NoSickness => None,
            SicknessLevel::Mild => Some("Mild disorientation"),
            SicknessLevel::Moderate => Some("Vision impaired"),
            SicknessLevel::Severe => Some("Hallucinations occurring"),
            SicknessLevel::Critical => Some("CRITICAL - Return to Prime!"),
        }
    }

    /// Whether this level calls for a warning: any sickness at all.
    pub fn is_warning(&self) -> (b: bool)
        ensures
            b == (*self != SicknessLevel::NoSickness),
    {
        match self {
            SicknessLevel::NoSickness => false,
            _ => true,
        }
    }

    /// Whether this level is dangerous: Severe or Critical.
    pub fn is_danger(&self) -> (b: bool)
        ensures
            b == (*self == SicknessLevel::Severe || *self == SicknessLevel::Critical),
    {
        match self {
            SicknessLevel::Severe | SicknessLevel::Critical => true,
            _ => false,
        }
    }

    /// The icon name for this level.
    pub fn icon(&self) -> (s: &'static str)
        ensures
            s@ == sickness_icon(*self),
    {
        match self {
            SicknessLevel::NoSickness => "icon_sickness_none",
            SicknessLevel::Mild => "icon_sickness_mild",
            SicknessLevel::Moderate => "icon_sickness_moderate",
            SicknessLevel::Severe => "icon_sickness_severe",
            SicknessLevel::Critical => "icon_sickness_critical",
        }
    }
}

/// The text of a fracture warning level (0 none, 1 low, 2 medium, 3 and
/// above high).
pub open spec fn warning_level_text(level: u8) -> Seq<char> {
    if level == 0 {
        ""@
    } else if level == 1 {
        "Dimensional instability detected"@
    } else if level == 2 {
        "Fracture forming nearby"@
    } else {
        "IMMINENT FRACTURE - SEEK SHELTER"@
    }
}

/// The warning text of a fracture warning level.
pub fn fracture_warning_text(level: u8) -> (s: &'static str)
    ensures
        s@ == warning_level_text(level),
{
    match level {
        0 => "",
        1 => "Dimensional instability detected",
        2 => "Fracture forming nearby",
        _ => "IMMINENT FRACTURE - SEEK SHELTER",
    }
}

/// The anchor status icon: inactive when no anchor is active, a warning
/// when one is low on fuel, active otherwise.
pub open spec fn anchor_icon(active_anchors: u32, any_low_fuel: bool) -> Seq<char> {
    if active_anchors == 0 {
        "icon_anchor_inactive"@
    } else if any_low_fuel {
        "icon_anchor_warning"@
    } else {
        "icon_anchor_active"@
    }
}

/// The icon name for the anchor status.
pub fn anchor_status_icon(active_anchors: u32, any_low_fuel: bool) -> (s: &'static str)
    ensures
        s@ == anchor_icon(active_anchors, any_low_fuel),
{
    if active_anchors == 0 {
        "icon_anchor_inactive"
    } else if any_low_fuel {
        "icon_anchor_warning"
    } else {
        "icon_anchor_active"
    }
}

/// Whether anchors are providing protection: at least one is active and
/// none is low on fuel.
pub fn anchors_protected(active_anchors: u32, any_low_fuel: bool) -> (b: bool)
    ensures
        b == (active_anchors > 0 && !any_low_fuel),
{
    active_anchors > 0 && !any_low_fuel
}

} // verus!
