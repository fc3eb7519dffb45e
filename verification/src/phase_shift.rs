//! Phase shifting between dimensions: the cost tiers and the outcomes of an
//! attempted shift.

use crate::dimension::Dimension;
use crate::hud::{dimension_icon, dimension_label};
use vstd::prelude::*;

verus! {

/// Energy cost tiers for phase shifting.
#[derive(Clone, Copy, Debug, PartialEq, Eq, Structural)]
pub enum PhaseShiftCost {
    /// Low cost shift (10 energy).
    Low,
    /// Medium cost shift (25 energy).
    Medium,
    /// High cost shift (50 energy).
    High,
}

/// How a cost tier is displayed.
pub open spec fn cost_label(c: PhaseShiftCost) -> Seq<char> {
    match c {
        PhaseShiftCost::Low => "Low (10)"@,
        PhaseShiftCost::Medium => "Medium (25)"@,
        PhaseShiftCost::High => "High (50)"@,
    }
}

impl PhaseShiftCost {
    /// The display text ("Low (10)", "Medium (25)", "High (50)").
    pub fn label(&self) -> (s: &'static str)
        ensures
            s@ == cost_label(*self),
    {
        match self {
            PhaseShiftCost::Low => "Low (10)",
            PhaseShiftCost::Medium => "Medium (25)",
            PhaseShiftCost::High => "High (50)",
        }
    }
}

/// Result of attempting a phase shift.
#[derive(Clone, Copy, Debug, PartialEq, Eq, Structural)]
pub enum PhaseShiftResult {
    /// Shift completed successfully.
    Success,
    /// Not enough energy to shift.
    InsufficientEnergy,
    /// Sickness level too high to shift safely.
    SicknessTooHigh,
    /// Still on cooldown from previous shift.
    CooldownActive,
}

/// How a result is displayed.
pub open spec fn result_label(r: PhaseShiftResult) -> Seq<char> {
    match r {
        PhaseShiftResult::Success => "Success"@,
        PhaseShiftResult::InsufficientEnergy => "InsufficientEnergy"@,
        PhaseShiftResult::SicknessTooHigh => "SicknessTooHigh"@,
        PhaseShiftResult::CooldownActive => "CooldownActive"@,
    }
}

impl PhaseShiftResult {
    /// The display text: the variant's name.
    pub fn label(&self) -> (s: &'static str)
        ensures
            s@ == result_label(*self),
    {
        match self {
            PhaseShiftResult::Success => "Success",
            PhaseShiftResult::InsufficientEnergy => "InsufficientEnergy",
            PhaseShiftResult::SicknessTooHigh => "SicknessTooHigh",
            PhaseShiftResult::CooldownActive => "CooldownActive",
        }
    }
}

/// The outcome of a shift attempt from its three checks, made in this order:
/// an active cooldown blocks first, then too little energy, then too much
/// sickness; if none blocks, the shift succeeds.
pub open spec fn shift_outcome(cooldown_active: bool, energy_sufficient: bool, sickness_too_high: bool) -> PhaseShiftResult {
    if cooldown_active {
        PhaseShiftResult::CooldownActive
    } else if !energy_sufficient {
        PhaseShiftResult::InsufficientEnergy
    } else if sickness_too_high {
        PhaseShiftResult::SicknessTooHigh
    } else {
        PhaseShiftResult::Success
    }
}

/// Decide the outcome of a shift attempt from its three checks (see
/// [`shift_outcome`]).
pub fn decide_shift(cooldown_active: bool, energy_sufficient: bool, sickness_too_high: bool) -> (r: PhaseShiftResult)
    ensures
        r == shift_outcome(cooldown_active, energy_sufficient, sickness_too_high),
{
    if cooldown_active {
        PhaseShiftResult::CooldownActive
    } else if !energy_sufficient {
        PhaseShiftResult::InsufficientEnergy
    } else if sickness_too_high {
        PhaseShiftResult::SicknessTooHigh
    } else {
        PhaseShiftResult::Success
    }
}

/// The part of a player's phase shift state that is not timed: the dimension
/// the player is in and how many shifts have succeeded. The cooldown clock
/// lives beside it and is handed in as whether a cooldown is running.
#[derive(Clone, Copy, Debug, PartialEq, Eq, Structural)]
pub struct PhaseShiftState {
    /// Current dimension the player is in.
    current_dimension: Dimension,
    /// Total number of shifts performed.
    total_shifts: u32,
}

impl PhaseShiftState {
    /// The dimension the player is in.
    pub closed spec fn spec_dimension(&self) -> Dimension {
        self.current_dimension
    }

    /// The number of successful shifts.
    pub closed spec fn spec_shifts(&self) -> u32 {
        self.total_shifts
    }

    /// Start in Prime with no shifts made.
    pub fn new() -> (s: PhaseShiftState)
        ensures
            s.spec_dimension() == Dimension::Prime,
            s.spec_shifts() == 0,
    {
        PhaseShiftState { current_dimension: Dimension::Prime, total_shifts: 0 }
    }

    /// Attempt to shift to `target`. The checks are made in the order of
    /// [`shift_outcome`]; on success the player moves to `target` and the
    /// shift count grows by one, otherwise nothing changes.
    pub fn shift_to(&mut self, target: Dimension, cooldown_active: bool, energy_sufficient: bool, sickness_too_high: bool) -> (r: PhaseShiftResult)
        requires
            shift_outcome(cooldown_active, energy_sufficient, sickness_too_high) == PhaseShiftResult::Success
                ==> old(self).spec_shifts() < u32::MAX,
        ensures
            r == shift_outcome(cooldown_active, energy_sufficient, sickness_too_high),
            r == PhaseShiftResult::Success ==> final(self).spec_dimension() == target
                && final(self).spec_shifts() == old(self).spec_shifts() + 1,
            r != PhaseShiftResult::Success ==> *final(self) == *old(self),
    {
        let r = decide_shift(cooldown_active, energy_sufficient, sickness_too_high);
        match r {
            PhaseShiftResult::Success => {
                self.current_dimension = target;
                self.total_shifts = self.total_shifts + 1;
            },
            _ => {},
        }
        r
    }

    /// Get the current dimension.
    pub fn current_dimension(&self) -> (d: Dimension)
        ensures
            d == self.spec_dimension(),
    {
        self.current_dimension
    }

    /// Get total number of shifts performed.
    pub fn shift_count(&self) -> (n: u32)
        ensures
            n == self.spec_shifts(),
    {
        self.total_shifts
    }

    /// Reset to the initial state: Prime, no shifts.
    pub fn reset(&mut self)
        ensures
            final(self).spec_dimension() == Dimension::Prime,
            final(self).spec_shifts() == 0,
    {
        self.current_dimension = Dimension::Prime;
        self.total_shifts = 0;
    }

    /// The display label of the current dimension ("PRIME", ...).
    pub fn display_label(&self) -> (s: &'static str)
        ensures
            s@ == dimension_label(self.spec_dimension()),
    {
        match self.current_dimension {
            Dimension::Prime => "PRIME",
            Dimension::Inverted => "INVERTED",
            Dimension::Void => "VOID",
            Dimension::Nexus => "NEXUS",
        }
    }

    /// The icon name of the current dimension.
    pub fn icon(&self) -> (s: &'static str)
        ensures
            s@ == dimension_icon(self.spec_dimension()),
    {
        match self.current_dimension {
            Dimension::Prime => "icon_dimension_prime",
            Dimension::Inverted => "icon_dimension_inverted",
            Dimension::Void => "icon_dimension_void",
            Dimension::Nexus => "icon_dimension_nexus",
        }
    }
}

impl Default for PhaseShiftState {
    fn default() -> (s: Self)
        ensures
            s.spec_dimension() == Dimension::Prime,
            s.spec_shifts() == 0,
    {
        Self::new()
    }
}

} // verus!
