//! Stability batteries: the tiers of portable energy storage.

use vstd::prelude::*;

verus! {

/// Battery capacity tiers.
#[derive(Clone, Copy, Debug, PartialEq, Eq, Hash, Structural)]
pub enum StabilityBatteryTier {
    /// Small battery (100 capacity).
    Small,
    /// Medium battery (500 capacity).
    Medium,
    /// Large battery (2000 capacity).
    Large,
}

/// The display name of a battery tier.
pub open spec fn battery_tier_name(t: StabilityBatteryTier) -> Seq<char> {
    match t {
        StabilityBatteryTier::Small => "Small"@,
        StabilityBatteryTier::Medium => "Medium"@,
        StabilityBatteryTier::Large => "Large"@,
    }
}

impl StabilityBatteryTier {
    /// Get all tier variants.
    pub fn all() -> (v: Vec<StabilityBatteryTier>)
        ensures
            v@ == seq![StabilityBatteryTier::Small, StabilityBatteryTier::Medium, StabilityBatteryTier::Large],
    {
        vec![StabilityBatteryTier::Small, StabilityBatteryTier::Medium, StabilityBatteryTier::Large]
    }

    /// The display name ("Small", "Medium", "Large").
    pub fn name(&self) -> (s: &'static str)
        ensures
            s@ == battery_tier_name(*self),
    {
        match self {
            StabilityBatteryTier::Small => "Small",
            StabilityBatteryTier::Medium => "Medium",
            StabilityBatteryTier::Large => "Large",
        }
    }
}

} // verus!
