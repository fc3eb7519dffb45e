//! Hostile and passive creatures of the dimensional fracture gameplay.

use vstd::prelude::*;

verus! {

broadcast use vstd::string::group_string_axioms;

// ---------------------------------------------------------------------------
// Hostile creatures

/// Types of hostile creatures in Fracture.
#[derive(Clone, Copy, Debug, PartialEq, Eq, Hash, Structural)]
pub enum HostileType {
    /// Phase-shifting predator that attacks from other dimensions.
    ShadowWalker,
    /// Slow but powerful volcanic creature with area damage.
    MagmaCrawler,
    /// Fast serpent that explodes into shrapnel on death.
    CrystalSerpent,
    /// Ethereal creature that pulls victims toward the void.
    VoidWraith,
    /// Massive beast that shifts attack patterns between dimensions.
    NexusBeast,
}

/// Base HP of a hostile creature type.
pub open spec fn hostile_base_hp(t: HostileType) -> u32 {
    match t {
        HostileType::ShadowWalker => 100,
        HostileType::MagmaCrawler => 150,
        HostileType::CrystalSerpent => 120,
        HostileType::VoidWraith => 80,
        HostileType::NexusBeast => 300,
    }
}

/// Base damage of a hostile creature type.
pub open spec fn hostile_base_damage(t: HostileType) -> u32 {
    match t {
        HostileType::ShadowWalker => 18,
        HostileType::MagmaCrawler => 22,
        HostileType::CrystalSerpent => 15,
        HostileType::VoidWraith => 12,
        HostileType::NexusBeast => 30,
    }
}

/// The special ability of a hostile creature type.
pub open spec fn hostile_ability(t: HostileType) -> Seq<char> {
    match t {
        HostileType::ShadowWalker => "phase_strike"@,
        HostileType::MagmaCrawler => "lava_splash"@,
        HostileType::CrystalSerpent => "crystal_shatter"@,
        HostileType::VoidWraith => "void_pull"@,
        HostileType::NexusBeast => "dimension_shift"@,
    }
}

/// The display name of a hostile creature type.
pub open spec fn hostile_name(t: HostileType) -> Seq<char> {
    match t {
        HostileType::ShadowWalker => "Shadow Walker"@,
        HostileType::MagmaCrawler => "Magma Crawler"@,
        HostileType::CrystalSerpent => "Crystal Serpent"@,
        HostileType::VoidWraith => "Void Wraith"@,
        HostileType::NexusBeast => "Nexus Beast"@,
    }
}

impl HostileType {
    /// Get base HP for this creature type.
    pub fn base_hp(&self) -> (hp: u32)
        ensures
            hp == hostile_base_hp(*self),
    {
        match self {
            HostileType::ShadowWalker => 100,
            HostileType::MagmaCrawler => 150,
            HostileType::CrystalSerpent => 120,
            HostileType::VoidWraith => 80,
            HostileType::NexusBeast => 300,
        }
    }

    /// Get base damage for this creature type.
    pub fn base_damage(&self) -> (d: u32)
        ensures
            d == hostile_base_damage(*self),
    {
        match self {
            HostileType::ShadowWalker => 18,
            HostileType::MagmaCrawler => 22,
            HostileType::CrystalSerpent => 15,
            HostileType::VoidWraith => 12,
            HostileType::NexusBeast => 30,
        }
    }

    /// Get the special ability name for this creature type.
    pub fn special_ability(&self) -> (s: &'static str)
        ensures
            s@ == hostile_ability(*self),
    {
        match self {
            HostileType::ShadowWalker => "phase_strike",
            HostileType::MagmaCrawler => "lava_splash",
            HostileType::CrystalSerpent => "crystal_shatter",
            HostileType::VoidWraith => "void_pull",
            HostileType::NexusBeast => "dimension_shift",
        }
    }

    /// Get display name for this creature type.
    pub fn display_name(&self) -> (s: &'static str)
        ensures
            s@ == hostile_name(*self),
    {
        match self {
            HostileType::ShadowWalker => "Shadow Walker",
            HostileType::MagmaCrawler => "Magma Crawler",
            HostileType::CrystalSerpent => "Crystal Serpent",
            HostileType::VoidWraith => "Void Wraith",
            HostileType::NexusBeast => "Nexus Beast",
        }
    }
}

/// Result of using a special ability.
#[derive(Clone, Debug)]
pub struct AbilityResult {
    /// Whether the ability was successfully used.
    pub success: bool,
    /// Damage dealt by the ability.
    pub damage: u32,
    /// Area of effect radius in whole blocks (0 for single target).
    pub area_radius: u32,
    /// Description of the effect.
    pub effect: String,
}

impl AbilityResult {
    /// Create a new ability result.
    pub fn new(success: bool, damage: u32, area_radius: u32, effect: String) -> (r: AbilityResult)
        ensures
            r.success == success,
            r.damage == damage,
            r.area_radius == area_radius,
            r.effect@ == effect@,
    {
        AbilityResult { success, damage, area_radius, effect }
    }

    /// Create a failed ability result: no success, no damage, no area, no effect.
    pub fn failed() -> (r: AbilityResult)
        ensures
            !r.success,
            r.damage == 0,
            r.area_radius == 0,
            r.effect@ == Seq::<char>::empty(),
    {
        AbilityResult { success: false, damage: 0, area_radius: 0, effect: String::new() }
    }
}

/// The damage a creature's special ability deals, given its attack damage.
pub open spec fn ability_damage(t: HostileType, damage: u32) -> int {
    match t {
        HostileType::ShadowWalker => damage + 10,
        HostileType::MagmaCrawler => (damage / 2) as int,
        HostileType::CrystalSerpent => damage as int,
        HostileType::VoidWraith => 0,
        HostileType::NexusBeast => damage + 20,
    }
}

/// The area radius (in blocks) of a creature's special ability.
pub open spec fn ability_radius(t: HostileType) -> u32 {
    match t {
        HostileType::ShadowWalker => 0,
        HostileType::MagmaCrawler => 5,
        HostileType::CrystalSerpent => 3,
        HostileType::VoidWraith => 8,
        HostileType::NexusBeast => 0,
    }
}

/// The description of a creature's special ability.
pub open spec fn ability_effect(t: HostileType) -> Seq<char> {
    match t {
        HostileType::ShadowWalker => "Attacks from another dimension, bypassing defenses"@,
        HostileType::MagmaCrawler => "Splashes lava in an area, dealing burn damage"@,
        HostileType::CrystalSerpent => "Shatters into crystal shrapnel on death"@,
        HostileType::VoidWraith => "Pulls target toward the void dimension"@,
        HostileType::NexusBeast => "Shifts to a different dimension, changing attack pattern"@,
    }
}

/// A hostile creature instance.
///
/// Its movement speed depends on its type alone (see the application layer).
#[derive(Debug)]
pub struct HostileCreature {
    /// Type of this creature.
    creature_type: HostileType,
    /// Current HP.
    hp: u32,
    /// Maximum HP.
    max_hp: u32,
    /// Attack damage.
    damage: u32,
    /// Special ability name.
    special_ability: String,
    /// Whether the creature is active (not stunned/disabled).
    active: bool,
}

impl HostileCreature {
    #[verifier::type_invariant]
    closed spec fn wf(self) -> bool {
        &&& self.hp <= self.max_hp
        &&& self.max_hp == hostile_base_hp(self.creature_type)
        &&& self.damage == hostile_base_damage(self.creature_type)
        &&& self.special_ability@ == hostile_ability(self.creature_type)
    }

    /// The creature's type.
    pub closed spec fn spec_type(&self) -> HostileType {
        self.creature_type
    }

    /// Current HP.
    pub closed spec fn spec_hp(&self) -> u32 {
        self.hp
    }

    /// Whether the creature is active.
    pub closed spec fn spec_active(&self) -> bool {
        self.active
    }

    /// Maximum HP: the base HP of its type.
    pub open spec fn spec_max_hp(&self) -> u32 {
        hostile_base_hp(self.spec_type())
    }

    /// Attack damage: the base damage of its type.
    pub open spec fn spec_damage(&self) -> u32 {
        hostile_base_damage(self.spec_type())
    }

    /// Create a new hostile creature of the given type, at full HP and active.
    pub fn new(creature_type: HostileType) -> (c: HostileCreature)
        ensures
            c.spec_type() == creature_type,
            c.spec_hp() == hostile_base_hp(creature_type),
            c.spec_active(),
    {
        let max_hp = creature_type.base_hp();
        let ability = creature_type.special_ability().to_string();
        HostileCreature {
            creature_type,
            hp: max_hp,
            max_hp,
            damage: creature_type.base_damage(),
            special_ability: ability,
            active: true,
        }
    }

    /// Get the creature type.
    pub fn creature_type(&self) -> (t: HostileType)
        ensures
            t == self.spec_type(),
    {
        self.creature_type
    }

    /// Get current HP, which never exceeds the maximum.
    pub fn hp(&self) -> (hp: u32)
        ensures
            hp == self.spec_hp(),
            hp <= self.spec_max_hp(),
    {
        proof { use_type_invariant(self); }
        self.hp
    }

    /// Get maximum HP.
    pub fn max_hp(&self) -> (hp: u32)
        ensures
            hp == self.spec_max_hp(),
    {
        proof { use_type_invariant(self); }
        self.max_hp
    }

    /// Get attack damage.
    pub fn damage(&self) -> (d: u32)
        ensures
            d == self.spec_damage(),
    {
        proof { use_type_invariant(self); }
        self.damage
    }

    /// Get the special ability name.
    pub fn special_ability(&self) -> (s: &str)
        ensures
            s@ == hostile_ability(self.spec_type()),
    {
        proof { use_type_invariant(self); }
        self.special_ability.as_str()
    }

    /// Check if the creature is active.
    pub fn is_active(&self) -> (b: bool)
        ensures
            b == self.spec_active(),
    {
        self.active
    }

    /// Set active state.
    pub fn set_active(&mut self, active: bool)
        ensures
            final(self).spec_active() == active,
            final(self).spec_hp() == old(self).spec_hp(),
            final(self).spec_type() == old(self).spec_type(),
    {
        proof { use_type_invariant(&*self); }
        self.active = active;
    }

    /// Check if the creature is alive.
    pub fn is_alive(&self) -> (b: bool)
        ensures
            b == (self.spec_hp() > 0),
    {
        self.hp > 0
    }

    /// Apply damage to the creature, never below 0 HP.
    ///
    /// Returns the actual damage dealt.
    pub fn take_damage(&mut self, amount: u32) -> (dealt: u32)
        ensures
            dealt == if amount < old(self).spec_hp() { amount } else { old(self).spec_hp() },
            final(self).spec_hp() == old(self).spec_hp() - dealt,
            final(self).spec_type() == old(self).spec_type(),
            final(self).spec_active() == old(self).spec_active(),
    {
        proof { use_type_invariant(&*self); }
        let actual = if amount < self.hp { amount } else { self.hp };
        self.hp = self.hp - actual;
        actual
    }

    /// Perform a basic attack.
    ///
    /// Returns the damage dealt (0 if inactive or dead).
    pub fn attack(&self) -> (d: u32)
        ensures
            d == if self.spec_hp() > 0 && self.spec_active() { self.spec_damage() } else { 0 },
    {
        proof { use_type_invariant(self); }
        if self.is_alive() && self.active {
            self.damage
        } else {
            0
        }
    }

    /// Use the creature's special ability.
    ///
    /// A dead or inactive creature fails; otherwise the ability succeeds with
    /// the damage, area radius and effect of its type.
    pub fn use_ability(&self) -> (r: AbilityResult)
        ensures
            r.success == (self.spec_hp() > 0 && self.spec_active()),
            r.success ==> {
                &&& r.damage == ability_damage(self.spec_type(), self.spec_damage())
                &&& r.area_radius == ability_radius(self.spec_type())
                &&& r.effect@ == ability_effect(self.spec_type())
            },
            !r.success ==> r.damage == 0 && r.area_radius == 0 && r.effect@ == Seq::<char>::empty(),
    {
        proof { use_type_invariant(self); }
        if !self.is_alive() || !self.active {
            return AbilityResult::failed();
        }
        match self.creature_type {
            HostileType::ShadowWalker => AbilityResult::new(
                true,
                self.damage + 10,
                0,
                "Attacks from another dimension, bypassing defenses".to_string(),
            ),
            HostileType::MagmaCrawler => AbilityResult::new(
                true,
                self.damage / 2,
                5,
                "Splashes lava in an area, dealing burn damage".to_string(),
            ),
            HostileType::CrystalSerpent => AbilityResult::new(
                true,
                self.damage,
                3,
                "Shatters into crystal shrapnel on death".to_string(),
            ),
            HostileType::VoidWraith => AbilityResult::new(
                true,
                0,
                8,
                "Pulls target toward the void dimension".to_string(),
            ),
            HostileType::NexusBeast => AbilityResult::new(
                true,
                self.damage + 20,
                0,
                "Shifts to a different dimension, changing attack pattern".to_string(),
            ),
        }
    }

    /// Heal the creature, never above its maximum HP.
    pub fn heal(&mut self, amount: u32)
        requires
            old(self).spec_hp() + amount <= u32::MAX,
        ensures
            final(self).spec_hp() == if old(self).spec_hp() + amount < old(self).spec_max_hp() {
                (old(self).spec_hp() + amount) as u32
            } else {
                old(self).spec_max_hp()
            },
            final(self).spec_type() == old(self).spec_type(),
            final(self).spec_active() == old(self).spec_active(),
    {
        proof { use_type_invariant(&*self); }
        let total = self.hp + amount;
        self.hp = if total < self.max_hp { total } else { self.max_hp };
    }
}

impl Clone for HostileCreature {
    fn clone(&self) -> (c: Self)
        ensures
            c.spec_type() == self.spec_type(),
            c.spec_hp() == self.spec_hp(),
            c.spec_active() == self.spec_active(),
    {
        proof { use_type_invariant(self); }
        HostileCreature {
            creature_type: self.creature_type,
            hp: self.hp,
            max_hp: self.max_hp,
            damage: self.damage,
            special_ability: self.special_ability.clone(),
            active: self.active,
        }
    }
}

// ---------------------------------------------------------------------------
// Passive creatures

/// Types of passive creatures in Fracture.
#[derive(Clone, Copy, Debug, PartialEq, Eq, Hash, Structural)]
pub enum PassiveType {
    /// Moth that glows near fractures, found in all dimensions.
    PhaseMoth,
    /// Snail with insulating shell, native to Inverted dimension.
    CrystalSnail,
    /// Fish found on Void platforms, cures dimension sickness.
    VoidFish,
    /// Butterfly exclusive to Nexus, leaves stability trail.
    NexusButterfly,
    /// Hare from Prime that vanishes when reality fractures.
    EchoHare,
}

/// Base HP of a passive creature type.
pub open spec fn passive_base_hp(t: PassiveType) -> u32 {
    match t {
        PassiveType::PhaseMoth => 8,
        PassiveType::CrystalSnail => 20,
        PassiveType::VoidFish => 12,
        PassiveType::NexusButterfly => 10,
        PassiveType::EchoHare => 15,
    }
}

/// The item a passive creature type drops.
pub open spec fn passive_drop(t: PassiveType) -> Seq<char> {
    match t {
        PassiveType::PhaseMoth => "stability_dust"@,
        PassiveType::CrystalSnail => "crystal_shell"@,
        PassiveType::VoidFish => "void_fillet"@,
        PassiveType::NexusButterfly => "nexus_dust"@,
        PassiveType::EchoHare => "echo_fur"@,
    }
}

/// The special trait of a passive creature type.
pub open spec fn passive_trait(t: PassiveType) -> Seq<char> {
    match t {
        PassiveType::PhaseMoth => "glows_near_fractures"@,
        PassiveType::CrystalSnail => "insulating_shell"@,
        PassiveType::VoidFish => "cures_sickness"@,
        PassiveType::NexusButterfly => "stability_trail"@,
        PassiveType::EchoHare => "vanishes_when_fractured"@,
    }
}

/// The display name of a passive creature type.
pub open spec fn passive_name(t: PassiveType) -> Seq<char> {
    match t {
        PassiveType::PhaseMoth => "Phase Moth"@,
        PassiveType::CrystalSnail => "Crystal Snail"@,
        PassiveType::VoidFish => "Void Fish"@,
        PassiveType::NexusButterfly => "Nexus Butterfly"@,
        PassiveType::EchoHare => "Echo Hare"@,
    }
}

/// The native dimension of a passive creature type ("all" for any dimension).
pub open spec fn passive_native(t: PassiveType) -> Seq<char> {
    match t {
        PassiveType::PhaseMoth => "all"@,
        PassiveType::CrystalSnail => "inverted"@,
        PassiveType::VoidFish => "void"@,
        PassiveType::NexusButterfly => "nexus"@,
        PassiveType::EchoHare => "prime"@,
    }
}

impl PassiveType {
    /// Get base HP for this creature type.
    pub fn base_hp(&self) -> (hp: u32)
        ensures
            hp == passive_base_hp(*self),
    {
        match self {
            PassiveType::PhaseMoth => 8,
            PassiveType::CrystalSnail => 20,
            PassiveType::VoidFish => 12,
            PassiveType::NexusButterfly => 10,
            PassiveType::EchoHare => 15,
        }
    }

    /// Get the drop item for this creature type.
    pub fn drop_item(&self) -> (s: &'static str)
        ensures
            s@ == passive_drop(*self),
    {
        match self {
            PassiveType::PhaseMoth => "stability_dust",
            PassiveType::CrystalSnail => "crystal_shell",
            PassiveType::VoidFish => "void_fillet",
            PassiveType::NexusButterfly => "nexus_dust",
            PassiveType::EchoHare => "echo_fur",
        }
    }

    /// Get the special trait for this creature type.
    pub fn special_trait(&self) -> (s: &'static str)
        ensures
            s@ == passive_trait(*self),
    {
        match self {
            PassiveType::PhaseMoth => "glows_near_fractures",
            PassiveType::CrystalSnail => "insulating_shell",
            PassiveType::VoidFish => "cures_sickness",
            PassiveType::NexusButterfly => "stability_trail",
            PassiveType::EchoHare => "vanishes_when_fractured",
        }
    }

    /// Get display name for this creature type.
    pub fn display_name(&self) -> (s: &'static str)
        ensures
            s@ == passive_name(*self),
    {
        match self {
            PassiveType::PhaseMoth => "Phase Moth",
            PassiveType::CrystalSnail => "Crystal Snail",
            PassiveType::VoidFish => "Void Fish",
            PassiveType::NexusButterfly => "Nexus Butterfly",
            PassiveType::EchoHare => "Echo Hare",
        }
    }

    /// Get the native dimension for this creature.
    pub fn native_dimension(&self) -> (s: &'static str)
        ensures
            s@ == passive_native(*self),
    {
        match self {
            PassiveType::PhaseMoth => "all",
            PassiveType::CrystalSnail => "inverted",
            PassiveType::VoidFish => "void",
            PassiveType::NexusButterfly => "nexus",
            PassiveType::EchoHare => "prime",
        }
    }
}

/// No two passive creature types drop the same item.
pub proof fn law_passive_drops_unique(a: PassiveType, b: PassiveType)
    ensures
        passive_drop(a) == passive_drop(b) ==> a == b,
{
    reveal_strlit("stability_dust");
    reveal_strlit("crystal_shell");
    reveal_strlit("void_fillet");
    reveal_strlit("nexus_dust");
    reveal_strlit("echo_fur");
    if passive_drop(a) == passive_drop(b) && a != b {
        assert(passive_drop(a)[0] == passive_drop(b)[0]);
        assert(passive_drop(a).len() == passive_drop(b).len());
    }
}

/// A passive creature instance.
#[derive(Debug)]
pub struct PassiveCreature {
    /// Type of this creature.
    creature_type: PassiveType,
    /// Current HP.
    hp: u32,
    /// Maximum HP.
    max_hp: u32,
    /// Item dropped when caught/killed.
    drop_item: String,
    /// Special trait identifier.
    special_trait: String,
}

impl PassiveCreature {
    #[verifier::type_invariant]
    closed spec fn wf(self) -> bool {
        &&& self.hp <= self.max_hp
        &&& self.max_hp == passive_base_hp(self.creature_type)
        &&& self.drop_item@ == passive_drop(self.creature_type)
        &&& self.special_trait@ == passive_trait(self.creature_type)
    }

    /// The creature's type.
    pub closed spec fn spec_type(&self) -> PassiveType {
        self.creature_type
    }

    /// Current HP.
    pub closed spec fn spec_hp(&self) -> u32 {
        self.hp
    }

    /// Create a new passive creature of the given type, at full HP.
    pub fn new(creature_type: PassiveType) -> (c: PassiveCreature)
        ensures
            c.spec_type() == creature_type,
            c.spec_hp() == passive_base_hp(creature_type),
    {
        let max_hp = creature_type.base_hp();
        let drop_item = creature_type.drop_item().to_string();
        let special_trait = creature_type.special_trait().to_string();
        PassiveCreature { creature_type, hp: max_hp, max_hp, drop_item, special_trait }
    }

    /// Get the creature type.
    pub fn creature_type(&self) -> (t: PassiveType)
        ensures
            t == self.spec_type(),
    {
        self.creature_type
    }

    /// Get current HP, which never exceeds the maximum.
    pub fn hp(&self) -> (hp: u32)
        ensures
            hp == self.spec_hp(),
            hp <= passive_base_hp(self.spec_type()),
    {
        proof { use_type_invariant(self); }
        self.hp
    }

    /// Get maximum HP: the base HP of its type.
    pub fn max_hp(&self) -> (hp: u32)
        ensures
            hp == passive_base_hp(self.spec_type()),
    {
        proof { use_type_invariant(self); }
        self.max_hp
    }

    /// Get the drop item name.
    pub fn drop_item(&self) -> (s: &str)
        ensures
            s@ == passive_drop(self.spec_type()),
    {
        proof { use_type_invariant(self); }
        self.drop_item.as_str()
    }

    /// Get the special trait name.
    pub fn special_trait(&self) -> (s: &str)
        ensures
            s@ == passive_trait(self.spec_type()),
    {
        proof { use_type_invariant(self); }
        self.special_trait.as_str()
    }

    /// Check if the creature is alive.
    pub fn is_alive(&self) -> (b: bool)
        ensures
            b == (self.spec_hp() > 0),
    {
        self.hp > 0
    }

    /// Apply damage to the creature, never below 0 HP.
    ///
    /// Returns the actual damage dealt.
    pub fn take_damage(&mut self, amount: u32) -> (dealt: u32)
        ensures
            dealt == if amount < old(self).spec_hp() { amount } else { old(self).spec_hp() },
            final(self).spec_hp() == old(self).spec_hp() - dealt,
            final(self).spec_type() == old(self).spec_type(),
    {
        proof { use_type_invariant(&*self); }
        let actual = if amount < self.hp { amount } else { self.hp };
        self.hp = self.hp - actual;
        actual
    }

    /// Attempt to catch the creature.
    ///
    /// A living creature is caught: it dies and its drop item is returned.
    /// A dead one gives nothing.
    pub fn on_catch(&mut self) -> (r: Option<String>)
        ensures
            old(self).spec_hp() > 0 ==> r is Some && r->0@ == passive_drop(old(self).spec_type()),
            old(self).spec_hp() == 0 ==> r is None,
            final(self).spec_hp() == 0,
            final(self).spec_type() == old(self).spec_type(),
    {
        proof { use_type_invariant(&*self); }
        if self.is_alive() {
            self.hp = 0;
            Some(self.drop_item.clone())
        } else {
            None
        }
    }

    /// Check if this creature has a specific trait.
    pub fn has_trait(&self, trait_name: &str) -> (b: bool)
        ensures
            b == (trait_name@ == passive_trait(self.spec_type())),
    {
        proof { use_type_invariant(self); }
        let wanted = trait_name.to_string();
        self.special_trait == wanted
    }
}

impl Clone for PassiveCreature {
    fn clone(&self) -> (c: Self)
        ensures
            c.spec_type() == self.spec_type(),
            c.spec_hp() == self.spec_hp(),
    {
        proof { use_type_invariant(self); }
        PassiveCreature {
            creature_type: self.creature_type,
            hp: self.hp,
            max_hp: self.max_hp,
            drop_item: self.drop_item.clone(),
            special_trait: self.special_trait.clone(),
        }
    }
}

} // verus!
