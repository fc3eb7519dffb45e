use fracture::creatures::{AbilityResult, HostileCreature, HostileType, PassiveCreature, PassiveType};

#[test]
fn test_hostile_type_nexus_beast_tanky() {
    assert_eq!(HostileType::NexusBeast.base_hp(), 300);
    assert_eq!(HostileType::NexusBeast.base_damage(), 30);
}

#[test]
fn test_hostile_type_special_abilities() {
    assert_eq!(HostileType::ShadowWalker.special_ability(), "phase_strike");
    assert_eq!(HostileType::MagmaCrawler.special_ability(), "lava_splash");
    assert_eq!(HostileType::VoidWraith.special_ability(), "void_pull");
}

#[test]
fn test_hostile_creature_take_damage() {
    let mut creature = HostileCreature::new(HostileType::VoidWraith);
    assert_eq!(creature.hp(), 80);

    let dealt = creature.take_damage(30);
    assert_eq!(dealt, 30);
    assert_eq!(creature.hp(), 50);
    assert!(creature.is_alive());
}

#[test]
fn test_hostile_creature_death() {
    let mut creature = HostileCreature::new(HostileType::VoidWraith);
    creature.take_damage(100);

    assert_eq!(creature.hp(), 0);
    assert!(!creature.is_alive());
}

#[test]
fn test_hostile_creature_overkill() {
    let mut creature = HostileCreature::new(HostileType::VoidWraith);
    let dealt = creature.take_damage(1000);

    assert_eq!(dealt, 80); // Only actual HP
    assert_eq!(creature.hp(), 0);
}

#[test]
fn test_hostile_creature_attack() {
    let creature = HostileCreature::new(HostileType::MagmaCrawler);
    assert_eq!(creature.attack(), 22);
}

#[test]
fn test_hostile_creature_attack_when_dead() {
    let mut creature = HostileCreature::new(HostileType::MagmaCrawler);
    creature.take_damage(200);
    assert_eq!(creature.attack(), 0);
}

#[test]
fn test_hostile_creature_attack_when_inactive() {
    let mut creature = HostileCreature::new(HostileType::MagmaCrawler);
    creature.set_active(false);
    assert_eq!(creature.attack(), 0);
}

#[test]
fn test_hostile_creature_use_ability() {
    let creature = HostileCreature::new(HostileType::ShadowWalker);
    let result = creature.use_ability();

    assert!(result.success);
    assert_eq!(result.damage, 28); // base 18 + 10
    assert!(!result.effect.is_empty());
}

#[test]
fn test_hostile_creature_ability_when_dead() {
    let mut creature = HostileCreature::new(HostileType::ShadowWalker);
    creature.take_damage(200);
    let result = creature.use_ability();

    assert!(!result.success);
}

#[test]
fn test_hostile_creature_heal() {
    let mut creature = HostileCreature::new(HostileType::NexusBeast);
    creature.take_damage(100);
    assert_eq!(creature.hp(), 200);

    creature.heal(50);
    assert_eq!(creature.hp(), 250);

    creature.heal(100);
    assert_eq!(creature.hp(), 300); // Capped at max
}

#[test]
fn test_ability_result_failed() {
    let result = AbilityResult::failed();
    assert!(!result.success);
    assert_eq!(result.damage, 0);
}

#[test]
fn test_magma_crawler_area_ability() {
    let creature = HostileCreature::new(HostileType::MagmaCrawler);
    let result = creature.use_ability();

    assert!(result.success);
    assert!(result.area_radius > 0);
}

#[test]
fn hostile_abilities_of_every_type() {
    let expected = [
        (HostileType::ShadowWalker, 28, 0, "Attacks from another dimension, bypassing defenses"),
        (HostileType::MagmaCrawler, 11, 5, "Splashes lava in an area, dealing burn damage"),
        (HostileType::CrystalSerpent, 15, 3, "Shatters into crystal shrapnel on death"),
        (HostileType::VoidWraith, 0, 8, "Pulls target toward the void dimension"),
        (HostileType::NexusBeast, 50, 0, "Shifts to a different dimension, changing attack pattern"),
    ];
    for (t, damage, radius, effect) in expected {
        let result = HostileCreature::new(t).use_ability();
        assert!(result.success);
        assert_eq!(result.damage, damage);
        assert_eq!(result.area_radius, radius);
        assert_eq!(result.effect, effect);
    }
}

#[test]
fn hostile_inactive_ability_fails_and_names() {
    let mut c = HostileCreature::new(HostileType::CrystalSerpent);
    assert_eq!(c.max_hp(), 120);
    assert_eq!(c.damage(), 15);
    assert!(c.is_active());
    c.set_active(false);
    let r = c.use_ability();
    assert!(!r.success);
    assert_eq!(r.area_radius, 0);
    assert!(r.effect.is_empty());
    assert_eq!(HostileType::CrystalSerpent.display_name(), "Crystal Serpent");
    assert_eq!(c.special_ability(), "crystal_shatter");
    let copy = c.clone();
    assert_eq!(copy.hp(), 120);
    assert!(!copy.is_active());
}

#[test]
fn test_passive_type_stats() {
    assert_eq!(PassiveType::PhaseMoth.base_hp(), 8);
    assert_eq!(PassiveType::CrystalSnail.base_hp(), 20);
    assert_eq!(PassiveType::EchoHare.base_hp(), 15);
}

#[test]
fn test_passive_type_drops() {
    assert_eq!(PassiveType::PhaseMoth.drop_item(), "stability_dust");
    assert_eq!(PassiveType::VoidFish.drop_item(), "void_fillet");
    assert_eq!(PassiveType::EchoHare.drop_item(), "echo_fur");
}

#[test]
fn test_passive_type_traits() {
    assert_eq!(PassiveType::PhaseMoth.special_trait(), "glows_near_fractures");
    assert_eq!(PassiveType::VoidFish.special_trait(), "cures_sickness");
    assert_eq!(PassiveType::NexusButterfly.special_trait(), "stability_trail");
}

#[test]
fn test_passive_type_dimensions() {
    assert_eq!(PassiveType::PhaseMoth.native_dimension(), "all");
    assert_eq!(PassiveType::CrystalSnail.native_dimension(), "inverted");
    assert_eq!(PassiveType::VoidFish.native_dimension(), "void");
    assert_eq!(PassiveType::NexusButterfly.native_dimension(), "nexus");
    assert_eq!(PassiveType::EchoHare.native_dimension(), "prime");
}

#[test]
fn test_passive_creature_new() {
    let creature = PassiveCreature::new(PassiveType::CrystalSnail);

    assert_eq!(creature.creature_type(), PassiveType::CrystalSnail);
    assert_eq!(creature.hp(), 20);
    assert_eq!(creature.max_hp(), 20);
    assert_eq!(creature.drop_item(), "crystal_shell");
    assert_eq!(creature.special_trait(), "insulating_shell");
    assert!(creature.is_alive());
}

#[test]
fn test_passive_creature_take_damage() {
    let mut creature = PassiveCreature::new(PassiveType::EchoHare);
    assert_eq!(creature.hp(), 15);

    let dealt = creature.take_damage(5);
    assert_eq!(dealt, 5);
    assert_eq!(creature.hp(), 10);
    assert!(creature.is_alive());
}

#[test]
fn test_passive_creature_death() {
    let mut creature = PassiveCreature::new(PassiveType::PhaseMoth);
    creature.take_damage(10);

    assert_eq!(creature.hp(), 0);
    assert!(!creature.is_alive());
}

#[test]
fn test_passive_creature_overkill() {
    let mut creature = PassiveCreature::new(PassiveType::PhaseMoth);
    let dealt = creature.take_damage(100);

    assert_eq!(dealt, 8); // Only actual HP
    assert_eq!(creature.hp(), 0);
}

#[test]
fn test_passive_creature_on_catch() {
    let mut creature = PassiveCreature::new(PassiveType::VoidFish);
    assert!(creature.is_alive());

    let drop = creature.on_catch();
    assert!(drop.is_some());
    assert_eq!(drop.unwrap(), "void_fillet");
    assert!(!creature.is_alive());
}

#[test]
fn test_passive_creature_on_catch_when_dead() {
    let mut creature = PassiveCreature::new(PassiveType::VoidFish);
    creature.take_damage(100);

    let drop = creature.on_catch();
    assert!(drop.is_none());
}

#[test]
fn test_passive_creature_has_trait() {
    let creature = PassiveCreature::new(PassiveType::NexusButterfly);

    assert!(creature.has_trait("stability_trail"));
    assert!(!creature.has_trait("glows_near_fractures"));
}

#[test]
fn test_all_passive_types_have_unique_drops() {
    let types = [
        PassiveType::PhaseMoth,
        PassiveType::CrystalSnail,
        PassiveType::VoidFish,
        PassiveType::NexusButterfly,
        PassiveType::EchoHare,
    ];

    let drops: Vec<_> = types.iter().map(|t| t.drop_item()).collect();
    for (i, drop) in drops.iter().enumerate() {
        for (j, other) in drops.iter().enumerate() {
            if i != j {
                assert_ne!(drop, other, "Duplicate drop items found");
            }
        }
    }
}

#[test]
fn test_display_names() {
    assert_eq!(PassiveType::PhaseMoth.display_name(), "Phase Moth");
    assert_eq!(PassiveType::CrystalSnail.display_name(), "Crystal Snail");
    assert_eq!(PassiveType::VoidFish.display_name(), "Void Fish");
    assert_eq!(PassiveType::NexusButterfly.display_name(), "Nexus Butterfly");
    assert_eq!(PassiveType::EchoHare.display_name(), "Echo Hare");
}

#[test]
fn passive_catch_twice_gives_one_drop() {
    let mut creature = PassiveCreature::new(PassiveType::EchoHare);
    assert_eq!(creature.on_catch(), Some("echo_fur".to_string()));
    assert_eq!(creature.on_catch(), None);
    assert_eq!(creature.hp(), 0);
    assert_eq!(creature.take_damage(5), 0);
}
