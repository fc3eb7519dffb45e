use fracture::anchors::{active_anchor_count, anchor_covers, anchors_covering, chunk_anchored, squared_distance, AnchorReach, AnchorTier};
use fracture::dimension::{ChunkPos, Dimension};
use fracture::fractures::FractureType;
use fracture::hud::{anchor_status_icon, anchors_protected, fracture_warning_text, DimensionIndicatorDisplay, SicknessLevel};
use fracture::phase_shift::{decide_shift, PhaseShiftCost, PhaseShiftResult, PhaseShiftState};
use fracture::render::{should_render_ghost, DimensionVisuals, FractureVisuals, GhostBlockRenderer};
use fracture::stability::StabilityBatteryTier;
use fracture::weak_points::{active_weak_point_count, can_reinforce, nearest_active_index};

#[test]
fn test_dimension_visuals_has_stars() {
    let visuals = DimensionVisuals::new();
    assert!(!visuals.has_stars(Dimension::Prime));
    assert!(!visuals.has_stars(Dimension::Inverted));
    assert!(visuals.has_stars(Dimension::Void));
    assert!(visuals.has_stars(Dimension::Nexus));
}

#[test]
fn test_should_render_ghost_different_dims() {
    let renderer = GhostBlockRenderer::new();
    assert!(renderer.should_render_ghost(Dimension::Prime, Dimension::Void));
    assert!(renderer.should_render_ghost(Dimension::Inverted, Dimension::Nexus));
}

#[test]
fn test_should_render_ghost_same_dim() {
    let renderer = GhostBlockRenderer::new();
    assert!(!renderer.should_render_ghost(Dimension::Prime, Dimension::Prime));
    assert!(!renderer.should_render_ghost(Dimension::Void, Dimension::Void));
}

#[test]
fn test_should_glow() {
    let renderer = GhostBlockRenderer::new();
    assert!(!renderer.should_glow(Dimension::Prime));
    assert!(renderer.should_glow(Dimension::Inverted));
    assert!(!renderer.should_glow(Dimension::Void));
    assert!(renderer.should_glow(Dimension::Nexus));
}

#[test]
fn test_use_wireframe() {
    let renderer = GhostBlockRenderer::new();
    assert!(!renderer.use_wireframe(Dimension::Prime));
    assert!(!renderer.use_wireframe(Dimension::Inverted));
    assert!(renderer.use_wireframe(Dimension::Void));
    assert!(!renderer.use_wireframe(Dimension::Nexus));
}

#[test]
fn standalone_should_render_ghost() {
    assert!(should_render_ghost(Dimension::Prime, Dimension::Void));
    assert!(!should_render_ghost(Dimension::Nexus, Dimension::Nexus));
}

#[test]
fn test_fracture_screen_shake() {
    let visuals = FractureVisuals::new();
    assert!(!visuals.has_screen_shake(FractureType::Micro));
    assert!(visuals.has_screen_shake(FractureType::Meso));
    assert!(visuals.has_screen_shake(FractureType::Macro));
    assert!(visuals.has_screen_shake(FractureType::Cascade));
}

#[test]
fn test_dimension_indicator_new() {
    let indicator = DimensionIndicatorDisplay::new();
    assert_eq!(indicator.current_dimension(), Dimension::Prime);
}

#[test]
fn test_dimension_indicator_update() {
    let mut indicator = DimensionIndicatorDisplay::new();
    indicator.update(Dimension::Void);
    assert_eq!(indicator.current_dimension(), Dimension::Void);
}

#[test]
fn test_dimension_indicator_label() {
    let mut indicator = DimensionIndicatorDisplay::new();
    assert_eq!(indicator.label(), "PRIME");
    indicator.update(Dimension::Nexus);
    assert_eq!(indicator.label(), "NEXUS");
}

#[test]
fn test_dimension_indicator_icon() {
    let indicator = DimensionIndicatorDisplay::new();
    assert!(indicator.icon().contains("prime"));
}

#[test]
fn test_dimension_indicator_alert() {
    let mut indicator = DimensionIndicatorDisplay::new();
    assert!(!indicator.should_show_alert());
    indicator.update(Dimension::Void);
    assert!(indicator.should_show_alert());
}

#[test]
fn dimension_indicator_default_and_icons() {
    let mut indicator = DimensionIndicatorDisplay::default();
    assert_eq!(indicator.current_dimension(), Dimension::Prime);
    indicator.update(Dimension::Inverted);
    assert_eq!(indicator.icon(), "icon_dimension_inverted");
    assert_eq!(indicator.label(), "INVERTED");
    indicator.update(Dimension::Void);
    assert_eq!(indicator.icon(), "icon_dimension_void");
    assert_eq!(indicator.label(), "VOID");
}

#[test]
fn test_anchor_tier_display() {
    assert_eq!(AnchorTier::Basic.name(), "Basic");
    assert_eq!(AnchorTier::Standard.name(), "Standard");
    assert_eq!(AnchorTier::Military.name(), "Military");
}

#[test]
fn test_anchor_tier_radius() {
    assert_eq!(AnchorTier::Basic.radius(), 3);
    assert_eq!(AnchorTier::Standard.radius(), 5);
    assert_eq!(AnchorTier::Military.radius(), 7);
}

#[test]
fn anchor_tier_all() {
    assert_eq!(AnchorTier::all(), vec![AnchorTier::Basic, AnchorTier::Standard, AnchorTier::Military]);
}

#[test]
fn test_anchor_covers_chunk() {
    let center = ChunkPos::new(0, 0, 0);
    let r = AnchorTier::Basic.radius();
    assert!(anchor_covers(true, center, r, ChunkPos::new(0, 0, 0)));
    assert!(anchor_covers(true, center, r, ChunkPos::new(1, 1, 1)));
    assert!(anchor_covers(true, center, r, ChunkPos::new(2, 0, 0)));
    assert!(!anchor_covers(true, center, r, ChunkPos::new(5, 0, 0)));
}

#[test]
fn anchor_covers_boundary() {
    let center = ChunkPos::new(0, 0, 0);
    let r = AnchorTier::Standard.radius();
    assert!(anchor_covers(true, center, r, ChunkPos::new(5, 0, 0)));
    assert!(!anchor_covers(true, center, r, ChunkPos::new(6, 0, 0)));
    assert!(!anchor_covers(true, center, r, ChunkPos::new(4, 4, 0)));
    assert!(anchor_covers(true, ChunkPos::new(10, 10, 10), r, ChunkPos::new(13, 14, 10)));
}

#[test]
fn test_anchor_covers_chunk_inactive() {
    let center = ChunkPos::new(0, 0, 0);
    assert!(!anchor_covers(false, center, AnchorTier::Basic.radius(), ChunkPos::new(0, 0, 0)));
}

#[test]
fn squared_distance_exact() {
    assert_eq!(squared_distance(ChunkPos::new(1, 2, 3), ChunkPos::new(-1, 0, 4)), 9);
    assert_eq!(squared_distance(ChunkPos::new(0, 0, 0), ChunkPos::new(0, 0, 0)), 0);
}

#[test]
fn test_phase_shift_cost_display() {
    assert_eq!(PhaseShiftCost::Low.label(), "Low (10)");
    assert_eq!(PhaseShiftCost::Medium.label(), "Medium (25)");
    assert_eq!(PhaseShiftCost::High.label(), "High (50)");
}

#[test]
fn test_phase_shift_result_display() {
    assert_eq!(PhaseShiftResult::Success.label(), "Success");
    assert_eq!(PhaseShiftResult::InsufficientEnergy.label(), "InsufficientEnergy");
    assert_eq!(PhaseShiftResult::SicknessTooHigh.label(), "SicknessTooHigh");
    assert_eq!(PhaseShiftResult::CooldownActive.label(), "CooldownActive");
}

#[test]
fn decide_shift_order_of_checks() {
    assert_eq!(decide_shift(false, true, false), PhaseShiftResult::Success);
    assert_eq!(decide_shift(true, false, true), PhaseShiftResult::CooldownActive);
    assert_eq!(decide_shift(false, false, true), PhaseShiftResult::InsufficientEnergy);
    assert_eq!(decide_shift(false, true, true), PhaseShiftResult::SicknessTooHigh);
}

#[test]
fn test_battery_tier_display() {
    assert_eq!(StabilityBatteryTier::Small.name(), "Small");
    assert_eq!(StabilityBatteryTier::Medium.name(), "Medium");
    assert_eq!(StabilityBatteryTier::Large.name(), "Large");
}

#[test]
fn battery_tier_all() {
    assert_eq!(
        StabilityBatteryTier::all(),
        vec![StabilityBatteryTier::Small, StabilityBatteryTier::Medium, StabilityBatteryTier::Large]
    );
}

#[test]
fn test_manager_nearest_weak_point() {
    let positions = vec![ChunkPos::new(0, 0, 0), ChunkPos::new(10, 0, 0), ChunkPos::new(100, 0, 0)];
    let collapsed = vec![false, false, false];
    let nearest = nearest_active_index(&positions, &collapsed, ChunkPos::new(8, 0, 0));
    assert!(nearest.is_some());
    assert_eq!(positions[nearest.unwrap()], ChunkPos::new(10, 0, 0));
}

#[test]
fn nearest_weak_point_skips_collapsed_and_ties_go_first() {
    let positions = vec![ChunkPos::new(0, 0, 0), ChunkPos::new(10, 0, 0), ChunkPos::new(20, 0, 0)];
    assert_eq!(nearest_active_index(&positions, &vec![false, true, false], ChunkPos::new(12, 0, 0)), Some(2));
    assert_eq!(nearest_active_index(&positions, &vec![false, false, false], ChunkPos::new(5, 0, 0)), Some(0));
    assert_eq!(nearest_active_index(&positions, &vec![true, true, true], ChunkPos::new(5, 0, 0)), None);
    assert_eq!(nearest_active_index(&vec![], &vec![], ChunkPos::new(5, 0, 0)), None);
}

#[test]
fn phase_shift_state_success_and_refusals() {
    let mut s = PhaseShiftState::new();
    assert_eq!(s.current_dimension(), Dimension::Prime);
    assert_eq!(s.shift_count(), 0);
    assert_eq!(s.shift_to(Dimension::Void, false, true, false), PhaseShiftResult::Success);
    assert_eq!(s.current_dimension(), Dimension::Void);
    assert_eq!(s.shift_count(), 1);
    assert_eq!(s.shift_to(Dimension::Nexus, true, true, false), PhaseShiftResult::CooldownActive);
    assert_eq!(s.shift_to(Dimension::Nexus, false, false, false), PhaseShiftResult::InsufficientEnergy);
    assert_eq!(s.shift_to(Dimension::Nexus, false, true, true), PhaseShiftResult::SicknessTooHigh);
    assert_eq!(s.current_dimension(), Dimension::Void);
    assert_eq!(s.shift_count(), 1);
    assert_eq!(s.display_label(), "VOID");
    assert_eq!(s.icon(), "icon_dimension_void");
    s.reset();
    assert_eq!(s.current_dimension(), Dimension::Prime);
    assert_eq!(s.shift_count(), 0);
    assert_eq!(PhaseShiftState::default(), PhaseShiftState::new());
}

#[test]
fn anchors_reach_queries() {
    let anchors = vec![
        AnchorReach { active: true, center: ChunkPos::new(0, 0, 0), radius: 3 },
        AnchorReach { active: false, center: ChunkPos::new(1, 0, 0), radius: 7 },
        AnchorReach { active: true, center: ChunkPos::new(2, 0, 0), radius: 5 },
    ];
    assert!(chunk_anchored(&anchors, ChunkPos::new(1, 0, 0)));
    assert_eq!(anchors_covering(&anchors, ChunkPos::new(1, 0, 0)), vec![0, 2]);
    assert_eq!(anchors_covering(&anchors, ChunkPos::new(6, 0, 0)), vec![2]);
    assert!(!chunk_anchored(&anchors, ChunkPos::new(100, 0, 0)));
    assert_eq!(anchors_covering(&anchors, ChunkPos::new(100, 0, 0)), Vec::<usize>::new());
    assert_eq!(active_anchor_count(&anchors), 2);
    assert!(!chunk_anchored(&vec![], ChunkPos::new(0, 0, 0)));
}

#[test]
fn weak_point_counts_and_reinforce_check() {
    let collapsed = vec![false, true, false, true, true];
    assert_eq!(active_weak_point_count(&collapsed), 2);
    assert!(can_reinforce(&collapsed, 0));
    assert!(!can_reinforce(&collapsed, 1));
    assert!(!can_reinforce(&collapsed, 5));
}

#[test]
fn sickness_level_texts() {
    assert_eq!(SicknessLevel::NoSickness.warning_text(), None);
    assert_eq!(SicknessLevel::Mild.warning_text(), Some("Mild disorientation"));
    assert!(SicknessLevel::Critical.warning_text().unwrap().contains("CRITICAL"));
    assert!(!SicknessLevel::NoSickness.is_warning());
    assert!(SicknessLevel::Mild.is_warning());
    assert!(!SicknessLevel::Moderate.is_danger());
    assert!(SicknessLevel::Severe.is_danger());
    assert!(SicknessLevel::Critical.is_danger());
    assert_eq!(SicknessLevel::NoSickness.icon(), "icon_sickness_none");
    assert_eq!(SicknessLevel::Critical.icon(), "icon_sickness_critical");
}

#[test]
fn fracture_warning_texts() {
    assert_eq!(fracture_warning_text(0), "");
    assert_eq!(fracture_warning_text(1), "Dimensional instability detected");
    assert_eq!(fracture_warning_text(2), "Fracture forming nearby");
    assert!(fracture_warning_text(3).contains("IMMINENT"));
}

#[test]
fn anchor_status_icons() {
    assert_eq!(anchor_status_icon(0, false), "icon_anchor_inactive");
    assert_eq!(anchor_status_icon(0, true), "icon_anchor_inactive");
    assert_eq!(anchor_status_icon(1, false), "icon_anchor_active");
    assert_eq!(anchor_status_icon(2, true), "icon_anchor_warning");
    assert!(!anchors_protected(0, false));
    assert!(anchors_protected(1, false));
    assert!(!anchors_protected(1, true));
}
