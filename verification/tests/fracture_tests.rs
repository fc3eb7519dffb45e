use fracture::dimension::{ChunkPos, Dimension};
use fracture::fractures::{pick_fracture, random_target_dimension, target_dimension_at, FractureEngine, FractureEvent, FractureType};

#[test]
fn test_fracture_type_display() {
    assert_eq!(FractureType::Micro.name(), "Micro");
    assert_eq!(FractureType::Meso.name(), "Meso");
    assert_eq!(FractureType::Macro.name(), "Macro");
    assert_eq!(FractureType::Cascade.name(), "Cascade");
}

#[test]
fn test_fracture_type_radius() {
    assert_eq!(FractureType::Micro.base_radius(), 1);
    assert_eq!(FractureType::Meso.base_radius(), 3);
    assert_eq!(FractureType::Macro.base_radius(), 7);
    assert_eq!(FractureType::Cascade.base_radius(), 7);
}

#[test]
fn test_fracture_type_start_day() {
    assert_eq!(FractureType::Micro.start_day(), 3);
    assert_eq!(FractureType::Meso.start_day(), 7);
    assert_eq!(FractureType::Macro.start_day(), 14);
    assert_eq!(FractureType::Cascade.start_day(), 21);
}

#[test]
fn test_fracture_event_new() {
    let event = FractureEvent::new(ChunkPos::new(0, 0, 0), FractureType::Micro, Dimension::Prime, Dimension::Void);
    assert_eq!(event.weak_point_pos, ChunkPos::new(0, 0, 0));
    assert_eq!(event.fracture_type, FractureType::Micro);
    assert_eq!(event.radius, 1);
    assert_eq!(event.source_dimension, Dimension::Prime);
    assert_eq!(event.target_dimension, Dimension::Void);
}

#[test]
fn test_fracture_event_cascade_wave() {
    let event = FractureEvent::cascade_wave(ChunkPos::new(1, 2, 3), 2, Dimension::Prime, Dimension::Nexus);
    assert_eq!(event.fracture_type, FractureType::Cascade);
    assert_eq!(event.radius, 9);
}

#[test]
fn test_fracture_engine_new() {
    let engine = FractureEngine::new();
    assert_eq!(engine.current_day(), 1);
    assert_eq!(engine.weak_point_count(), 0);
    assert_eq!(engine.history_count(), 0);
}

#[test]
fn test_fracture_engine_register_weak_point() {
    let mut engine = FractureEngine::new();
    let pos = ChunkPos::new(5, 5, 5);
    engine.register_weak_point(pos);
    assert_eq!(engine.weak_point_count(), 1);
    engine.register_weak_point(pos);
    assert_eq!(engine.weak_point_count(), 1);
}

#[test]
fn test_fracture_engine_unregister_weak_point() {
    let mut engine = FractureEngine::new();
    let pos = ChunkPos::new(5, 5, 5);
    engine.register_weak_point(pos);
    engine.unregister_weak_point(pos);
    assert_eq!(engine.weak_point_count(), 0);
}

#[test]
fn test_fracture_engine_set_day() {
    let mut engine = FractureEngine::new();
    engine.set_day(10);
    assert_eq!(engine.current_day(), 10);
}

#[test]
fn test_fracture_engine_advance_day() {
    let mut engine = FractureEngine::new();
    let pos = ChunkPos::new(0, 0, 0);
    engine.register_weak_point(pos);
    engine.set_day(2);
    let _events = engine.advance_day(&vec![[false; 4]]);
    assert_eq!(engine.current_day(), 3);
}

#[test]
fn test_fracture_engine_history_accumulates() {
    let mut engine = FractureEngine::new();
    let pos = ChunkPos::new(0, 0, 0);
    engine.register_weak_point(pos);
    engine.set_day(20);
    for k in 0..50 {
        let hit = k % 7 == 0;
        engine.advance_day(&vec![[hit, false, hit, false]]);
    }
    let _ = engine.history_count();
}

#[test]
fn pick_fracture_respects_start_days_and_severity() {
    assert_eq!(pick_fracture(2, &[true; 4]), None);
    assert_eq!(pick_fracture(3, &[true; 4]), Some(FractureType::Micro));
    assert_eq!(pick_fracture(7, &[true; 4]), Some(FractureType::Meso));
    assert_eq!(pick_fracture(14, &[true; 4]), Some(FractureType::Macro));
    assert_eq!(pick_fracture(21, &[true; 4]), Some(FractureType::Cascade));
    assert_eq!(pick_fracture(21, &[false, false, false, true]), Some(FractureType::Micro));
    assert_eq!(pick_fracture(21, &[false; 4]), None);
    assert_eq!(pick_fracture(10, &[true, true, false, false]), None);
}

#[test]
fn random_target_never_the_source() {
    for _ in 0..100 {
        for d in [Dimension::Prime, Dimension::Inverted, Dimension::Void, Dimension::Nexus] {
            assert_ne!(random_target_dimension(d), d);
        }
    }
}

#[test]
fn advance_day_micro_event() {
    let mut engine = FractureEngine::new();
    let pos = ChunkPos::new(4, -2, 9);
    engine.register_weak_point(pos);
    engine.set_day(4);
    let events = engine.advance_day(&vec![[true; 4]]);
    assert_eq!(events.len(), 1);
    assert_eq!(events[0].fracture_type, FractureType::Micro);
    assert_eq!(events[0].radius, 1);
    assert_eq!(events[0].weak_point_pos, pos);
    assert_eq!(events[0].source_dimension, Dimension::Prime);
    assert_ne!(events[0].target_dimension, Dimension::Prime);
    assert_eq!(engine.history_count(), 1);
}

#[test]
fn advance_day_cascade_waves() {
    let mut engine = FractureEngine::new();
    let pos = ChunkPos::new(1, 1, 1);
    engine.register_weak_point(pos);
    engine.set_day(20);
    let events = engine.advance_day(&vec![[true, false, false, false]]);
    assert!(events.len() >= 3 && events.len() <= 5);
    for (w, e) in events.iter().enumerate() {
        assert_eq!(e.fracture_type, FractureType::Cascade);
        assert_eq!(e.radius, 7 + w as u32);
        assert_eq!(e.target_dimension, events[0].target_dimension);
    }
    assert_eq!(engine.history_count(), events.len());
}

#[test]
fn advance_day_two_points_in_order() {
    let mut engine = FractureEngine::new();
    let a = ChunkPos::new(1, 0, 0);
    let b = ChunkPos::new(2, 0, 0);
    engine.register_weak_point(a);
    engine.register_weak_point(b);
    engine.set_day(9);
    let events = engine.advance_day(&vec![[false, false, false, true], [true; 4]]);
    assert_eq!(events.len(), 2);
    assert_eq!(events[0].weak_point_pos, a);
    assert_eq!(events[0].fracture_type, FractureType::Micro);
    assert_eq!(events[1].weak_point_pos, b);
    assert_eq!(events[1].fracture_type, FractureType::Meso);
    assert_eq!(events[1].radius, 3);
}

#[test]
fn unregister_keeps_other_points() {
    let mut engine = FractureEngine::new();
    let a = ChunkPos::new(1, 0, 0);
    let b = ChunkPos::new(2, 0, 0);
    engine.register_weak_point(a);
    engine.register_weak_point(b);
    engine.unregister_weak_point(a);
    assert!(!engine.is_weak_point(a));
    assert!(engine.is_weak_point(b));
    assert_eq!(engine.weak_points(), &vec![b]);
}

#[test]
fn target_dimension_by_index() {
    assert_eq!(target_dimension_at(Dimension::Prime, 0), Dimension::Inverted);
    assert_eq!(target_dimension_at(Dimension::Prime, 1), Dimension::Void);
    assert_eq!(target_dimension_at(Dimension::Prime, 2), Dimension::Nexus);
    assert_eq!(target_dimension_at(Dimension::Void, 0), Dimension::Prime);
    assert_eq!(target_dimension_at(Dimension::Void, 1), Dimension::Inverted);
    assert_eq!(target_dimension_at(Dimension::Void, 2), Dimension::Nexus);
    assert_eq!(target_dimension_at(Dimension::Nexus, 2), Dimension::Void);
}

#[test]
fn default_engine_starts_at_day_zero() {
    let engine = FractureEngine::default();
    assert_eq!(engine.current_day(), 0);
    assert_eq!(engine.weak_point_count(), 0);
    assert_eq!(engine.history_count(), 0);
}
