use smoothie::dom::Dom;
use smoothie::placement::placements;
use smoothie::placement::Placement;
use smoothie::scene::SceneState;
use smoothie::{
    evaluate_easing_progress, shake, Arrow, Easing, Element, Keyframe, Property, Scene, SharedDom,
    Smoothie, Snapshot, FULL_PROGRESS, UNIT,
};

const SECOND: u64 = 1_000_000;

fn keyframe(start_value: i64, end_value: i64, start_time: u64, duration: u64, easing: Easing) -> Keyframe {
    Keyframe { property: Property::Scale, start_value, end_value, start_time, duration, easing }
}

fn scale_of(snapshot: &Snapshot, id: usize) -> i64 {
    snapshot.dom().get(id).expect("element registered").get_scale()
}

#[test]
fn easing_endpoints_are_fixed() {
    for easing in [Easing::Linear, Easing::EaseInOut] {
        assert_eq!(evaluate_easing_progress(easing, 0), 0);
        assert_eq!(evaluate_easing_progress(easing, FULL_PROGRESS), FULL_PROGRESS);
    }
}

#[test]
fn linear_easing_is_identity_and_clamps() {
    assert_eq!(evaluate_easing_progress(Easing::Linear, 250_000), 250_000);
    assert_eq!(evaluate_easing_progress(Easing::Linear, 999_999), 999_999);
    assert_eq!(evaluate_easing_progress(Easing::Linear, FULL_PROGRESS + 1), FULL_PROGRESS);
    assert_eq!(evaluate_easing_progress(Easing::EaseInOut, u64::MAX), FULL_PROGRESS);
}

#[test]
fn keyframe_active_window_includes_both_ends() {
    let k = keyframe(0, UNIT, 3 * SECOND, 2 * SECOND, Easing::Linear);
    assert!(!k.is_active(3 * SECOND - 1));
    assert!(k.is_active(3 * SECOND));
    assert!(k.is_active(4 * SECOND));
    assert!(k.is_active(5 * SECOND));
    assert!(!k.is_active(5 * SECOND + 1));
}

#[test]
fn keyframe_active_near_end_of_time_range() {
    let k = keyframe(0, UNIT, u64::MAX - 10, 100, Easing::Linear);
    assert!(k.is_active(u64::MAX));
    assert!(!k.is_active(u64::MAX - 11));
}

#[test]
fn keyframe_endpoints_are_exact_for_every_easing() {
    for easing in [Easing::Linear, Easing::EaseInOut] {
        let k = keyframe(-123_457, 987_653, 7 * SECOND, 3 * SECOND + 1, easing);
        assert_eq!(k.value_at_time(7 * SECOND), -123_457);
        assert_eq!(k.value_at_time(10 * SECOND + 1), 987_653);
    }
}

#[test]
fn keyframe_value_outside_window_is_clamped() {
    let k = keyframe(100, 200, SECOND, SECOND, Easing::Linear);
    assert_eq!(k.value_at_time(0), 100);
    assert_eq!(k.value_at_time(5 * SECOND), 200);
}

#[test]
fn keyframe_progress_is_linear_in_time() {
    let k = keyframe(0, 0, SECOND, 4 * SECOND, Easing::Linear);
    assert_eq!(k.progress(0), 0);
    assert_eq!(k.progress(SECOND), 0);
    assert_eq!(k.progress(2 * SECOND), 250_000);
    assert_eq!(k.progress(3 * SECOND), 500_000);
    assert_eq!(k.progress(5 * SECOND), FULL_PROGRESS);
    assert_eq!(k.progress(9 * SECOND), FULL_PROGRESS);
}

#[test]
fn keyframe_interpolates_downwards() {
    let k = keyframe(800_000, 200_000, 0, 2 * SECOND, Easing::Linear);
    assert_eq!(k.value_at_time(SECOND), 500_000);
    // a third of the way, rounded towards the start value
    let k = keyframe(0, -10, 0, 3, Easing::Linear);
    assert_eq!(k.value_at_time(1), -3);
    let k = keyframe(0, 10, 0, 3, Easing::Linear);
    assert_eq!(k.value_at_time(1), 3);
}

#[test]
fn keyframe_interpolates_across_the_whole_value_range() {
    let k = keyframe(i64::MIN, i64::MAX, 0, 2, Easing::Linear);
    assert_eq!(k.value_at_time(0), i64::MIN);
    assert_eq!(k.value_at_time(1), -1);
    assert_eq!(k.value_at_time(2), i64::MAX);
}

#[test]
fn zero_duration_keyframe_jumps_to_end_value() {
    let k = keyframe(10, 20, 4 * SECOND, 0, Easing::EaseInOut);
    assert!(k.is_active(4 * SECOND));
    assert!(!k.is_active(4 * SECOND + 1));
    assert_eq!(k.value_at_time(4 * SECOND), 20);
    assert_eq!(k.value_at_time(4 * SECOND - 1), 10);
}

#[test]
fn update_keyframe_data_sets_only_its_property() {
    let mut s = shake();
    let mut arrow = s.arrow();
    arrow.x = 5;
    let k = Keyframe {
        property: Property::Angle,
        start_value: 0,
        end_value: 6_283_185,
        start_time: 0,
        duration: 4 * SECOND,
        easing: Easing::Linear,
    };
    k.update_keyframe_data(&mut arrow, 2 * SECOND);
    assert_eq!(arrow.angle, 3_141_592);
    assert_eq!(arrow.x, 5);
    assert_eq!(arrow.scale, UNIT);
}

#[test]
fn scenario_single_linear_keyframe() {
    let mut s = shake();
    let mut arrow = s.arrow();
    arrow.scale = 200_000;
    s.animate(&mut arrow, Property::Scale, 800_000, 2 * SECOND, Easing::Linear);
    let id = arrow.get_id();
    let mut scene = s.serve();
    let snapshot = scene.tick(SECOND).expect("scene is running");
    assert_eq!(snapshot.time(), SECOND);
    assert_eq!(scale_of(&snapshot, id), 500_000);
}

#[test]
fn scenario_consecutive_keyframes_agree_at_boundary() {
    let mut s = shake();
    let mut arrow = s.arrow();
    arrow.scale = 0;
    s.animate(&mut arrow, Property::Scale, 400_000, SECOND, Easing::Linear);
    s.animate(&mut arrow, Property::Scale, 900_000, SECOND, Easing::EaseInOut);
    assert_eq!(s.get_current_animation_time(), 2 * SECOND);
    let first = arrow.keyframes()[0];
    let second = arrow.keyframes()[1];
    assert_eq!((first.start_time, first.duration), (0, SECOND));
    assert_eq!((second.start_time, second.duration), (SECOND, SECOND));
    assert_eq!(first.value_at_time(SECOND), 400_000);
    assert_eq!(second.value_at_time(SECOND), 400_000);
    let id = arrow.get_id();
    let mut scene = s.serve();
    let snapshot = scene.tick(SECOND).expect("scene is running");
    assert_eq!(scale_of(&snapshot, id), 400_000);
    let snapshot = scene.tick(2 * SECOND).expect("scene is running");
    assert_eq!(scale_of(&snapshot, id), 900_000);
}

#[test]
fn scenario_no_active_keyframe_keeps_last_values() {
    let mut s = shake();
    let mut arrow = s.arrow();
    arrow.x = 7;
    arrow.scale = 300_000;
    s.animate_at(&mut arrow, Property::Scale, 600_000, 5 * SECOND, SECOND, Easing::Linear);
    let id = arrow.get_id();
    let mut scene = s.serve();
    let before = scene.tick(SECOND).expect("scene is running");
    assert_eq!(scale_of(&before, id), 300_000);
    assert_eq!(before.dom().get(id).unwrap().get_x(), 7);
    let during = scene.tick(6 * SECOND).expect("scene is running");
    assert_eq!(scale_of(&during, id), 600_000);
    let after = scene.tick(20 * SECOND).expect("scene is running");
    assert_eq!(scale_of(&after, id), 600_000);
}

#[test]
fn element_without_keyframes_is_unchanged_by_update() {
    let mut s = shake();
    let mut arrow = s.arrow();
    arrow.scale = 123;
    arrow.angle = -45;
    let mut element = Element::Arrow(arrow);
    element.update_data_with_keyframes(3 * SECOND);
    assert_eq!(element.get_scale(), 123);
    assert_eq!(element.get_angle(), -45);
}

#[test]
fn updating_twice_at_same_time_is_idempotent() {
    let mut s = shake();
    let mut arrow = s.arrow();
    s.animate(&mut arrow, Property::X, 2_500_000, SECOND, Easing::Linear);
    s.animate(&mut arrow, Property::Angle, 6_283_185, 4 * SECOND, Easing::Linear);
    let mut element = Element::Arrow(arrow);
    element.update_data_with_keyframes(2_500_000);
    let once = (element.get_x(), element.get_angle(), element.get_scale());
    element.update_data_with_keyframes(2_500_000);
    let twice = (element.get_x(), element.get_angle(), element.get_scale());
    assert_eq!(once, twice);
    assert_eq!(once, (2_500_000, 2_356_194, UNIT));
}

#[test]
fn overlapping_keyframes_last_registered_wins() {
    let mut s = shake();
    let mut arrow = s.arrow();
    arrow.y = 0;
    s.animate_at(&mut arrow, Property::Y, 1_000, 0, 2 * SECOND, Easing::Linear);
    s.animate_at(&mut arrow, Property::Y, 5_000, 0, 2 * SECOND, Easing::Linear);
    let id = arrow.get_id();
    let mut scene = s.serve();
    let snapshot = scene.tick(SECOND).expect("scene is running");
    // the second keyframe runs from 1_000 (the value after the first) to 5_000
    assert_eq!(snapshot.dom().get(id).unwrap().get_y(), 3_000);
}

#[test]
fn scenario_many_commits_without_reads() {
    let mut s = shake();
    let mut arrow = s.arrow();
    s.animate(&mut arrow, Property::Scale, 0, 1000, Easing::Linear);
    let id = arrow.get_id();
    let mut scene = s.serve();
    let mut shared = SharedDom::new();
    for t in 0..1000u64 {
        let snapshot = scene.tick(t).expect("scene is running");
        shared.commit(snapshot);
    }
    assert_eq!(shared.sequence(), 1000);
    let latest = shared.read();
    assert_eq!(latest.time(), 999);
    assert_eq!(latest.dom().len(), 1);
    assert_eq!(scale_of(latest, id), 1_000);
}

#[test]
fn shared_dom_starts_empty() {
    let shared = SharedDom::new();
    assert_eq!(shared.sequence(), 0);
    assert_eq!(shared.read().time(), 0);
    assert_eq!(shared.read().dom().len(), 0);
}

#[test]
fn idle_scene_does_not_tick() {
    let mut scene = Scene::new();
    assert_eq!(scene.state(), SceneState::Idle);
    assert!(scene.tick(SECOND).is_none());
    scene.start(Dom::new());
    assert_eq!(scene.state(), SceneState::Running);
    let snapshot = scene.tick(SECOND).expect("scene is running");
    assert_eq!(snapshot.dom().len(), 0);
}

#[test]
fn builder_assigns_increasing_ids_and_defaults() {
    let mut s: Smoothie = shake();
    let a: Arrow = s.arrow();
    let b = s.arrow();
    assert_eq!(a.get_id(), 0);
    assert_eq!(b.get_id(), 1);
    assert_eq!(s.get_next_element_id(), 2);
    assert_eq!((a.x, a.y, a.scale, a.angle), (0, 0, UNIT, 0));
    assert!(a.fill && !a.stroke);
    assert!(a.keyframes().is_empty());
    assert_eq!(s.get_current_animation_time(), 0);
    s.increment_animation_time(SECOND);
    assert_eq!(s.get_current_animation_time(), SECOND);
}

#[test]
fn animate_schedules_at_cursor_and_sets_target() {
    let mut s = shake();
    let mut arrow = s.arrow();
    s.increment_animation_time(3 * SECOND);
    s.animate(&mut arrow, Property::X, 2_500_000, 4 * SECOND, Easing::EaseInOut);
    assert_eq!(arrow.x, 2_500_000);
    assert_eq!(s.get_current_animation_time(), 7 * SECOND);
    let k = arrow.keyframes()[0];
    assert_eq!(k.property, Property::X);
    assert_eq!((k.start_value, k.end_value), (0, 2_500_000));
    assert_eq!((k.start_time, k.duration, k.easing), (3 * SECOND, 4 * SECOND, Easing::EaseInOut));
    // explicit start time: the cursor stays
    s.animate_at(&mut arrow, Property::Y, 10, SECOND, SECOND, Easing::Linear);
    assert_eq!(s.get_current_animation_time(), 7 * SECOND);
    assert_eq!(arrow.keyframes()[1].start_time, SECOND);
}

#[test]
fn registered_element_starts_from_its_value_before_animation() {
    let mut s = shake();
    let mut arrow = s.arrow();
    arrow.scale = 400_000;
    s.animate(&mut arrow, Property::Scale, 700_000, SECOND, Easing::Linear);
    let id = arrow.get_id();
    let scene = s.serve();
    let registered = scene.elements().get(id).unwrap();
    assert_eq!(registered.get_scale(), 400_000);
}

#[test]
fn add_element_replaces_element_with_same_id() {
    let mut s = shake();
    let mut arrow = s.arrow();
    let other = s.arrow();
    s.add_element(&Element::Arrow(arrow.clone()));
    s.add_element(&Element::Arrow(other));
    arrow.x = 99;
    s.add_element(&Element::Arrow(arrow));
    let scene = s.serve();
    assert_eq!(scene.elements().len(), 2);
    assert_eq!(scene.elements().get(0).unwrap().get_x(), 99);
    assert_eq!(scene.elements().get_index(0).get_id(), 0);
    assert_eq!(scene.elements().get_index(1).get_id(), 1);
    assert!(scene.elements().get(2).is_none());
}

#[test]
fn box_clone_copies_keyframes() {
    let mut s = shake();
    let mut arrow = s.arrow();
    arrow.add_keyframe((Property::Angle, 1, 2, 3, 4, Easing::Linear));
    let copy = arrow.box_clone();
    assert_eq!(copy.keyframes().len(), 1);
    assert_eq!(copy.keyframes()[0], arrow.keyframes()[0]);
    assert_eq!(copy.get_angle(), arrow.get_angle());
    let element = Element::Arrow(copy).box_clone();
    assert_eq!(element.get_id(), arrow.get_id());
}

#[test]
fn placements_index_by_id_within_capacity() {
    let mut s = shake();
    let mut a = s.arrow();
    let mut b = s.arrow();
    let mut c = s.arrow();
    a.scale = 10;
    b.angle = 20;
    c.x = 30;
    s.animate(&mut a, Property::Y, 5, SECOND, Easing::Linear);
    s.animate(&mut c, Property::Y, 6, SECOND, Easing::Linear);
    s.animate(&mut b, Property::Y, 7, SECOND, Easing::Linear);
    let mut scene = s.serve();
    scene.tick(SECOND).expect("scene is running");
    scene.tick(2 * SECOND).expect("scene is running");
    let snapshot = scene.tick(3 * SECOND).expect("scene is running");
    let slots = placements(snapshot.dom(), 2);
    assert_eq!(slots.len(), 2);
    assert_eq!(slots[0], Some(Placement { x: 0, y: 5, scale: 10, angle: 0 }));
    assert_eq!(slots[1], Some(Placement { x: 0, y: 7, scale: UNIT, angle: 20 }));
    let slots = placements(snapshot.dom(), 5);
    assert_eq!(slots[2], Some(Placement { x: 30, y: 6, scale: UNIT, angle: 0 }));
    assert_eq!(slots[3], None);
    assert_eq!(slots[4], None);
}

#[test]
fn ticking_twice_at_same_time_gives_same_snapshot() {
    let mut s = shake();
    let mut arrow = s.arrow();
    s.animate(&mut arrow, Property::Angle, 6_283_185, 4 * SECOND, Easing::Linear);
    let id = arrow.get_id();
    let mut scene = s.serve();
    let first = scene.tick(SECOND).expect("scene is running");
    let second = scene.tick(SECOND).expect("scene is running");
    let a = first.dom().get(id).unwrap();
    let b = second.dom().get(id).unwrap();
    assert_eq!((a.get_angle(), a.get_scale()), (b.get_angle(), b.get_scale()));
    assert_eq!(a.get_angle(), 1_570_796);
}
