use mine_captcha::gizmo::gizmo_rect;
use mine_captcha::gizmo::interaction_step;
use mine_captcha::gizmo::transform_from_orientation;
use mine_captcha::gizmo::InteractionPhase;
use mine_captcha::gizmo::PointerSample;
use mine_captcha::rotation::OrientationState;
use mine_captcha::rotation::Quat;
use mine_captcha::rotation::MAG_TOL;
use mine_captcha::rotation::ROT_ONE;
use mine_captcha::rotation::UNIT_MAG_SQ;

fn mag_sq(q: &Quat) -> i64 {
    q.x * q.x + q.y * q.y + q.z * q.z + q.w * q.w
}

fn within_tolerance(q: &Quat) -> bool {
    let m = mag_sq(q);
    UNIT_MAG_SQ - MAG_TOL <= m && m <= UNIT_MAG_SQ + MAG_TOL
}

// sin(45 degrees), i.e. the half-angle component of a 90-degree rotation,
// in fixed-point units.
const SIN_45: i64 = 46341;

#[test]
fn fresh_state_is_the_identity_pose() {
    let s = OrientationState::new();
    assert_eq!(s.rotation, Quat { x: 0, y: 0, z: 0, w: ROT_ONE });
    assert_eq!(mag_sq(&s.rotation), UNIT_MAG_SQ);
}

#[test]
fn frame_without_interaction_changes_nothing() {
    let mut s = OrientationState::new();
    let before = s;
    let committed = s.apply_gizmo_result(None);
    assert!(!committed);
    assert_eq!(s, before);
}

#[test]
fn unchanged_report_commits_nothing() {
    let mut s = OrientationState::new();
    let before = s;
    let committed = s.apply_gizmo_result(Some(before.rotation));
    assert!(!committed);
    assert_eq!(s, before);
}

#[test]
fn drag_sequence_keeps_magnitude_within_tolerance() {
    let mut s = OrientationState::new();
    let reports = vec![
        Some(Quat { x: SIN_45, y: 0, z: 0, w: SIN_45 }),
        None,
        Some(Quat { x: 0, y: SIN_45, z: 0, w: SIN_45 }),
        Some(Quat { x: 9000000, y: 0, z: 0, w: 9000000 }),
        Some(Quat { x: SIN_45, y: SIN_45, z: 0, w: 0 }),
        Some(Quat { x: 0, y: 0, z: 0, w: 0 }),
    ];
    for r in reports {
        s.apply_gizmo_result(r);
        assert!(within_tolerance(&s.rotation));
    }
}

#[test]
fn magnitude_just_inside_tolerance_is_accepted() {
    let mut s = OrientationState::new();
    let near_high = Quat { x: 0, y: 0, z: 0, w: 65543 };
    assert!(within_tolerance(&near_high));
    assert!(s.apply_gizmo_result(Some(near_high)));
    assert_eq!(s.rotation, near_high);
    let near_low = Quat { x: 0, y: 0, z: 0, w: 65528 };
    assert!(within_tolerance(&near_low));
    assert!(s.apply_gizmo_result(Some(near_low)));
    assert_eq!(s.rotation, near_low);
}

#[test]
fn magnitude_outside_tolerance_is_discarded() {
    let mut s = OrientationState::new();
    let before = s;
    let too_big = Quat { x: 0, y: 0, z: 0, w: 65544 };
    assert!(!within_tolerance(&too_big));
    assert!(!s.apply_gizmo_result(Some(too_big)));
    assert_eq!(s, before);
    let too_small = Quat { x: 0, y: 0, z: 0, w: 65527 };
    assert!(!s.apply_gizmo_result(Some(too_small)));
    assert_eq!(s, before);
    let huge_component = Quat { x: 131073, y: 0, z: 0, w: 0 };
    assert!(!s.apply_gizmo_result(Some(huge_component)));
    assert_eq!(s, before);
}

#[test]
fn gizmo_rect_sits_at_the_fixed_offset() {
    let rect = gizmo_rect(100, 50);
    assert_eq!(rect.min_x, 110);
    assert_eq!(rect.min_y, 140);
    assert_eq!(rect.width, 220);
    assert_eq!(rect.height, 220);
}

#[test]
fn hit_test_is_half_open() {
    let rect = gizmo_rect(0, 0);
    assert!(rect.contains(10, 90));
    assert!(rect.contains(229, 309));
    assert!(!rect.contains(230, 200));
    assert!(!rect.contains(100, 310));
    assert!(!rect.contains(9, 200));
    assert!(!rect.contains(100, 89));
}

#[test]
fn press_inside_engages_and_release_idles() {
    let rect = gizmo_rect(100, 100);
    let inside_pressed = PointerSample { x: 150, y: 250, pressed: true };
    let inside_released = PointerSample { x: 150, y: 250, pressed: false };
    let outside_pressed = PointerSample { x: 10, y: 10, pressed: true };
    let engaged = interaction_step(InteractionPhase::Idle, &rect, inside_pressed);
    assert_eq!(engaged, InteractionPhase::Engaged);
    let still = interaction_step(InteractionPhase::Engaged, &rect, outside_pressed);
    assert_eq!(still, InteractionPhase::Engaged);
    let idle = interaction_step(InteractionPhase::Engaged, &rect, inside_released);
    assert_eq!(idle, InteractionPhase::Idle);
    let ignored = interaction_step(InteractionPhase::Idle, &rect, outside_pressed);
    assert_eq!(ignored, InteractionPhase::Idle);
}

#[test]
fn drag_to_quarter_turn_updates_state_and_next_frame_transform() {
    let mut s = OrientationState::new();
    let rect = gizmo_rect(100, 100);
    let press = PointerSample { x: 200, y: 200, pressed: true };
    let phase = interaction_step(InteractionPhase::Idle, &rect, press);
    assert_eq!(phase, InteractionPhase::Engaged);
    let quarter_turn_x = Quat { x: SIN_45, y: 0, z: 0, w: SIN_45 };
    let committed = s.apply_gizmo_result(Some(quarter_turn_x));
    assert!(committed);
    assert_eq!(s.rotation, quarter_turn_x);
    let next_frame = transform_from_orientation(&s);
    assert_eq!(next_frame.rotation, quarter_turn_x);
    assert_eq!(next_frame.scale.x, ROT_ONE);
    assert_eq!(next_frame.scale.y, ROT_ONE);
    assert_eq!(next_frame.scale.z, ROT_ONE);
    assert_eq!(next_frame.translation.x, 0);
    assert_eq!(next_frame.translation.y, 0);
    assert_eq!(next_frame.translation.z, 0);
    let release = PointerSample { x: 200, y: 200, pressed: false };
    assert_eq!(
        interaction_step(phase, &rect, release),
        InteractionPhase::Idle
    );
}
