use launch_sim::fixed::Fixed;
use launch_sim::look::{
    player_look, PointerDelta, ViewOrientation, Viewport, MOUSE_SENSITIVITY, PITCH_MAX, PITCH_MIN, REFERENCE_SIDE,
};

fn fx(raw: i64) -> Fixed {
    Fixed { raw }
}

fn delta(x: i64, y: i64) -> PointerDelta {
    PointerDelta { x: fx(x), y: fx(y) }
}

fn viewport(width: i64, height: i64) -> Viewport {
    match Viewport::new(fx(width), fx(height)) {
        Some(v) => v,
        None => panic!("both sides must be positive"),
    }
}

#[test]
fn look_constants() {
    assert_eq!(PITCH_MAX, 1_570_796);
    assert_eq!(PITCH_MIN, -1_570_796);
    assert_eq!(MOUSE_SENSITIVITY, 10_000);
    assert_eq!(REFERENCE_SIDE, 100_000_000);
}

#[test]
fn viewport_needs_two_positive_sides() {
    assert!(Viewport::new(fx(1), fx(1)).is_some());
    assert!(Viewport::new(fx(0), fx(720_000_000)).is_none());
    assert!(Viewport::new(fx(1_280_000_000), fx(0)).is_none());
    assert!(Viewport::new(fx(-1), fx(5)).is_none());
    assert!(Viewport::new(fx(5), fx(i64::MIN)).is_none());
}

#[test]
fn smaller_side_is_the_lesser_of_the_two() {
    assert_eq!(viewport(1_280_000_000, 720_000_000).smaller_side().raw, 720_000_000);
    assert_eq!(viewport(600_000_000, 800_000_000).smaller_side().raw, 600_000_000);
    assert_eq!(viewport(500_000_000, 500_000_000).smaller_side().raw, 500_000_000);
}

#[test]
fn new_view_looks_straight_ahead() {
    assert_eq!(ViewOrientation::new(), ViewOrientation { yaw: fx(0), pitch: fx(0) });
}

#[test]
fn pointer_motion_lowers_yaw_and_pitch_by_delta_over_smaller_side() {
    let mut view = ViewOrientation::new();
    player_look(&mut view, true, delta(72_000_000, -36_000_000), &viewport(1_280_000_000, 720_000_000));
    assert_eq!(view, ViewOrientation { yaw: fx(-100_000), pitch: fx(50_000) });
    player_look(&mut view, true, delta(-36_000_000, 72_000_000), &viewport(1_280_000_000, 720_000_000));
    assert_eq!(view, ViewOrientation { yaw: fx(-50_000), pitch: fx(-50_000) });
}

#[test]
fn turn_is_inverse_to_the_smaller_side() {
    let mut small = ViewOrientation::new();
    let mut large = ViewOrientation::new();
    player_look(&mut small, true, delta(10_000_000, 10_000_000), &viewport(100_000_000, 400_000_000));
    player_look(&mut large, true, delta(10_000_000, 10_000_000), &viewport(900_000_000, 200_000_000));
    assert_eq!(small, ViewOrientation { yaw: fx(-100_000), pitch: fx(-100_000) });
    assert_eq!(large, ViewOrientation { yaw: fx(-50_000), pitch: fx(-50_000) });
}

#[test]
fn turn_rounds_toward_zero() {
    let mut view = ViewOrientation::new();
    player_look(&mut view, true, delta(1_000_000, -1_000_000), &viewport(3_000_000, 3_000_000));
    assert_eq!(view, ViewOrientation { yaw: fx(-333_333), pitch: fx(333_333) });
}

#[test]
fn view_is_frozen_without_focus() {
    let mut view = ViewOrientation { yaw: fx(123), pitch: fx(-456) };
    player_look(&mut view, false, delta(72_000_000, -36_000_000), &viewport(1_280_000_000, 720_000_000));
    assert_eq!(view, ViewOrientation { yaw: fx(123), pitch: fx(-456) });
}

#[test]
fn pitch_is_clamped_at_a_quarter_turn_up() {
    let mut view = ViewOrientation::new();
    player_look(&mut view, true, delta(0, -5_000_000_000), &viewport(1_280_000_000, 720_000_000));
    assert_eq!(view.pitch.raw, PITCH_MAX);
    player_look(&mut view, true, delta(0, i64::MIN), &viewport(1, 1));
    assert_eq!(view.pitch.raw, PITCH_MAX);
}

#[test]
fn pitch_is_clamped_at_a_quarter_turn_down() {
    let mut view = ViewOrientation::new();
    player_look(&mut view, true, delta(0, 5_000_000_000), &viewport(1_280_000_000, 720_000_000));
    assert_eq!(view.pitch.raw, PITCH_MIN);
    player_look(&mut view, true, delta(0, i64::MAX), &viewport(1, 1));
    assert_eq!(view.pitch.raw, PITCH_MIN);
}

#[test]
fn pitch_stays_in_range_over_a_long_run() {
    let mut view = ViewOrientation::new();
    let moves = [37_000_000, -912_000_000, 4_000_000_000, -1, i64::MAX, i64::MIN, 0, 250_000_000];
    let port = viewport(640_000_000, 480_000_000);
    for round in 0..400 {
        let dy = moves[round % moves.len()];
        let dx = moves[(round * 5 + 1) % moves.len()];
        player_look(&mut view, round % 7 != 0, delta(dx, dy), &port);
        assert!(PITCH_MIN <= view.pitch.raw && view.pitch.raw <= PITCH_MAX);
    }
}

#[test]
fn focused_look_brings_a_stray_pitch_back_into_range() {
    let mut view = ViewOrientation { yaw: fx(0), pitch: fx(9_000_000) };
    player_look(&mut view, true, delta(0, 0), &viewport(640_000_000, 480_000_000));
    assert_eq!(view.pitch.raw, PITCH_MAX);
}

#[test]
fn yaw_is_not_clamped() {
    let mut view = ViewOrientation::new();
    player_look(&mut view, true, delta(-7_200_000_000, 0), &viewport(1_280_000_000, 720_000_000));
    assert_eq!(view.yaw.raw, 10_000_000);
}
