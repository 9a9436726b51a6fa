use launch_sim::fixed::Fixed;
use launch_sim::movement::{heading, move_axes, player_move, MoveAxes, MoveKeys, PLAYER_SPEED};
use launch_sim::vector::Vec3;

fn vec3(x: i64, y: i64, z: i64) -> Vec3 {
    Vec3 { x: Fixed { raw: x }, y: Fixed { raw: y }, z: Fixed { raw: z } }
}

fn keys(left: bool, right: bool, forward: bool, back: bool) -> MoveKeys {
    MoveKeys { left, right, forward, back }
}

#[test]
fn player_speed_is_fifty() {
    assert_eq!(PLAYER_SPEED, 50_000_000);
}

#[test]
fn each_key_moves_one_step_along_its_axis() {
    assert_eq!(move_axes(keys(false, false, false, false)), MoveAxes { x: 0, z: 0 });
    assert_eq!(move_axes(keys(true, false, false, false)), MoveAxes { x: -1, z: 0 });
    assert_eq!(move_axes(keys(false, true, false, false)), MoveAxes { x: 1, z: 0 });
    assert_eq!(move_axes(keys(false, false, true, false)), MoveAxes { x: 0, z: 1 });
    assert_eq!(move_axes(keys(false, false, false, true)), MoveAxes { x: 0, z: -1 });
}

#[test]
fn opposite_keys_cancel() {
    assert_eq!(move_axes(keys(true, true, false, false)), MoveAxes { x: 0, z: 0 });
    assert_eq!(move_axes(keys(false, false, true, true)), MoveAxes { x: 0, z: 0 });
    assert_eq!(move_axes(keys(true, true, true, true)), MoveAxes { x: 0, z: 0 });
    assert_eq!(move_axes(keys(true, false, true, true)), MoveAxes { x: -1, z: 0 });
}

#[test]
fn heading_combines_forward_and_right_over_the_ground() {
    let forward = vec3(0, 500_000, -866_025);
    let right = vec3(1_000_000, 0, 0);
    assert_eq!(heading(forward, right, keys(false, false, true, false)), vec3(0, 0, -866_025));
    assert_eq!(heading(forward, right, keys(false, false, false, true)), vec3(0, 0, 866_025));
    assert_eq!(heading(forward, right, keys(false, true, true, false)), vec3(1_000_000, 0, -866_025));
    assert_eq!(heading(forward, right, keys(true, false, false, false)), vec3(-1_000_000, 0, 0));
    assert_eq!(heading(forward, right, keys(false, false, false, false)), vec3(0, 0, 0));
}

#[test]
fn player_moves_along_heading_at_walking_speed() {
    let mut position = vec3(1_000_000, 2_000_000, 3_000_000);
    player_move(&mut position, vec3(600_000, 0, -800_000), Fixed { raw: 20_000 });
    assert_eq!(position, vec3(1_600_000, 2_000_000, 2_200_000));
}

#[test]
fn player_stands_still_without_heading_or_time() {
    let mut position = vec3(1, 2, 3);
    player_move(&mut position, vec3(0, 0, 0), Fixed { raw: 20_000 });
    assert_eq!(position, vec3(1, 2, 3));
    player_move(&mut position, vec3(600_000, 0, -800_000), Fixed { raw: 0 });
    assert_eq!(position, vec3(1, 2, 3));
}
