//! Walking the viewpoint over the ground plane.
//!
//! The keys give a heading in the viewpoint's own axes, the facing turns it
//! into a direction over the ground, and the viewpoint then advances along
//! that direction once it has been brought to unit length.

use vstd::prelude::*;
use crate::fixed::{Fixed, SCALE};
use crate::vector::Vec3;

verus! {

/// Walking speed.
pub const PLAYER_SPEED: i64 = 50_000_000;

/// Which of the four walking keys are down.
#[derive(Clone, Copy, PartialEq, Eq, Structural, Debug)]
pub struct MoveKeys {
    pub left: bool,
    pub right: bool,
    pub forward: bool,
    pub back: bool,
}

/// The heading that the keys ask for: one step right or left and one step
/// forward or back, where opposite keys cancel.
#[derive(Clone, Copy, PartialEq, Eq, Structural, Debug)]
pub struct MoveAxes {
    pub x: i8,
    pub z: i8,
}

/// One where the key is down, zero where it is up.
pub open spec fn key(down: bool) -> int {
    if down {
        1
    } else {
        0
    }
}

/// The heading of the keys `keys`.
pub open spec fn axes_of(keys: MoveKeys) -> MoveAxes {
    MoveAxes {
        x: (key(keys.right) - key(keys.left)) as i8,
        z: (key(keys.forward) - key(keys.back)) as i8,
    }
}

/// Reads the heading off the keys.
pub fn move_axes(keys: MoveKeys) -> (axes: MoveAxes)
    ensures
        axes == axes_of(keys),
        axes.x == key(keys.right) - key(keys.left),
        axes.z == key(keys.forward) - key(keys.back),
{
    let mut x: i8 = 0;
    let mut z: i8 = 0;
    if keys.left {
        x = x - 1;
    }
    if keys.right {
        x = x + 1;
    }
    if keys.forward {
        z = z + 1;
    }
    if keys.back {
        z = z - 1;
    }
    MoveAxes { x, z }
}

/// `v` taken `steps` times.
pub open spec fn stepped(v: Vec3, steps: int) -> Vec3 {
    v.scaled_by(Fixed { raw: (steps * SCALE) as i64 })
}

/// The direction over the ground that the keys stand for: `forward` once
/// for each step forward plus `right` once for each step right, with the
/// vertical part dropped.
pub open spec fn ground_heading(forward: Vec3, right: Vec3, keys: MoveKeys) -> Vec3 {
    let along = stepped(forward, axes_of(keys).z as int).plus(stepped(right, axes_of(keys).x as int));
    Vec3 { x: along.x, y: Fixed { raw: 0 }, z: along.z }
}

/// Turns the keys into a direction over the ground, given the way the
/// viewpoint faces and the way to its right. The result is not of unit
/// length yet.
pub fn heading(forward: Vec3, right: Vec3, keys: MoveKeys) -> (to_move: Vec3)
    ensures
        to_move == ground_heading(forward, right, keys),
{
    let axes = move_axes(keys);
    let along_forward = forward.scaled(Fixed::from_int(axes.z as i32));
    let along_right = right.scaled(Fixed::from_int(axes.x as i32));
    let mut to_move = along_forward.saturating_add(along_right);
    to_move.y = Fixed::zero();
    to_move
}

/// Moves the viewpoint along `to_move` for `dt` at walking speed:
/// `position += to_move * dt * PLAYER_SPEED`.
pub fn player_move(position: &mut Vec3, to_move: Vec3, dt: Fixed)
    ensures
        *final(position) == old(position).plus(
            to_move.scaled_by(dt).scaled_by(Fixed { raw: PLAYER_SPEED }),
        ),
{
    *position = position.saturating_add(to_move.scaled(dt).scaled(Fixed { raw: PLAYER_SPEED }));
}

} // verus!
