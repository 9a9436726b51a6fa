//! The simulation context and its two pipelines.
//!
//! All state of the simulation lives in one [`Simulation`], which the caller
//! owns and hands to each step. The order of the steps within a fixed tick
//! and within a frame is fixed here and nowhere else.

use vstd::prelude::*;
use crate::body::{fixed_tick, Body};
use crate::charge::{shoot_ball, ButtonInput, Power, ShootInput, POWER_MIN};
use crate::feedback::{bar_of, update_power_bar, PowerBar};
use crate::fixed::Fixed;
use crate::focus::{capture_after, focused_after, grab_mode, update_focus, CaptureMode, FocusState};
use crate::look::ViewOrientation;
use crate::spawn::{launched_all, spawn_ball, BallSpawn, SpawnChannel};
use crate::vector::Vec3;

verus! {

/// What the outside layers sampled for one frame.
pub struct FrameInput {
    /// The primary action button.
    pub button: ButtonInput,
    /// The way the viewpoint faces.
    pub forward: Vec3,
    /// Time since the previous frame.
    pub elapsed: Fixed,
    /// The window's focus signals of this frame, in the order they arrived.
    pub focus_events: Vec<bool>,
    /// The toggle control went up in this frame.
    pub toggle: bool,
}

/// What a frame hands back to the outside layers.
#[derive(Clone, Copy, PartialEq, Eq, Structural, Debug)]
pub struct FrameReport {
    /// Number of bodies that the frame created, all at the end of the list.
    pub created: usize,
    /// The power bar to draw.
    pub bar: PowerBar,
}

/// The whole state of the simulation.
pub struct Simulation {
    pub power: Power,
    pub focus: FocusState,
    pub capture: CaptureMode,
    pub spawns: SpawnChannel,
    pub view: ViewOrientation,
    pub position: Vec3,
    pub bodies: Vec<Body>,
}

impl Simulation {
    /// What the launch controller reads in the frame `input`: the capture
    /// mode and the viewpoint as the frame finds them.
    pub open spec fn shoot_input(self, input: FrameInput) -> ShootInput {
        ShootInput {
            pointer_visible: self.capture.pointer_visible,
            button: input.button,
            position: self.position,
            forward: input.forward,
            elapsed: input.elapsed,
        }
    }

    /// The requests that the consumer pass of the frame finds: those left
    /// in the channel, then the one that the launch controller wrote.
    pub open spec fn pending(self, input: FrameInput) -> Seq<BallSpawn> {
        match self.power.request(self.shoot_input(input)) {
            Some(spawn) => self.spawns@.push(spawn),
            None => self.spawns@,
        }
    }

    /// A simulation at rest: idle at the floor power, focused with the
    /// pointer free, looking straight ahead from `position`, with no bodies
    /// and no pending requests.
    pub fn new(position: Vec3) -> (sim: Simulation)
        ensures
            !sim.power.charging,
            sim.power.current@ == POWER_MIN,
            sim.focus.focused,
            sim.capture == grab_mode(false),
            sim.spawns@ == Seq::<BallSpawn>::empty(),
            sim.view.yaw@ == 0,
            sim.view.pitch@ == 0,
            sim.position == position,
            sim.bodies@ == Seq::<Body>::empty(),
    {
        Simulation {
            power: Power::new(),
            focus: FocusState::new(),
            capture: CaptureMode::new(),
            spawns: SpawnChannel::new(),
            view: ViewOrientation::new(),
            position,
            bodies: Vec::new(),
        }
    }

    /// One step of the fixed cadence: every body goes through gravity, then
    /// motion, then bounce. Nothing else changes, and no body is left below
    /// the ground plane and moving down.
    pub fn fixed_tick(&mut self, dt: Fixed)
        ensures
            final(self).bodies@.len() == old(self).bodies@.len(),
            forall|i: int|
                0 <= i < old(self).bodies@.len() ==> final(self).bodies@[i] == (
                #[trigger] old(self).bodies@[i]).after_tick(dt),
            forall|i: int| 0 <= i < final(self).bodies@.len() ==> !(#[trigger] final(self).bodies@[i]).sinking(),
            final(self).power == old(self).power,
            final(self).focus == old(self).focus,
            final(self).capture == old(self).capture,
            final(self).spawns@ == old(self).spawns@,
            final(self).view == old(self).view,
            final(self).position == old(self).position,
    {
        fixed_tick(&mut self.bodies, dt);
    }

    /// One step of the variable cadence. The launch controller runs first
    /// and reads the capture mode that the frame found; then the focus state
    /// machine takes the frame's signals and toggle; then the one consumer
    /// pass drains the channel into new bodies; last, the power bar is
    /// mapped from the power as the frame leaves it.
    pub fn frame(&mut self, input: &FrameInput) -> (report: FrameReport)
        ensures
            final(self).power == old(self).power.after_frame(old(self).shoot_input(*input)),
            final(self).focus.focused == focused_after(old(self).focus, input.focus_events@, input.toggle),
            final(self).capture == capture_after(
                old(self).focus,
                old(self).capture,
                input.focus_events@,
                input.toggle,
            ),
            final(self).spawns@ == Seq::<BallSpawn>::empty(),
            final(self).bodies@ == old(self).bodies@ + launched_all(old(self).pending(*input)),
            final(self).view == old(self).view,
            final(self).position == old(self).position,
            report.created == old(self).pending(*input).len(),
            report.bar == bar_of(final(self).power),
    {
        let shoot = ShootInput {
            pointer_visible: self.capture.pointer_visible,
            button: input.button,
            position: self.position,
            forward: input.forward,
            elapsed: input.elapsed,
        };
        if let Some(spawn) = shoot_ball(&mut self.power, &shoot) {
            self.spawns.write(spawn);
        }
        update_focus(&mut self.focus, &mut self.capture, &input.focus_events, input.toggle);
        let created = spawn_ball(&mut self.spawns, &mut self.bodies);
        FrameReport { created, bar: update_power_bar(&self.power) }
    }
}

} // verus!
