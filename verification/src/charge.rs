//! The launch charge controller: a two-state machine that turns the time
//! between a press and a release into launch power and the release into a
//! spawn request.

use vstd::prelude::*;
use crate::fixed::Fixed;
use crate::spawn::BallSpawn;
use crate::vector::Vec3;

verus! {

/// Least launch power, and the value that the power is reset to.
pub const POWER_MIN: i64 = 1_000_000;

/// Greatest launch power.
pub const POWER_MAX: i64 = 6_000_000;

/// What the input layer reports of one button in one frame.
#[derive(Clone, Copy, PartialEq, Eq, Structural, Debug)]
pub struct ButtonInput {
    /// The button is down.
    pub pressed: bool,
    /// The button went down in this frame.
    pub just_pressed: bool,
    /// The button went up in this frame.
    pub just_released: bool,
}

/// Everything the controller reads in one frame.
#[derive(Clone, Copy, PartialEq, Eq, Structural, Debug)]
pub struct ShootInput {
    /// The pointer is visible, so the simulation does not own the input.
    pub pointer_visible: bool,
    /// The primary action button.
    pub button: ButtonInput,
    /// Where the viewpoint is.
    pub position: Vec3,
    /// The way the viewpoint faces.
    pub forward: Vec3,
    /// Time since the previous frame.
    pub elapsed: Fixed,
}

/// The charge state: idle, or charging with the power gathered so far.
#[derive(Clone, Copy, PartialEq, Eq, Structural, Debug)]
pub struct Power {
    pub charging: bool,
    pub current: Fixed,
}

impl Power {
    /// The power lies between `POWER_MIN` and `POWER_MAX`.
    pub open spec fn wf(self) -> bool {
        POWER_MIN <= self.current@ <= POWER_MAX
    }

    /// The frame releases a charge: the simulation owns the input, the
    /// controller was charging and the button went up.
    pub open spec fn releases(self, input: ShootInput) -> bool {
        !input.pointer_visible && self.charging && input.button.just_released
    }

    /// The request that the frame emits, if any. It carries the power as it
    /// stood before the frame.
    pub open spec fn request(self, input: ShootInput) -> Option<BallSpawn> {
        if self.releases(input) {
            Some(BallSpawn { position: input.position, direction: input.forward, power: self.current })
        } else {
            None
        }
    }

    /// The power after the frame. It moves only in a frame that starts
    /// charging with the input owned. Without a release it grows by the
    /// elapsed time, clamped into range, whether or not the button is
    /// reported down. A release resets it to `POWER_MIN`; a button that is
    /// down again in that same frame then adds the elapsed time to the floor.
    pub open spec fn current_after(self, input: ShootInput) -> Fixed {
        if input.pointer_visible || !self.charging {
            self.current
        } else if !input.button.just_released {
            self.current.plus(input.elapsed).clamped(Fixed { raw: POWER_MIN }, Fixed { raw: POWER_MAX })
        } else if input.button.pressed {
            Fixed { raw: POWER_MIN }.plus(input.elapsed).clamped(
                Fixed { raw: POWER_MIN },
                Fixed { raw: POWER_MAX },
            )
        } else {
            Fixed { raw: POWER_MIN }
        }
    }

    /// Whether the controller is charging after the frame. With the input
    /// owned, a press starts a charge and a release without a press ends one.
    pub open spec fn charging_after(self, input: ShootInput) -> bool {
        if input.pointer_visible {
            self.charging
        } else if input.button.just_pressed {
            true
        } else {
            self.charging && !input.button.just_released
        }
    }

    /// The state after the frame.
    pub open spec fn after_frame(self, input: ShootInput) -> Power {
        Power { charging: self.charging_after(input), current: self.current_after(input) }
    }

    /// The state after the frames `inputs`, taken in order.
    pub open spec fn after_frames(self, inputs: Seq<ShootInput>) -> Power
        decreases inputs.len(),
    {
        if inputs.len() == 0 {
            self
        } else {
            self.after_frames(inputs.drop_last()).after_frame(inputs.last())
        }
    }

    /// The idle state at the floor power.
    pub fn new() -> (p: Power)
        ensures
            p.wf(),
            !p.charging,
            p.current@ == POWER_MIN,
    {
        Power { charging: false, current: Fixed { raw: POWER_MIN } }
    }
}

/// One frame of the launch charge controller.
///
/// While the pointer is visible nothing happens. Otherwise a charging
/// controller answers a release by emitting a request with the power
/// gathered so far and falling back to idle at `POWER_MIN`, and answers a
/// frame without a release by adding the elapsed time to the power, clamped
/// into range; last, a press starts a charge.
pub fn shoot_ball(power: &mut Power, input: &ShootInput) -> (spawn: Option<BallSpawn>)
    ensures
        *final(power) == old(power).after_frame(*input),
        spawn == old(power).request(*input),
        old(power).wf() ==> final(power).wf(),
        !old(power).charging ==> spawn is None && final(power).current == old(power).current,
{
    if input.pointer_visible {
        return None;
    }
    let mut spawn: Option<BallSpawn> = None;
    if power.charging {
        if input.button.just_released {
            spawn = Some(
                BallSpawn { position: input.position, direction: input.forward, power: power.current },
            );
            power.charging = false;
            power.current = Fixed { raw: POWER_MIN };
        }
        if !input.button.just_released || input.button.pressed {
            power.current = power.current.saturating_add(input.elapsed).clamp(
                Fixed { raw: POWER_MIN },
                Fixed { raw: POWER_MAX },
            );
        }
    }
    if input.button.just_pressed {
        power.charging = true;
    }
    spawn
}

/// Whatever the frame brings, a power within range stays within range, and
/// it stays as it is unless the frame starts charging.
pub proof fn lemma_frame_keeps_power_in_range(p: Power, input: ShootInput)
    ensures
        p.wf() ==> p.after_frame(input).wf(),
        !p.charging ==> p.after_frame(input).current == p.current,
        input.pointer_visible ==> p.after_frame(input) == p,
{
}

/// After any sequence of frames, a power that started within range is
/// within range.
pub proof fn lemma_frames_keep_power_in_range(p: Power, inputs: Seq<ShootInput>)
    requires
        p.wf(),
    ensures
        p.after_frames(inputs).wf(),
    decreases inputs.len(),
{
    if inputs.len() > 0 {
        lemma_frames_keep_power_in_range(p, inputs.drop_last());
        lemma_frame_keeps_power_in_range(p.after_frames(inputs.drop_last()), inputs.last());
    }
}

/// In every frame that owns the input and brings no release, a charging
/// power within range grows by the elapsed time, up to `POWER_MAX` and no
/// further, whether or not the button is reported down.
pub proof fn lemma_charge_grows_each_frame(p: Power, input: ShootInput)
    requires
        p.wf(),
        p.charging,
        !input.pointer_visible,
        !input.button.just_released,
        input.elapsed@ >= 0,
    ensures
        p.after_frame(input).charging,
        p.after_frame(input).current@ == if p.current@ + input.elapsed@ <= POWER_MAX {
            p.current@ + input.elapsed@
        } else {
            POWER_MAX as int
        },
        p.request(input) is None,
{
}

/// A charge ends only in a frame that owns the input and sees the button go
/// up, and only such a frame of a charging controller emits a request.
pub proof fn lemma_charge_ends_only_on_release(p: Power, input: ShootInput)
    ensures
        p.charging && !p.after_frame(input).charging ==> !input.pointer_visible
            && input.button.just_released,
        p.request(input) is Some <==> p.charging && !input.pointer_visible
            && input.button.just_released,
{
}

/// A button that goes up while the controller is idle emits nothing.
pub proof fn lemma_release_while_idle_emits_nothing(p: Power, input: ShootInput)
    requires
        !p.charging,
    ensures
        p.request(input) is None,
{
}

/// Releasing a charge of power `p.current` emits exactly the one request
/// that carries that power, the viewpoint's position and its facing, and
/// leaves the controller idle at `POWER_MIN`. The frame of the release must
/// not also bring a new press, nor a button that is down again with time to
/// add.
pub proof fn lemma_release_emits_gathered_power(p: Power, input: ShootInput)
    requires
        p.charging,
        !input.pointer_visible,
        input.button.just_released,
        !input.button.just_pressed,
        !input.button.pressed || input.elapsed@ <= 0,
    ensures
        p.request(input) == Some(
            BallSpawn { position: input.position, direction: input.forward, power: p.current },
        ),
        !p.after_frame(input).charging,
        p.after_frame(input).current@ == POWER_MIN,
        p.after_frame(input).request(input) is None,
{
}

} // verus!
