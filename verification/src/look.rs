//! The view controller: pointer motion turned into yaw and pitch.

use vstd::prelude::*;
use crate::fixed::Fixed;

verus! {

/// Greatest pitch: a quarter turn up, rounded toward level.
pub const PITCH_MAX: i64 = 1_570_796;

/// Least pitch: a quarter turn down, rounded toward level.
pub const PITCH_MIN: i64 = -1_570_796;

/// Radians of turn per unit of pointer motion on the reference viewport.
pub const MOUSE_SENSITIVITY: i64 = 10_000;

/// Smaller side of the reference viewport. On a viewport whose smaller side
/// is `k` times this, the same pointer motion turns the view `k` times less.
pub const REFERENCE_SIDE: i64 = 100_000_000;

/// The turn of one unit of pointer motion, times the smaller side of the
/// viewport: `REFERENCE_SIDE * MOUSE_SENSITIVITY`.
pub open spec fn look_gain() -> Fixed {
    Fixed { raw: REFERENCE_SIDE }.times(Fixed { raw: MOUSE_SENSITIVITY })
}

/// The size of the viewport. Both sides are positive.
#[derive(Clone, Copy, Debug)]
pub struct Viewport {
    width: Fixed,
    height: Fixed,
}

impl Viewport {
    #[verifier::type_invariant]
    closed spec fn positive(self) -> bool {
        self.width@ > 0 && self.height@ > 0
    }

    pub closed spec fn width(self) -> Fixed {
        self.width
    }

    pub closed spec fn height(self) -> Fixed {
        self.height
    }

    /// The smaller of the two sides.
    pub open spec fn min_side(self) -> Fixed {
        if self.width()@ <= self.height()@ {
            self.width()
        } else {
            self.height()
        }
    }

    /// A viewport of the given size, where both sides are positive.
    pub fn new(width: Fixed, height: Fixed) -> (v: Option<Viewport>)
        ensures
            v is Some <==> width@ > 0 && height@ > 0,
            v is Some ==> v->0.width() == width && v->0.height() == height,
    {
        if width.raw > 0 && height.raw > 0 {
            Some(Viewport { width, height })
        } else {
            None
        }
    }

    /// The smaller of the two sides, which is positive.
    pub fn smaller_side(&self) -> (m: Fixed)
        ensures
            m == self.min_side(),
            m@ > 0,
    {
        proof {
            use_type_invariant(self);
        }
        if self.width.raw <= self.height.raw {
            self.width
        } else {
            self.height
        }
    }
}

/// Pointer motion gathered over one frame.
#[derive(Clone, Copy, PartialEq, Eq, Structural, Debug)]
pub struct PointerDelta {
    pub x: Fixed,
    pub y: Fixed,
}

/// Where the viewpoint looks: the turn about the vertical axis and the
/// lift above level, both in radians. The roll is always zero.
#[derive(Clone, Copy, PartialEq, Eq, Structural, Debug)]
pub struct ViewOrientation {
    pub yaw: Fixed,
    pub pitch: Fixed,
}

/// The angle that pointer motion `delta` along one axis stands for on a
/// viewport whose smaller side is `side`.
pub open spec fn turn(delta: Fixed, side: Fixed) -> Fixed {
    delta.times_over(look_gain(), side)
}

impl ViewOrientation {
    /// The pitch lies within a quarter turn of level.
    pub open spec fn wf(self) -> bool {
        PITCH_MIN <= self.pitch@ <= PITCH_MAX
    }

    /// The orientation after one frame of pointer motion with the focus:
    /// both angles go down by the turn of their axis, and the pitch is then
    /// clamped to a quarter turn either way.
    pub open spec fn turned(self, delta: PointerDelta, side: Fixed) -> ViewOrientation {
        ViewOrientation {
            yaw: self.yaw.minus(turn(delta.x, side)),
            pitch: self.pitch.minus(turn(delta.y, side)).clamped(
                Fixed { raw: PITCH_MIN },
                Fixed { raw: PITCH_MAX },
            ),
        }
    }

    /// The orientation after one frame: frozen without the focus.
    pub open spec fn after_look(self, focused: bool, delta: PointerDelta, side: Fixed) -> ViewOrientation {
        if focused {
            self.turned(delta, side)
        } else {
            self
        }
    }

    /// Looking straight ahead.
    pub fn new() -> (view: ViewOrientation)
        ensures
            view.yaw@ == 0,
            view.pitch@ == 0,
            view.wf(),
    {
        ViewOrientation { yaw: Fixed::zero(), pitch: Fixed::zero() }
    }
}

/// One frame of the view controller. Without the focus the orientation is
/// frozen; with it, both angles follow the pointer and the pitch is kept
/// within a quarter turn of level.
pub fn player_look(view: &mut ViewOrientation, focused: bool, delta: PointerDelta, viewport: &Viewport)
    ensures
        *final(view) == old(view).after_look(focused, delta, viewport.min_side()),
        focused ==> final(view).wf(),
        old(view).wf() ==> final(view).wf(),
{
    if !focused {
        return ;
    }
    let side = viewport.smaller_side();
    let gain = Fixed { raw: REFERENCE_SIDE }.saturating_mul(Fixed { raw: MOUSE_SENSITIVITY });
    view.pitch = view.pitch.saturating_sub(delta.y.mul_div(gain, side)).clamp(
        Fixed { raw: PITCH_MIN },
        Fixed { raw: PITCH_MAX },
    );
    view.yaw = view.yaw.saturating_sub(delta.x.mul_div(gain, side));
}

/// One frame's worth of what the view controller reads.
pub struct Look {
    pub focused: bool,
    pub delta: PointerDelta,
    pub side: Fixed,
}

/// The orientation after the frames `looks`, taken in order.
pub open spec fn after_looks(view: ViewOrientation, looks: Seq<Look>) -> ViewOrientation
    decreases looks.len(),
{
    if looks.len() == 0 {
        view
    } else {
        after_looks(view, looks.drop_last()).after_look(
            looks.last().focused,
            looks.last().delta,
            looks.last().side,
        )
    }
}

/// A frame with the focus leaves the pitch within a quarter turn of level,
/// whatever the pointer did and wherever the view pointed before.
pub proof fn lemma_turned_pitch_in_range(view: ViewOrientation, delta: PointerDelta, side: Fixed)
    ensures
        view.turned(delta, side).wf(),
{
}

/// After any sequence of frames, with or without the focus, a pitch that
/// started within a quarter turn of level is within it.
pub proof fn lemma_looks_keep_pitch_in_range(view: ViewOrientation, looks: Seq<Look>)
    requires
        view.wf(),
    ensures
        after_looks(view, looks).wf(),
    decreases looks.len(),
{
    if looks.len() > 0 {
        lemma_looks_keep_pitch_in_range(view, looks.drop_last());
    }
}

} // verus!
