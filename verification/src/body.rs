//! Rigid-body motion on the fixed cadence: gravity, integration and the
//! lossless bounce off the ground plane.
//!
//! Within one tick the three steps run in that order over every body. The
//! bounce looks at the velocity that gravity has already changed and at the
//! position that integration has already moved.

use vstd::prelude::*;
use crate::fixed::Fixed;
use crate::vector::Vec3;

verus! {

/// Vertical component of the acceleration of gravity; the other two are zero.
pub const GRAVITY_Y: i64 = -9_800_000;

/// The acceleration of gravity.
pub open spec fn gravity() -> Vec3 {
    Vec3 { x: Fixed { raw: 0 }, y: Fixed { raw: GRAVITY_Y }, z: Fixed { raw: 0 } }
}

/// A body that moves by its velocity under gravity.
#[derive(Clone, Copy, PartialEq, Eq, Structural, Debug)]
pub struct Body {
    pub position: Vec3,
    pub velocity: Vec3,
}

impl Body {
    /// The body after gravity has acted on its velocity for `dt`.
    pub open spec fn with_gravity(self, dt: Fixed) -> Body {
        Body { position: self.position, velocity: self.velocity.plus(gravity().scaled_by(dt)) }
    }

    /// The body after it has moved by its velocity for `dt`.
    pub open spec fn with_motion(self, dt: Fixed) -> Body {
        Body { position: self.position.plus(self.velocity.scaled_by(dt)), velocity: self.velocity }
    }

    /// Below the ground plane and still moving down. A body exactly on the
    /// plane is not sinking.
    pub open spec fn sinking(self) -> bool {
        self.position.y@ < 0 && self.velocity.y@ < 0
    }

    /// The body after ground contact is resolved: a sinking body has its
    /// vertical velocity negated, any other body is unchanged.
    pub open spec fn with_bounce(self) -> Body {
        if self.sinking() {
            Body {
                position: self.position,
                velocity: Vec3 {
                    x: self.velocity.x,
                    y: self.velocity.y.negated(),
                    z: self.velocity.z,
                },
            }
        } else {
            self
        }
    }

    /// The body after one fixed tick: gravity, then motion, then bounce.
    pub open spec fn after_tick(self, dt: Fixed) -> Body {
        self.with_gravity(dt).with_motion(dt).with_bounce()
    }

    /// The body after `n` fixed ticks of the same duration.
    pub open spec fn after_ticks(self, dt: Fixed, n: nat) -> Body
        decreases n,
    {
        if n == 0 {
            self
        } else {
            self.after_ticks(dt, (n - 1) as nat).after_tick(dt)
        }
    }

    /// Adds `gravity * dt` to the velocity.
    pub fn apply_gravity(&mut self, dt: Fixed)
        ensures
            *final(self) == old(self).with_gravity(dt),
    {
        let g = Vec3 { x: Fixed { raw: 0 }, y: Fixed { raw: GRAVITY_Y }, z: Fixed { raw: 0 } };
        self.velocity = self.velocity.saturating_add(g.scaled(dt));
    }

    /// Adds `velocity * dt` to the position.
    pub fn apply_velocity(&mut self, dt: Fixed)
        ensures
            *final(self) == old(self).with_motion(dt),
    {
        self.position = self.position.saturating_add(self.velocity.scaled(dt));
    }

    /// Negates the vertical velocity of a body that is below the ground
    /// plane and moving down.
    pub fn bounce(&mut self)
        ensures
            *final(self) == old(self).with_bounce(),
            !final(self).sinking(),
    {
        if self.position.y.raw < 0 && self.velocity.y.raw < 0 {
            self.velocity.y = self.velocity.y.saturating_neg();
        }
    }

    /// One fixed tick of this body: gravity, then motion, then bounce.
    pub fn tick(&mut self, dt: Fixed)
        ensures
            *final(self) == old(self).after_tick(dt),
            !final(self).sinking(),
    {
        self.apply_gravity(dt);
        self.apply_velocity(dt);
        self.bounce();
    }
}

/// Gravity pulls straight down: it changes the vertical velocity by
/// `GRAVITY_Y * dt` and nothing else.
pub proof fn lemma_gravity_is_vertical(b: Body, dt: Fixed)
    ensures
        b.with_gravity(dt).position == b.position,
        b.with_gravity(dt).velocity.x == b.velocity.x,
        b.with_gravity(dt).velocity.z == b.velocity.z,
        b.with_gravity(dt).velocity.y == b.velocity.y.plus(Fixed { raw: GRAVITY_Y }.times(dt)),
{
    assert(0 * dt@ == 0) by (nonlinear_arith);
}

/// The bounce reverses a sinking body's vertical velocity into a strictly
/// upward one and touches nothing else, so no body is sinking after it and a
/// second bounce changes nothing: one crossing flips the sign once.
pub proof fn lemma_bounce_stops_sinking(b: Body)
    ensures
        !b.with_bounce().sinking(),
        b.with_bounce().position == b.position,
        b.with_bounce().velocity.x == b.velocity.x,
        b.with_bounce().velocity.z == b.velocity.z,
        b.sinking() ==> b.with_bounce().velocity.y@ > 0,
        !b.sinking() ==> b.with_bounce() == b,
        b.with_bounce().with_bounce() == b.with_bounce(),
{
}

/// After any positive number of ticks, of any duration and from any start,
/// the body is not left below the ground plane and moving down.
pub proof fn lemma_ticks_never_leave_sinking(b: Body, dt: Fixed, n: nat)
    requires
        n > 0,
    ensures
        !b.after_ticks(dt, n).sinking(),
{
    lemma_bounce_stops_sinking(b.after_ticks(dt, (n - 1) as nat).with_gravity(dt).with_motion(dt));
}

/// Gravity step over every body.
pub fn apply_gravity(bodies: &mut Vec<Body>, dt: Fixed)
    ensures
        final(bodies)@.len() == old(bodies)@.len(),
        forall|i: int|
            0 <= i < old(bodies)@.len() ==> final(bodies)@[i] == (#[trigger] old(bodies)@[i]).with_gravity(dt),
{
    let ghost before = bodies@;
    let n: usize = bodies.len();
    let mut i: usize = 0;
    while i < n
        invariant
            i <= n,
            bodies@.len() == n,
            before.len() == n,
            forall|j: int| 0 <= j < i ==> bodies@[j] == (#[trigger] before[j]).with_gravity(dt),
            forall|j: int| i <= j < n ==> bodies@[j] == #[trigger] before[j],
        decreases n - i,
    {
        let mut b: Body = bodies[i];
        b.apply_gravity(dt);
        bodies.set(i, b);
        i = i + 1;
    }
}

/// Integration step over every body.
pub fn apply_velocity(bodies: &mut Vec<Body>, dt: Fixed)
    ensures
        final(bodies)@.len() == old(bodies)@.len(),
        forall|i: int|
            0 <= i < old(bodies)@.len() ==> final(bodies)@[i] == (#[trigger] old(bodies)@[i]).with_motion(dt),
{
    let ghost before = bodies@;
    let n: usize = bodies.len();
    let mut i: usize = 0;
    while i < n
        invariant
            i <= n,
            bodies@.len() == n,
            before.len() == n,
            forall|j: int| 0 <= j < i ==> bodies@[j] == (#[trigger] before[j]).with_motion(dt),
            forall|j: int| i <= j < n ==> bodies@[j] == #[trigger] before[j],
        decreases n - i,
    {
        let mut b: Body = bodies[i];
        b.apply_velocity(dt);
        bodies.set(i, b);
        i = i + 1;
    }
}

/// Ground-contact step over every body.
pub fn bounce(bodies: &mut Vec<Body>)
    ensures
        final(bodies)@.len() == old(bodies)@.len(),
        forall|i: int|
            0 <= i < old(bodies)@.len() ==> final(bodies)@[i] == (#[trigger] old(bodies)@[i]).with_bounce(),
{
    let ghost before = bodies@;
    let n: usize = bodies.len();
    let mut i: usize = 0;
    while i < n
        invariant
            i <= n,
            bodies@.len() == n,
            before.len() == n,
            forall|j: int| 0 <= j < i ==> bodies@[j] == (#[trigger] before[j]).with_bounce(),
            forall|j: int| i <= j < n ==> bodies@[j] == #[trigger] before[j],
        decreases n - i,
    {
        let mut b: Body = bodies[i];
        b.bounce();
        bodies.set(i, b);
        i = i + 1;
    }
}

/// One fixed tick over every body: the gravity step, then the integration
/// step, then the ground-contact step.
pub fn fixed_tick(bodies: &mut Vec<Body>, dt: Fixed)
    ensures
        final(bodies)@.len() == old(bodies)@.len(),
        forall|i: int|
            0 <= i < old(bodies)@.len() ==> final(bodies)@[i] == (#[trigger] old(bodies)@[i]).after_tick(dt),
        forall|i: int| 0 <= i < final(bodies)@.len() ==> !(#[trigger] final(bodies)@[i]).sinking(),
{
    apply_gravity(bodies, dt);
    apply_velocity(bodies, dt);
    bounce(bodies);
    proof {
        assert forall|i: int| 0 <= i < bodies@.len() implies !(#[trigger] bodies@[i]).sinking() by {
            lemma_bounce_stops_sinking(old(bodies)@[i].with_gravity(dt).with_motion(dt));
        }
    }
}

} // verus!
