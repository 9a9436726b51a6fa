//! Spawn requests and the per-frame channel that carries them from the
//! launch controller to the creation of bodies.

use vstd::prelude::*;
use crate::body::Body;
use crate::fixed::Fixed;
use crate::vector::Vec3;

verus! {

/// Speed that one unit of launch power gives a projectile.
pub const SHOT_VELOCITY: i64 = 10_000_000;

/// A request to create one projectile.
#[derive(Clone, Copy, PartialEq, Eq, Structural, Debug)]
pub struct BallSpawn {
    /// Where the projectile starts.
    pub position: Vec3,
    /// The way the viewpoint faced at release.
    pub direction: Vec3,
    /// The launch power at release.
    pub power: Fixed,
}

impl BallSpawn {
    /// The body that this request creates: it starts at `position` with the
    /// velocity `direction * power * SHOT_VELOCITY`.
    pub open spec fn launched(self) -> Body {
        Body {
            position: self.position,
            velocity: self.direction.scaled_by(self.power).scaled_by(Fixed { raw: SHOT_VELOCITY }),
        }
    }

    /// Creates the body of this request.
    pub fn launch(&self) -> (b: Body)
        ensures
            b == self.launched(),
    {
        Body {
            position: self.position,
            velocity: self.direction.scaled(self.power).scaled(Fixed { raw: SHOT_VELOCITY }),
        }
    }
}

/// The queue of spawn requests of one frame, in the order they were written.
pub struct SpawnChannel {
    pending: Vec<BallSpawn>,
}

impl View for SpawnChannel {
    type V = Seq<BallSpawn>;

    closed spec fn view(&self) -> Seq<BallSpawn> {
        self.pending@
    }
}

impl SpawnChannel {
    /// An empty channel.
    pub fn new() -> (c: SpawnChannel)
        ensures
            c@ == Seq::<BallSpawn>::empty(),
    {
        SpawnChannel { pending: Vec::new() }
    }

    /// Number of requests that wait to be drained.
    pub fn len(&self) -> (n: usize)
        ensures
            n == self@.len(),
    {
        self.pending.len()
    }

    /// Appends a request behind those already written.
    pub fn write(&mut self, spawn: BallSpawn)
        ensures
            final(self)@ == old(self)@.push(spawn),
    {
        self.pending.push(spawn);
    }

    /// Takes every pending request out, oldest first, and leaves the channel
    /// empty.
    pub fn drain(&mut self) -> (taken: Vec<BallSpawn>)
        ensures
            taken@ == old(self)@,
            final(self)@ == Seq::<BallSpawn>::empty(),
    {
        let mut taken: Vec<BallSpawn> = Vec::new();
        std::mem::swap(&mut taken, &mut self.pending);
        taken
    }
}

/// The bodies that the requests `pending` create, in the same order.
pub open spec fn launched_all(pending: Seq<BallSpawn>) -> Seq<Body> {
    pending.map_values(|spawn: BallSpawn| spawn.launched())
}

/// The single consumer pass of a frame: drains the channel and creates one
/// body per request, in the order the requests were written, behind the
/// bodies that exist already. Returns how many bodies it created.
pub fn spawn_ball(events: &mut SpawnChannel, bodies: &mut Vec<Body>) -> (created: usize)
    ensures
        final(events)@ == Seq::<BallSpawn>::empty(),
        final(bodies)@ == old(bodies)@ + launched_all(old(events)@),
        created == old(events)@.len(),
{
    let ghost before = bodies@;
    let taken = events.drain();
    let n: usize = taken.len();
    let mut i: usize = 0;
    while i < n
        invariant
            i <= n,
            n == taken@.len(),
            bodies@.len() == before.len() + i,
            forall|k: int| 0 <= k < before.len() ==> bodies@[k] == before[k],
            forall|j: int| 0 <= j < i ==> bodies@[before.len() + j] == (#[trigger] taken@[j]).launched(),
        decreases n - i,
    {
        let b = taken[i].launch();
        bodies.push(b);
        i = i + 1;
    }
    assert(bodies@ =~= before + launched_all(taken@));
    n
}

} // verus!
