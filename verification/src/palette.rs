//! The colors of the projectiles: a fixed wheel of hues and a seeded
//! generator that picks among them.

use rand::rngs::StdRng;
use rand::seq::IndexedRandom;
use rand::SeedableRng;
use vstd::prelude::*;

verus! {

/// Number of hues on the wheel.
pub const HUES: usize = 36;

/// Degrees between two neighbours on the wheel.
pub const HUE_STEP: u32 = 10;

/// `StdRng` of the rand crate, carried as a value that nothing here looks
/// into.
#[verifier::external_type_specification]
#[verifier::external_body]
pub struct ExStdRng(StdRng);

/// `StdRng::from_seed` of the rand crate: the generator that the seed
/// determines. Nothing is claimed of it.
#[verifier::external_body]
fn seeded(seed: [u8; 32]) -> StdRng {
    StdRng::from_seed(seed)
}

/// `IndexedRandom::choose` of the rand crate on a slice: no element of an
/// empty slice, else one of the slice's elements. Which one it is depends on
/// the generator's state and is left open.
#[verifier::external_body]
fn pick_hue(hues: &Vec<u32>, rng: &mut StdRng) -> (picked: Option<u32>)
    ensures
        hues@.len() == 0 ==> picked is None,
        hues@.len() > 0 ==> picked is Some && hues@.contains(picked->0),
{
    hues.as_slice().choose(rng).copied()
}

/// The hues of the wheel, in degrees: every multiple of `HUE_STEP` below a
/// full turn, in rising order.
pub open spec fn wheel() -> Seq<u32> {
    Seq::new(HUES as nat, |i: int| (HUE_STEP * i) as u32)
}

/// The wheel of hues together with the generator that picks from it.
pub struct BallData {
    hues: Vec<u32>,
    rng: StdRng,
}

impl BallData {
    /// The hues that a pick chooses among.
    pub closed spec fn hues(self) -> Seq<u32> {
        self.hues@
    }

    /// The hues are those of the wheel.
    pub open spec fn wf(self) -> bool {
        self.hues() == wheel()
    }

    /// The wheel with a generator started from `seed`.
    pub fn new(seed: [u8; 32]) -> (data: BallData)
        ensures
            data.wf(),
    {
        let mut hues: Vec<u32> = Vec::new();
        let mut i: usize = 0;
        while i < HUES
            invariant
                i <= HUES,
                hues@.len() == i,
                forall|j: int| 0 <= j < i ==> hues@[j] == HUE_STEP * j,
            decreases HUES - i,
        {
            hues.push(HUE_STEP * (i as u32));
            i = i + 1;
        }
        assert(hues@ =~= wheel());
        BallData { hues, rng: seeded(seed) }
    }

    /// The hues of the wheel, in rising order.
    pub fn materials(&self) -> (hues: Vec<u32>)
        ensures
            hues@ == self.hues(),
    {
        self.hues.clone()
    }

    /// Picks the hue of the next projectile: one of the wheel, so a multiple
    /// of `HUE_STEP` below a full turn.
    pub fn material(&mut self) -> (hue: u32)
        requires
            old(self).wf(),
        ensures
            final(self).wf(),
            wheel().contains(hue),
            hue % HUE_STEP == 0,
            hue < HUES * HUE_STEP,
    {
        match pick_hue(&self.hues, &mut self.rng) {
            Some(hue) => hue,
            None => self.hues[0],
        }
    }
}

} // verus!
