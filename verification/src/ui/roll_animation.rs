//! The roll animation: random values flicker on the unheld dice for a few
//! frames before the real result shows.

use vstd::prelude::*;
use rand::rngs::ThreadRng;

use crate::dice::{Die, DicePool};
use crate::random::random_in_range;

verus! {

/// Frames of flicker before the real result shows.
pub const ROLL_ANIM_FRAMES: u8 = 18;

/// The value shown for a die during one frame: nothing for a held die (it
/// shows its real face), a value from 1 to 6 for the others.
pub open spec fn flicker_ok(shown: Option<u8>, d: Die) -> bool {
    match shown {
        None => d.is_held(),
        Some(v) => !d.is_held() && 1 <= v <= 6,
    }
}

/// `display` is a valid animation frame for `dice`: one entry per die.
pub open spec fn is_flicker_of(display: Seq<Option<u8>>, dice: Seq<Die>) -> bool {
    &&& display.len() == dice.len()
    &&& forall|i: int| 0 <= i < dice.len() ==> flicker_ok(#[trigger] display[i], dice[i])
}

pub struct RollAnimation {
    /// Frames left before the animation ends.
    pub frames_remaining: u8,
    /// Per die: the value shown this frame, `None` for a held die.
    pub display: Vec<Option<u8>>,
}

impl RollAnimation {
    /// Start the animation for the dice of `pool`.
    pub fn new(pool: &DicePool, rng: &mut ThreadRng) -> (a: Self)
        ensures
            a.frames_remaining == ROLL_ANIM_FRAMES,
            is_flicker_of(a.display@, pool.dice@),
    {
        RollAnimation { frames_remaining: ROLL_ANIM_FRAMES, display: random_display(pool, rng) }
    }

    /// Advance by one frame. Returns false once the animation has finished,
    /// at which point the caller drops it so the real values show.
    pub fn tick(&mut self, pool: &DicePool, rng: &mut ThreadRng) -> (active: bool)
        requires
            old(self).frames_remaining >= 1,
        ensures
            final(self).frames_remaining == old(self).frames_remaining - 1,
            active == (final(self).frames_remaining > 0),
            active ==> is_flicker_of(final(self).display@, pool.dice@),
            !active ==> final(self).display@ == old(self).display@,
    {
        self.frames_remaining = self.frames_remaining - 1;
        if self.frames_remaining == 0 {
            return false;
        }
        self.display = random_display(pool, rng);
        true
    }
}

/// A fresh random frame for the dice of `pool`.
fn random_display(pool: &DicePool, rng: &mut ThreadRng) -> (v: Vec<Option<u8>>)
    ensures
        is_flicker_of(v@, pool.dice@),
{
    let mut v: Vec<Option<u8>> = Vec::new();
    let mut i: usize = 0;
    while i < pool.dice.len()
        invariant
            i <= pool.dice@.len(),
            v@.len() == i,
            forall|k: int| 0 <= k < i ==> flicker_ok(#[trigger] v@[k], pool.dice@[k]),
        decreases pool.dice@.len() - i,
    {
        if pool.dice[i].held_flag() {
            v.push(None);
        } else {
            let r = random_in_range(rng, 1, 7);
            v.push(Some(r as u8));
        }
        i = i + 1;
    }
    v
}

} // verus!
