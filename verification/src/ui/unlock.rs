//! The category unlock: shown once after a boss is defeated, to pick a new
//! scoring category out of two random ones.

use vstd::prelude::*;

use crate::game::{descended, unlocked_category, GamePhase, GameState};
use crate::random::choose_two;
use crate::scoring::{category_name, ScoreCategory};
use super::{App, Key};
use super::selecting::{
    available,
    law_available_are_unused,
    lemma_available_no_duplicates,
    unused_of,
};

verus! {

/// The categories a boss defeat can unlock.
pub open spec fn unlockable() -> Seq<ScoreCategory> {
    seq![
        ScoreCategory::Ones,
        ScoreCategory::Twos,
        ScoreCategory::Threes,
        ScoreCategory::Fours,
        ScoreCategory::Fives,
        ScoreCategory::Sixes,
        ScoreCategory::FullHouse,
        ScoreCategory::SmallStraight,
        ScoreCategory::LargeStraight,
        ScoreCategory::Yahtzee,
    ]
}

/// `r` is an offer after a boss for a player who has unlocked `unlocked`:
/// nothing when fewer than two unlockable categories are left, else two of
/// those left, taken from different places of the list.
pub open spec fn is_unlock_offer(unlocked: Seq<ScoreCategory>, r: Option<[ScoreCategory; 2]>) -> bool {
    let left = available(unlockable(), unlocked);
    if left.len() < 2 {
        r is None
    } else {
        r matches Some(o) && exists|i: int, j: int|
            0 <= i < left.len() && 0 <= j < left.len() && i != j && o@[0] == left[i] && o@[1]
                == left[j]
    }
}

/// An offer after a boss holds two different categories, both unlockable
/// and neither unlocked yet.
pub proof fn law_unlock_offer_is_new(unlocked: Seq<ScoreCategory>, o: [ScoreCategory; 2])
    requires
        is_unlock_offer(unlocked, Some(o)),
    ensures
        o@[0] != o@[1],
        !unlocked.contains(o@[0]),
        !unlocked.contains(o@[1]),
        unlockable().contains(o@[0]),
        unlockable().contains(o@[1]),
{
    let left = available(unlockable(), unlocked);
    assert(unlockable().no_duplicates());
    lemma_available_no_duplicates(unlockable(), unlocked);
    law_available_are_unused(unlockable(), unlocked);
    let (i, j) = choose|i: int, j: int|
        0 <= i < left.len() && 0 <= j < left.len() && i != j && o@[0] == left[i] && o@[1]
            == left[j];
    assert(left[i] != left[j]);
}

/// `a` is `b` on the next floor, choosing its first room.
pub open spec fn descended_to_choice(b: GameState, a: GameState) -> bool {
    exists|m: GameState|
        #[trigger] descended(b, m) && a == (GameState {
            phase: GamePhase::ChoosingRoom { cursor: 0 },
            ..m
        })
}

/// The category of the offer that key 1 or 2 picks.
pub open spec fn picked(o: [ScoreCategory; 2], key: Key) -> ScoreCategory {
    if key == Key::Char('1') {
        o@[0]
    } else {
        o@[1]
    }
}

/// What a key does on the unlock screen. With nothing to offer, any key
/// descends to the next floor. Otherwise 1 or 2 unlocks the first or
/// second category offered, clears the offer and descends; other keys
/// change nothing.
pub open spec fn unlock_step(b: App, a: App, key: Key, cont: bool) -> bool {
    &&& cont
    &&& match b.unlock_options {
        None => {
            &&& descended_to_choice(b.state, a.state)
            &&& a.unlock_options == b.unlock_options
            &&& a.roll_animation == b.roll_animation
            &&& a.stashed_shop == b.stashed_shop
        },
        Some(o) => if key == Key::Char('1') || key == Key::Char('2') {
            &&& exists|m: GameState|
                #[trigger] unlocked_category(b.state, m, picked(o, key)) && descended_to_choice(
                    m,
                    a.state,
                )
            &&& a.unlock_options is None
            &&& a.roll_animation == b.roll_animation
            &&& a.stashed_shop == b.stashed_shop
        } else {
            a == b
        },
    }
}

/// The text of the unlock screen.
pub open spec fn unlock_text_of(options: Option<[ScoreCategory; 2]>) -> Seq<char> {
    match options {
        Some(o) => "BOSS DEFEATED! Choose a new scoring category:\n\n[1] "@ + category_name(o@[0])
            + "\n[2] "@ + category_name(o@[1]),
        None => "All categories unlocked! Press any key to continue."@,
    }
}

impl App {
    /// Pick two different categories among those not yet unlocked; `None`
    /// when fewer than two remain.
    pub fn pick_unlock_options(&mut self) -> (r: Option<[ScoreCategory; 2]>)
        ensures
            is_unlock_offer(old(self).state.unlocked@, r),
            final(self).state == old(self).state,
            final(self).unlock_options == old(self).unlock_options,
            final(self).roll_animation == old(self).roll_animation,
            final(self).stashed_shop == old(self).stashed_shop,
    {
        let all: Vec<ScoreCategory> = vec![
            ScoreCategory::Ones,
            ScoreCategory::Twos,
            ScoreCategory::Threes,
            ScoreCategory::Fours,
            ScoreCategory::Fives,
            ScoreCategory::Sixes,
            ScoreCategory::FullHouse,
            ScoreCategory::SmallStraight,
            ScoreCategory::LargeStraight,
            ScoreCategory::Yahtzee,
        ];
        assert(all@ =~= unlockable());
        let left = unused_of(all.as_slice(), self.state.unlocked.as_slice());
        if left.len() < 2 {
            return None;
        }
        let (x, y) = choose_two(&left, &mut self.rng);
        let o = [x, y];
        assert(o@[0] == x && o@[1] == y);
        Some(o)
    }

    /// Handle a key on the unlock screen; never quits.
    pub fn handle_unlock(&mut self, key: Key) -> (cont: bool)
        requires
            old(self).wf(),
            old(self).limits_hold(),
            old(self).state.phase is CategoryUnlock,
        ensures
            unlock_step(*old(self), *final(self), key, cont),
            final(self).wf(),
    {
        let o = match self.unlock_options {
            None => {
                self.descend_to_choice();
                return true;
            },
            Some(o) => o,
        };
        let chosen = match key {
            Key::Char('1') => o[0],
            Key::Char('2') => o[1],
            _ => {
                return true;
            },
        };
        self.state.unlock_category(chosen);
        let ghost m = self.state;
        self.unlock_options = None;
        self.descend_to_choice();
        proof {
            assert(chosen == picked(o, key));
            assert(unlocked_category(old(self).state, m, picked(o, key)));
            assert(descended_to_choice(m, self.state));
        }
        true
    }

    fn descend_to_choice(&mut self)
        requires
            old(self).state.wf(),
            old(self).state.dungeon.floors_view().len() < usize::MAX,
            old(self).state.base_rolls + crate::game::relic_extra_rolls(old(self).state.relics@)
                <= u8::MAX,
        ensures
            descended_to_choice(old(self).state, final(self).state),
            final(self).state.wf(),
            final(self).unlock_options == old(self).unlock_options,
            final(self).roll_animation == old(self).roll_animation,
            final(self).stashed_shop == old(self).stashed_shop,
    {
        self.state.descend(&mut self.rng);
        let ghost m = self.state;
        self.state.phase = GamePhase::ChoosingRoom { cursor: 0 };
        assert(descended(old(self).state, m));
    }

    /// The text of the unlock screen.
    pub fn unlock_text(&self) -> (s: String)
        ensures
            s@ == unlock_text_of(self.unlock_options),
    {
        match self.unlock_options {
            Some(o) => {
                let mut s = String::from_str("BOSS DEFEATED! Choose a new scoring category:\n\n[1] ");
                s.append(o[0].display_name());
                s.append("\n[2] ");
                s.append(o[1].display_name());
                proof {
                    reveal_strlit("BOSS DEFEATED! Choose a new scoring category:\n\n[1] ");
                    reveal_strlit("\n[2] ");
                }
                s
            },
            None => {
                proof {
                    reveal_strlit("All categories unlocked! Press any key to continue.");
                }
                String::from_str("All categories unlocked! Press any key to continue.")
            },
        }
    }
}

} // verus!
