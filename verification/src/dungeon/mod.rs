//! Floors and dungeon progression.
//!
//! A `Dungeon` is a sequence of floors generated on demand as the player
//! descends: only the first floor exists at the start, and defeating a boss
//! appends the next one.

pub mod generation;
pub mod room;

use vstd::prelude::*;
use rand::rngs::ThreadRng;

use room::{BossRoom, Room};
use generation::{generate_floor, is_generated_floor};

verus! {

// ─── Floor ────────────────────────────────────────────────────────────────────

pub struct Floor {
    pub floor_num: usize,
    /// Pre-generated pairs of room options, one pair per step.
    pub room_choices: Vec<[Room; 2]>,
    /// The chosen option (0 or 1) per step taken so far.
    pub rooms_taken: Vec<usize>,
    pub boss: BossRoom,
    /// Current step: below `room_choices.len()` a room, at it the boss.
    pub step: usize,
}

impl Floor {
    /// The room chosen for the current step, if a choice has been made.
    pub open spec fn chosen_room(self) -> Option<Room> {
        if self.step < self.rooms_taken@.len() && self.step < self.room_choices@.len()
            && self.rooms_taken@[self.step as int] < 2 {
            Some(self.room_choices@[self.step as int]@[self.rooms_taken@[self.step as int] as int])
        } else {
            None
        }
    }

    /// Returns the active room for the current step, or `None` when no choice
    /// has been made yet for it (or the boss is next).
    pub fn current_room(&self) -> (r: Option<&Room>)
        ensures
            r is Some <==> self.chosen_room() is Some,
            r is Some ==> *r.unwrap() == self.chosen_room().unwrap(),
    {
        if self.step < self.rooms_taken.len() && self.step < self.room_choices.len() {
            let choice = self.rooms_taken[self.step];
            if choice < 2 {
                return Some(&self.room_choices[self.step][choice]);
            }
        }
        None
    }

    /// Mutable variant of `current_room`.
    pub fn current_room_mut(&mut self) -> (r: Option<&mut Room>)
        ensures
            r is Some <==> old(self).chosen_room() is Some,
            r is Some ==> *r.unwrap() == old(self).chosen_room().unwrap(),
            r is None ==> *final(self) == *old(self),
            r is Some ==> {
                &&& final(self).floor_num == old(self).floor_num
                &&& final(self).step == old(self).step
                &&& final(self).rooms_taken == old(self).rooms_taken
                &&& final(self).boss == old(self).boss
            },
            r matches Some(x) ==> {
                let step = old(self).step as int;
                let taken = old(self).rooms_taken@[step] as int;
                &&& final(self).room_choices@.len() == old(self).room_choices@.len()
                &&& final(self).room_choices@[step]@[taken] == *final(x)
                &&& final(self).room_choices@[step]@[1 - taken]
                    == old(self).room_choices@[step]@[1 - taken]
                &&& forall|i: int|
                    0 <= i < old(self).room_choices@.len() && i != step ==> (
                    #[trigger] final(self).room_choices@[i]) == old(self).room_choices@[i]
            },
    {
        if self.step < self.rooms_taken.len() && self.step < self.room_choices.len() {
            let choice = self.rooms_taken[self.step];
            if choice < 2 {
                return Some(&mut self.room_choices[self.step][choice]);
            }
        }
        None
    }

    /// Advance to the next step. Returns false, changing nothing, once the
    /// step has moved past the boss.
    pub fn advance(&mut self) -> (moved: bool)
        requires
            old(self).room_choices@.len() < usize::MAX,
        ensures
            moved == (old(self).step <= old(self).room_choices@.len()),
            moved ==> final(self).step == old(self).step + 1,
            !moved ==> final(self).step == old(self).step,
            final(self).floor_num == old(self).floor_num,
            final(self).room_choices == old(self).room_choices,
            final(self).rooms_taken == old(self).rooms_taken,
            final(self).boss == old(self).boss,
    {
        if self.step <= self.room_choices.len() {
            self.step = self.step + 1;
            true
        } else {
            false
        }
    }

    /// True when the player should enter the boss encounter.
    pub fn boss_next(&self) -> (r: bool)
        ensures
            r == (self.step == self.room_choices@.len()),
    {
        self.step == self.room_choices.len()
    }

    /// Record the player's room choice for the current step (0 or 1).
    pub fn choose_room(&mut self, idx: usize)
        ensures
            final(self).rooms_taken@ == old(self).rooms_taken@.push(idx),
            final(self).floor_num == old(self).floor_num,
            final(self).room_choices == old(self).room_choices,
            final(self).boss == old(self).boss,
            final(self).step == old(self).step,
    {
        self.rooms_taken.push(idx);
    }

    /// The two room options for the current step, or `None` when the boss is
    /// next.
    pub fn next_options(&self) -> (r: Option<&[Room; 2]>)
        ensures
            r is Some <==> self.step < self.room_choices@.len(),
            r is Some ==> *r.unwrap() == self.room_choices@[self.step as int],
    {
        if self.step < self.room_choices.len() {
            Some(&self.room_choices[self.step])
        } else {
            None
        }
    }
}

/// The floor after `advance`: one step further, unless already past the
/// boss.
pub open spec fn advanced(f: Floor) -> Floor {
    if f.step <= f.room_choices@.len() {
        Floor { step: (f.step + 1) as usize, ..f }
    } else {
        f
    }
}

/// `a` is the floor `b` after choosing option `idx` for the current step.
pub open spec fn chose_room(b: Floor, a: Floor, idx: usize) -> bool {
    &&& a.rooms_taken@ == b.rooms_taken@.push(idx)
    &&& a.floor_num == b.floor_num
    &&& a.room_choices == b.room_choices
    &&& a.boss == b.boss
    &&& a.step == b.step
}

// ─── Dungeon ──────────────────────────────────────────────────────────────────

pub struct Dungeon {
    floors: Vec<Floor>,
    current_floor: usize,
}

impl Dungeon {
    /// The floors generated so far.
    pub closed spec fn floors_view(self) -> Seq<Floor> {
        self.floors@
    }

    /// Index of the floor the player is on.
    pub closed spec fn current_index(self) -> int {
        self.current_floor as int
    }

    /// The floor the player is on.
    pub open spec fn current(self) -> Floor {
        self.floors_view()[self.current_index()]
    }

    /// Floors are numbered from 1 in order and the player is on the last one.
    pub open spec fn wf(self) -> bool {
        &&& 0 < self.floors_view().len()
        &&& self.current_index() == self.floors_view().len() - 1
        &&& forall|i: int|
            0 <= i < self.floors_view().len() ==> (#[trigger] self.floors_view()[i]).floor_num == i
                + 1
    }

    /// Start a new dungeon run; only the first floor is generated.
    pub fn new(rng: &mut ThreadRng) -> (d: Self)
        ensures
            d.wf(),
            d.floors_view().len() == 1,
            d.current_index() == 0,
            is_generated_floor(d.current(), 1),
    {
        let mut floors: Vec<Floor> = Vec::new();
        floors.push(generate_floor(1, rng));
        Dungeon { floors, current_floor: 0 }
    }

    /// How many floors have been generated so far.
    pub fn floor_count(&self) -> (n: usize)
        ensures
            n == self.floors_view().len(),
    {
        self.floors.len()
    }

    /// Index (from 0) of the floor the player is on.
    pub fn current_floor_index(&self) -> (i: usize)
        ensures
            i == self.current_index(),
    {
        self.current_floor
    }

    /// The floor the player is currently on.
    pub fn current_floor(&self) -> (f: &Floor)
        requires
            self.wf(),
        ensures
            *f == self.current(),
    {
        &self.floors[self.current_floor]
    }

    /// Mutable access to the current floor.
    pub fn current_floor_mut(&mut self) -> (f: &mut Floor)
        requires
            old(self).wf(),
        ensures
            *f == old(self).current(),
            final(self).floors_view() == old(self).floors_view().update(
                old(self).current_index(),
                *final(f),
            ),
            final(self).current_index() == old(self).current_index(),
    {
        &mut self.floors[self.current_floor]
    }

    /// `self` is `before` with its current floor replaced by `f`.
    pub open spec fn current_becomes(self, before: Dungeon, f: Floor) -> bool {
        &&& self.floors_view() == before.floors_view().update(before.current_index(), f)
        &&& self.current_index() == before.current_index()
    }

    /// Called after the boss is defeated: generates and appends the next
    /// floor and moves onto it.
    pub fn descend(&mut self, rng: &mut ThreadRng)
        requires
            old(self).wf(),
            old(self).floors_view().len() < usize::MAX,
        ensures
            final(self).wf(),
            final(self).floors_view().len() == old(self).floors_view().len() + 1,
            final(self).floors_view().drop_last() == old(self).floors_view(),
            final(self).current_index() == old(self).current_index() + 1,
            is_generated_floor(final(self).current(), (old(self).floors_view().len() + 1) as usize),
    {
        let next_num = self.floors.len() + 1;
        self.floors.push(generate_floor(next_num, rng));
        self.current_floor = self.current_floor + 1;
        assert(self.floors@.drop_last() =~= old(self).floors@);
    }
}

} // verus!
