//! Room types and the data they carry.
//!
//! A floor is a series of room choices followed by a boss. Each non-boss
//! room is a Challenge, an Elite or a Rest site. Boss rooms are fixed per
//! floor. Debuffs are active for a whole boss fight.

use vstd::prelude::*;

use crate::scoring::ScoreCategory;

verus! {

// ─── ScoreTarget ──────────────────────────────────────────────────────────────

#[derive(Debug, Clone, Copy, PartialEq, Eq, Structural)]
pub struct ScoreTarget {
    pub required: u32,
    pub reward_gold: u32,
    pub current: u32,
}

// ─── Debuff ───────────────────────────────────────────────────────────────────

#[derive(Debug, Clone, Copy, PartialEq, Eq, Structural)]
pub enum Debuff {
    /// One die in the pool always shows 1 at the start of each roll.
    OneDieForcedOne,
    /// Each die showing 1 after a roll costs this many extra HP.
    ExtraHpPerOne(u32),
    /// The player only gets this many rolls per attempt.
    ReducedRolls(u8),
    /// One randomly chosen die is locked (cannot be held or rerolled) each roll.
    LockedDie,
    /// The score target is doubled; scoring the boss weakness heals 15 HP.
    DoubleTarget,
}

// ─── BossRoom ─────────────────────────────────────────────────────────────────

#[derive(Debug, Clone, Copy, PartialEq, Eq)]
pub struct BossRoom {
    pub name: &'static str,
    pub target: ScoreTarget,
    /// Scoring this category counts for 1.5x progress.
    pub weakness: ScoreCategory,
    pub debuff: Debuff,
}

// ─── Room ─────────────────────────────────────────────────────────────────────

#[derive(Debug, Clone, Copy, PartialEq, Eq, Structural)]
pub enum Room {
    /// Standard score challenge: beat the target to earn gold, miss to lose HP.
    Challenge(ScoreTarget),
    /// Harder room: better gold.
    Elite(ScoreTarget),
    /// Restore 15 HP or upgrade one die.
    Rest,
}

/// The letter that stands for a room on the floor map.
pub open spec fn short_form_text(room: Room) -> Seq<char> {
    match room {
        Room::Challenge(_) => "C"@,
        Room::Elite(_) => "E"@,
        Room::Rest => "R"@,
    }
}

/// The gold a room pays on success (nothing for a Rest site).
pub open spec fn reward_of(room: Room) -> u32 {
    match room {
        Room::Challenge(t) => t.reward_gold,
        Room::Elite(t) => t.reward_gold,
        Room::Rest => 0,
    }
}

impl Room {
    pub fn short_form(&self) -> (s: String)
        ensures
            s@ == short_form_text(*self),
    {
        match self {
            Room::Challenge(_) => String::from_str("C"),
            Room::Elite(_) => String::from_str("E"),
            Room::Rest => String::from_str("R"),
        }
    }

    /// The gold the room pays on success.
    pub fn reward_gold(&self) -> (g: u32)
        ensures
            g == reward_of(*self),
    {
        match self {
            Room::Challenge(t) => t.reward_gold,
            Room::Elite(t) => t.reward_gold,
            Room::Rest => 0,
        }
    }
}

} // verus!
