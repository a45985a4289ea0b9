//! Floor and room generation.
//!
//! Each floor offers five pairs of room options, each option drawn from a
//! weighted pool (55% Challenge, 20% Elite, 25% Rest), followed by the
//! floor's boss. Floors 1 to 5 have their own boss; beyond, the boss is
//! made from the floor number.
//!
//! Score target scaling:
//!   base  = floor_num * 10 + floor_num * room_num (at least 1, at most
//!           u32::MAX)
//!   elite = base * 3 / 2 (at most u32::MAX)
//!   boss  = base at room 5, doubled

use vstd::prelude::*;
use rand::rngs::ThreadRng;

use crate::random::random_in_range;
use crate::scoring::ScoreCategory;

use super::Floor;
use super::room::{BossRoom, Debuff, Room, ScoreTarget};

verus! {

// ─── Target scaling ───────────────────────────────────────────────────────────

/// `a * b`, saturating at `u32::MAX`.
pub open spec fn sat_mul_u32(a: u32, b: u32) -> u32 {
    if a * b > u32::MAX {
        u32::MAX
    } else {
        (a * b) as u32
    }
}

/// Base score target of room `room_num` on floor `floor_num`: floor * 10 +
/// floor * room, at least 1 and at most `u32::MAX`.
pub open spec fn base_target_of(floor_num: usize, room_num: usize) -> u32 {
    let t = floor_num * 10 + floor_num * room_num;
    if t > u32::MAX {
        u32::MAX
    } else if t > 1 {
        t as u32
    } else {
        1
    }
}

/// Target of a boss fight: the base target of room 5, doubled.
pub open spec fn boss_target_of(floor_num: usize) -> u32 {
    sat_mul_u32(base_target_of(floor_num, 5), 2)
}

fn saturating_mul_u32(a: u32, b: u32) -> (r: u32)
    ensures
        r == sat_mul_u32(a, b),
{
    match a.checked_mul(b) {
        Some(x) => x,
        None => u32::MAX,
    }
}

/// Base score target for a room of a floor (floors are numbered from 1).
pub fn base_target(floor_num: usize, room_num: usize) -> (t: u32)
    ensures
        t == base_target_of(floor_num, room_num),
        t >= 1,
{
    let t: u32 = match floor_num.checked_mul(10) {
        None => u32::MAX,
        Some(a) => match floor_num.checked_mul(room_num) {
            None => u32::MAX,
            Some(b) => match a.checked_add(b) {
                None => u32::MAX,
                Some(sum) => if sum > u32::MAX as usize {
                    u32::MAX
                } else {
                    sum as u32
                },
            },
        },
    };
    if t > 1 {
        t
    } else {
        1
    }
}

pub fn challenge_target(floor_num: usize, room_num: usize) -> (t: ScoreTarget)
    ensures
        t.required == base_target_of(floor_num, room_num),
        t.current == base_target_of(floor_num, room_num),
        t.reward_gold == 25,
{
    let target = base_target(floor_num, room_num);
    ScoreTarget { required: target, current: target, reward_gold: 25 }
}

/// Elite target of room `room_num` on floor `floor_num`: half as much
/// again as the base target (rounded down), at most `u32::MAX`.
pub open spec fn elite_target_of(floor_num: usize, room_num: usize) -> u32 {
    let t = base_target_of(floor_num, room_num) * 3 / 2;
    if t > u32::MAX {
        u32::MAX
    } else {
        t as u32
    }
}

/// Elite target: the base target times 3 / 2, capped at `u32::MAX`.
pub fn elite_target(floor_num: usize, room_num: usize) -> (t: ScoreTarget)
    ensures
        t.required == elite_target_of(floor_num, room_num),
        t.current == elite_target_of(floor_num, room_num),
        t.reward_gold == 50,
{
    let e = (base_target(floor_num, room_num) as u64) * 3 / 2;
    let target: u32 = if e > u32::MAX as u64 {
        u32::MAX
    } else {
        e as u32
    };
    ScoreTarget { required: target, current: target, reward_gold: 50 }
}

pub fn boss_target(floor_num: usize) -> (t: ScoreTarget)
    ensures
        t.required == boss_target_of(floor_num),
        t.current == boss_target_of(floor_num),
        t.reward_gold == 0,
{
    let target = saturating_mul_u32(base_target(floor_num, 5), 2);
    ScoreTarget { required: target, current: target, reward_gold: 0 }
}

// ─── Boss data ────────────────────────────────────────────────────────────────

/// Name of the boss of each floor.
pub open spec fn boss_name(floor_num: usize) -> Seq<char> {
    if floor_num == 1 {
        "Rat King"@
    } else if floor_num == 2 {
        "Stone Golem"@
    } else if floor_num == 3 {
        "Goblin King"@
    } else if floor_num == 4 {
        "Dark Wizard"@
    } else {
        "The Dragon"@
    }
}

/// Weakness category of the boss of each floor.
pub open spec fn boss_weakness(floor_num: usize) -> ScoreCategory {
    if floor_num == 1 {
        ScoreCategory::Chance
    } else if floor_num == 2 {
        ScoreCategory::Sixes
    } else if floor_num == 3 {
        ScoreCategory::FullHouse
    } else if floor_num == 4 {
        ScoreCategory::SmallStraight
    } else {
        ScoreCategory::Yahtzee
    }
}

/// Debuff of the boss of each floor.
pub open spec fn boss_debuff(floor_num: usize) -> Debuff {
    if floor_num == 1 {
        Debuff::OneDieForcedOne
    } else if floor_num == 2 {
        Debuff::ExtraHpPerOne(2)
    } else if floor_num == 3 {
        Debuff::ReducedRolls(2)
    } else if floor_num == 4 {
        Debuff::LockedDie
    } else {
        Debuff::DoubleTarget
    }
}

/// Which of the five bosses guards floor `floor_num`: floors 1 to 5 have
/// their own; beyond (and at 0) the five come round again, floor 6 taking
/// the boss of floor 1.
pub open spec fn boss_slot(floor_num: usize) -> usize {
    if floor_num % 5 == 0 {
        5
    } else {
        floor_num % 5
    }
}

/// `b` is the boss of floor `floor_num`: the name, weakness and debuff of
/// its slot, and the boss target of the floor itself.
pub open spec fn is_boss_of(b: BossRoom, floor_num: usize) -> bool {
    &&& b.name@ == boss_name(boss_slot(floor_num))
    &&& b.target.required == boss_target_of(floor_num)
    &&& b.target.current == boss_target_of(floor_num)
    &&& b.target.reward_gold == 0
    &&& b.weakness == boss_weakness(boss_slot(floor_num))
    &&& b.debuff == boss_debuff(boss_slot(floor_num))
}

/// The boss of a floor. Floors 1 to 5 have their own boss; past floor 5
/// the boss is made from the floor number: the bosses come round again,
/// with the floor's own target.
pub fn boss_for_floor(floor_num: usize) -> (b: BossRoom)
    ensures
        is_boss_of(b, floor_num),
{
    let target = boss_target(floor_num);
    let slot = if floor_num % 5 == 0 {
        5
    } else {
        floor_num % 5
    };
    if slot == 1 {
        proof {
            reveal_strlit("Rat King");
        }
        BossRoom {
            name: "Rat King",
            target,
            weakness: ScoreCategory::Chance,
            debuff: Debuff::OneDieForcedOne,
        }
    } else if slot == 2 {
        BossRoom {
            name: "Stone Golem",
            target,
            weakness: ScoreCategory::Sixes,
            debuff: Debuff::ExtraHpPerOne(2),
        }
    } else if slot == 3 {
        BossRoom {
            name: "Goblin King",
            target,
            weakness: ScoreCategory::FullHouse,
            debuff: Debuff::ReducedRolls(2),
        }
    } else if slot == 4 {
        BossRoom {
            name: "Dark Wizard",
            target,
            weakness: ScoreCategory::SmallStraight,
            debuff: Debuff::LockedDie,
        }
    } else {
        BossRoom {
            name: "The Dragon",
            target,
            weakness: ScoreCategory::Yahtzee,
            debuff: Debuff::DoubleTarget,
        }
    }
}

// ─── Room generation ──────────────────────────────────────────────────────────

/// The room a draw `roll` in `0..100` gives: 55..75 an Elite room, 75..100
/// a Rest site, anything else a Challenge.
pub open spec fn room_for_roll_of(floor_num: usize, room_num: usize, roll: usize) -> Room {
    if 55 <= roll < 75 {
        Room::Elite(
            ScoreTarget {
                required: elite_target_of(floor_num, room_num),
                current: elite_target_of(floor_num, room_num),
                reward_gold: 50,
            },
        )
    } else if 75 <= roll < 100 {
        Room::Rest
    } else {
        Room::Challenge(
            ScoreTarget {
                required: base_target_of(floor_num, room_num),
                current: base_target_of(floor_num, room_num),
                reward_gold: 25,
            },
        )
    }
}

/// The weighted pool: of the hundred draws in `0..100`, the 55 below 55
/// give a Challenge, the 20 from 55 to 74 an Elite room and the 25 from 75
/// a Rest site; Challenge and Elite rooms carry the targets of their floor
/// and room.
pub proof fn law_room_weights(floor_num: usize, room_num: usize, roll: usize)
    requires
        roll < 100,
    ensures
        room_for_roll_of(floor_num, room_num, roll) is Challenge <==> roll < 55,
        room_for_roll_of(floor_num, room_num, roll) is Elite <==> 55 <= roll < 75,
        room_for_roll_of(floor_num, room_num, roll) is Rest <==> 75 <= roll,
        room_for_roll_of(floor_num, room_num, roll) matches Room::Challenge(t) ==> t.required
            == base_target_of(floor_num, room_num) && t.reward_gold == 25,
        room_for_roll_of(floor_num, room_num, roll) matches Room::Elite(t) ==> t.required
            == elite_target_of(floor_num, room_num) && t.reward_gold == 50,
{
}

/// A room that drawing from the weighted pool can give.
pub open spec fn is_random_room(room: Room, floor_num: usize, room_num: usize) -> bool {
    exists|roll: usize| roll < 100 && room == room_for_roll_of(floor_num, room_num, roll)
}

/// The room a draw from the weighted pool gives.
pub fn room_for_roll(floor_num: usize, room_num: usize, roll: usize) -> (room: Room)
    ensures
        room == room_for_roll_of(floor_num, room_num, roll),
{
    if 55 <= roll && roll < 75 {
        Room::Elite(elite_target(floor_num, room_num))
    } else if 75 <= roll && roll < 100 {
        Room::Rest
    } else {
        Room::Challenge(challenge_target(floor_num, room_num))
    }
}

/// Pick a single non-boss room from the weighted pool.
pub fn random_room(floor_num: usize, room_num: usize, rng: &mut ThreadRng) -> (room: Room)
    ensures
        is_random_room(room, floor_num, room_num),
{
    let roll = random_in_range(rng, 0, 100);
    room_for_roll(floor_num, room_num, roll)
}

// ─── Floor generation ─────────────────────────────────────────────────────────

/// The number of room steps on a floor before its boss.
pub const ROOMS_PER_FLOOR: usize = 5;

/// `f` is a freshly generated floor `floor_num`: five pairs of options drawn
/// from the weighted pool, nothing chosen yet, at step 0, with the floor's
/// boss.
pub open spec fn is_generated_floor(f: Floor, floor_num: usize) -> bool {
    &&& f.floor_num == floor_num
    &&& f.room_choices@.len() == ROOMS_PER_FLOOR
    &&& forall|i: int, k: int|
        0 <= i < ROOMS_PER_FLOOR && 0 <= k < 2 ==> is_random_room(
            #[trigger] f.room_choices@[i]@[k],
            floor_num,
            i as usize,
        )
    &&& f.rooms_taken@.len() == 0
    &&& f.step == 0
    &&& is_boss_of(f.boss, floor_num)
}

/// Generate a complete floor: five pairs of room options and the boss.
pub fn generate_floor(floor_num: usize, rng: &mut ThreadRng) -> (f: Floor)
    ensures
        is_generated_floor(f, floor_num),
{
    let mut room_choices: Vec<[Room; 2]> = Vec::new();
    let mut room_num: usize = 0;
    while room_num < ROOMS_PER_FLOOR
        invariant
            room_num <= ROOMS_PER_FLOOR,
            room_choices@.len() == room_num,
            forall|i: int, k: int|
                0 <= i < room_num && 0 <= k < 2 ==> is_random_room(
                    #[trigger] room_choices@[i]@[k],
                    floor_num,
                    i as usize,
                ),
        decreases ROOMS_PER_FLOOR - room_num,
    {
        let first = random_room(floor_num, room_num, rng);
        let second = random_room(floor_num, room_num, rng);
        let pair = [first, second];
        assert(pair@[0] == first && pair@[1] == second);
        room_choices.push(pair);
        room_num = room_num + 1;
    }
    let boss = boss_for_floor(floor_num);
    Floor { floor_num, room_choices, rooms_taken: Vec::new(), boss, step: 0 }
}

} // verus!
