//! Run state and its lifecycle.
//!
//! `GameState` is the single source of truth for a run: dice pool, HP, gold,
//! dungeon position, unlocked categories and held relics. `GamePhase` says
//! which screen the game is on and which inputs are valid; the transitions
//! are methods here so the interface layer stays thin.

use vstd::prelude::*;
use rand::rngs::ThreadRng;

use crate::dice::{
    Die,
    DicePool,
    DieUpgrade,
    enchant_sum,
    released,
    pool_values,
    DieType,
};
use crate::dungeon::Dungeon;
use crate::dungeon::generation::is_generated_floor;
use crate::dungeon::room::Room;
use crate::relics::{
    AnyRelic,
    Relic,
    after_floor_start,
    after_hp_loss,
    extra_rolls_of,
    hp_loss_of,
    loaded_dice_reroll,
    max_hp_modifier_of,
};
use crate::scoring::{MAX_SCORED_DICE, ScoreCategory, calculate_for, is_category_score};
use crate::shop::{ShopItem, ShopItemKind};

verus! {

// ─── UpgradeKind ──────────────────────────────────────────────────────────────

/// The two upgrades a player picks a face for.
#[derive(Debug, Clone, Copy, PartialEq, Eq, Structural)]
pub enum UpgradeKind {
    Augment,
    Enchant,
}

// ─── GamePhase ────────────────────────────────────────────────────────────────

/// Which screen the game is on.
pub enum GamePhase {
    /// The title menu shown before a run starts.
    MainMenu { cursor: usize },
    /// Rolling and holding dice.
    Rolling,
    /// Choosing which category to score.
    SelectingCategory { cursor: usize, from_boss: bool },
    /// Result of a scoring; shown before advancing.
    Scored { score: usize, target: u32, success: bool },
    /// Boss fight in progress.
    Boss,
    /// In a shop.
    Shop { items: Vec<ShopItem>, cursor: usize },
    /// At a campfire: heal or upgrade.
    Rest { cursor: usize },
    /// Picking the die to upgrade (or to replace with `pending_die`).
    UpgradeSelectDie {
        die_cursor: usize,
        kind: UpgradeKind,
        from_shop: bool,
        pending_die: Option<Die>,
    },
    /// Picking the face of the chosen die to upgrade.
    UpgradeSelectFace { die_index: usize, face_cursor: usize, kind: UpgradeKind, from_shop: bool },
    /// Choosing the next room.
    ChoosingRoom { cursor: usize },
    /// A boss was defeated; pick a new category.
    CategoryUnlock,
    /// The run is over.
    GameOver,
}

/// Moves a cursor over `len` entries one step forward or back, wrapping
/// around at both ends.
pub open spec fn wrapped(cursor: int, len: int, forward: bool) -> int {
    if forward {
        if cursor + 1 >= len {
            0
        } else {
            cursor + 1
        }
    } else {
        if cursor == 0 || cursor >= len {
            len - 1
        } else {
            cursor - 1
        }
    }
}

/// A step forward and a step back (in either order) bring a cursor inside
/// the list back where it was.
pub proof fn law_wrap_round_trip(cursor: int, len: int)
    requires
        0 <= cursor < len,
    ensures
        wrapped(wrapped(cursor, len, true), len, false) == cursor,
        wrapped(wrapped(cursor, len, false), len, true) == cursor,
        0 <= wrapped(cursor, len, true) < len,
        0 <= wrapped(cursor, len, false) < len,
{
}

/// Moves a cursor over `len` entries one step forward or back, wrapping.
pub fn wrap_cursor(cursor: usize, len: usize, forward: bool) -> (c: usize)
    requires
        len > 0,
    ensures
        c == wrapped(cursor as int, len as int, forward),
        c < len,
{
    if forward {
        if cursor >= len - 1 {
            0
        } else {
            cursor + 1
        }
    } else {
        if cursor == 0 || cursor >= len {
            len - 1
        } else {
            cursor - 1
        }
    }
}

/// The phase with its cursor set to `c`, for the phases that have one
/// (menu, category list, shop, rest site, room choice).
pub open spec fn cursor_set(p: GamePhase, c: usize) -> GamePhase {
    match p {
        GamePhase::MainMenu { .. } => GamePhase::MainMenu { cursor: c },
        GamePhase::SelectingCategory { from_boss, .. } => GamePhase::SelectingCategory {
            cursor: c,
            from_boss,
        },
        GamePhase::Rest { .. } => GamePhase::Rest { cursor: c },
        GamePhase::ChoosingRoom { .. } => GamePhase::ChoosingRoom { cursor: c },
        GamePhase::Shop { items, .. } => GamePhase::Shop { items, cursor: c },
        _ => p,
    }
}

impl GamePhase {
    /// Set the cursor of a phase that has one (menu, category list, shop,
    /// rest site, room choice); other phases are unchanged.
    pub fn set_cursor(&mut self, c: usize)
        ensures
            *final(self) == cursor_set(*old(self), c),
    {
        match self {
            GamePhase::MainMenu { cursor } => {
                *cursor = c;
            },
            GamePhase::SelectingCategory { cursor, .. } => {
                *cursor = c;
            },
            GamePhase::Rest { cursor } => {
                *cursor = c;
            },
            GamePhase::ChoosingRoom { cursor } => {
                *cursor = c;
            },
            GamePhase::Shop { cursor, .. } => {
                *cursor = c;
            },
            _ => {},
        }
    }

    /// Move the die cursor of the die-selection phase one die forward or
    /// back, wrapping over `len` dice; other phases are unchanged.
    pub fn cycle_die_cursor(&mut self, forward: bool, len: usize)
        requires
            len > 0,
        ensures
            match *old(self) {
                GamePhase::UpgradeSelectDie { die_cursor, kind, from_shop, pending_die } => *final(self) == (GamePhase::UpgradeSelectDie {
                    die_cursor: wrapped(die_cursor as int, len as int, forward) as usize,
                    kind,
                    from_shop,
                    pending_die,
                }),
                _ => *final(self) == *old(self),
            },
    {
        match self {
            GamePhase::UpgradeSelectDie { die_cursor, .. } => {
                *die_cursor = wrap_cursor(*die_cursor, len, forward);
            },
            _ => {},
        }
    }

    /// Move the face cursor of the face-selection phase one face forward or
    /// back, wrapping over `len` faces; other phases are unchanged.
    pub fn cycle_face_cursor(&mut self, forward: bool, len: usize)
        requires
            len > 0,
        ensures
            match *old(self) {
                GamePhase::UpgradeSelectFace { die_index, face_cursor, kind, from_shop } => *final(self) == (GamePhase::UpgradeSelectFace {
                    die_index,
                    face_cursor: wrapped(face_cursor as int, len as int, forward) as usize,
                    kind,
                    from_shop,
                }),
                _ => *final(self) == *old(self),
            },
    {
        match self {
            GamePhase::UpgradeSelectFace { face_cursor, .. } => {
                *face_cursor = wrap_cursor(*face_cursor, len, forward);
            },
            _ => {},
        }
    }
}

// ─── Model of the relic hooks over a run ──────────────────────────────────────

/// Extra rolls per room granted by all the relics held.
pub open spec fn relic_extra_rolls(relics: Seq<AnyRelic>) -> nat
    decreases relics.len(),
{
    if relics.len() == 0 {
        0
    } else {
        relic_extra_rolls(relics.drop_last()) + extra_rolls_of(relics.last())
    }
}

/// HP actually lost when a loss of `amount` goes through every relic in
/// order, each one seeing what the previous ones left.
pub open spec fn damage_after(relics: Seq<AnyRelic>, amount: u32) -> u32
    decreases relics.len(),
{
    if relics.len() == 0 {
        amount
    } else {
        hp_loss_of(relics.last(), damage_after(relics.drop_last(), amount))
    }
}

/// What the roll-start hook of relic `r` can make of the dice `before`.
pub open spec fn relic_roll_step(r: AnyRelic, before: Seq<Die>, after: Seq<Die>, first_roll: bool) -> bool {
    match r {
        AnyRelic::LoadedDice(_) => loaded_dice_reroll(before, after, first_roll),
        _ => after == before,
    }
}

/// `trace` records the dice before and after each roll-start hook of
/// `relics`, fired in order from `before`.
pub open spec fn is_reroll_trace(
    relics: Seq<AnyRelic>,
    trace: Seq<Seq<Die>>,
    before: Seq<Die>,
    first_roll: bool,
) -> bool {
    &&& trace.len() == relics.len() + 1
    &&& trace[0] == before
    &&& forall|k: int|
        0 <= k < relics.len() ==> relic_roll_step(
            #[trigger] relics[k],
            trace[k],
            trace[k + 1],
            first_roll,
        )
}

/// `after` is what the roll-start hooks of `relics`, fired in order, can
/// make of the dice `before`.
pub open spec fn relics_rerolled(
    relics: Seq<AnyRelic>,
    before: Seq<Die>,
    after: Seq<Die>,
    first_roll: bool,
) -> bool {
    exists|trace: Seq<Seq<Die>>|
        #[trigger] is_reroll_trace(relics, trace, before, first_roll) && trace.last() == after
}

/// `after` is what one roll of the pool makes of the dice `before`: held
/// dice keep their face, the others show one of their faces.
pub open spec fn rolled_dice(before: Seq<Die>, after: Seq<Die>) -> bool {
    &&& after.len() == before.len()
    &&& forall|i: int|
        0 <= i < before.len() ==> if before[i].is_held() {
            (#[trigger] after[i]) == before[i]
        } else {
            after[i].is_roll_of(before[i])
        }
}

/// The maximum HP after acquiring a relic that changes it by `m`: the sum
/// taken in `i32` (the old maximum read as an `i32`), at least 1.
pub open spec fn max_hp_after(max_hp: u32, m: int) -> u32 {
    if (max_hp as i32) + m < 1 {
        1
    } else {
        ((max_hp as i32) + m) as u32
    }
}

/// HP after healing `amount`: capped at the maximum.
pub open spec fn healed(hp: u32, amount: u32, max_hp: u32) -> u32 {
    if hp + amount < max_hp {
        (hp + amount) as u32
    } else {
        max_hp
    }
}

/// The unlocked categories after unlocking `c`: added once, at the end.
pub open spec fn with_unlocked(list: Seq<ScoreCategory>, c: ScoreCategory) -> Seq<ScoreCategory> {
    if list.contains(c) {
        list
    } else {
        list.push(c)
    }
}

/// Whether a payment of `amount` goes through, and the gold left after it.
pub open spec fn spend_result(gold: u32, amount: u32) -> (bool, u32) {
    if gold >= amount {
        (true, (gold - amount) as u32)
    } else {
        (false, gold)
    }
}

// ─── Laws ─────────────────────────────────────────────────────────────────────

/// Unlocking a category twice is the same as unlocking it once, and the
/// list of unlocked categories never holds a category twice.
pub proof fn law_unlock_idempotent(list: Seq<ScoreCategory>, c: ScoreCategory)
    ensures
        with_unlocked(with_unlocked(list, c), c) == with_unlocked(list, c),
        with_unlocked(list, c).contains(c),
        list.no_duplicates() ==> with_unlocked(list, c).no_duplicates(),
{
    if !list.contains(c) {
        let l2 = list.push(c);
        assert(l2[l2.len() - 1] == c);
        assert(l2.contains(c));
        if list.no_duplicates() {
            assert forall|i: int, j: int| 0 <= i < j < l2.len() implies l2[i] != l2[j] by {
                if j == l2.len() - 1 {
                    assert(l2[i] == list[i]);
                }
            }
        }
    }
}

/// Gold earned can be spent again: after earning `amount`, paying the same
/// amount goes through and leaves the gold as it was.
pub proof fn law_earn_then_spend(gold: u32, amount: u32)
    requires
        gold + amount <= u32::MAX,
    ensures
        spend_result((gold + amount) as u32, amount) == (true, gold),
{
}

/// Relics never make an HP loss larger than it was.
pub proof fn law_relics_never_add_damage(relics: Seq<AnyRelic>, amount: u32)
    ensures
        damage_after(relics, amount) <= amount,
    decreases relics.len(),
{
    if relics.len() > 0 {
        law_relics_never_add_damage(relics.drop_last(), amount);
    }
}

/// A relic without an HP-loss hook (neither the Lucky Horseshoe nor the
/// Shield of the Ancients) passes a loss through: holding one more such
/// relic, after the others, leaves the HP lost unchanged.
pub proof fn law_pass_through_relic_keeps_damage(relics: Seq<AnyRelic>, r: AnyRelic, amount: u32)
    requires
        !(r is LuckyHorseshoe),
        !(r is ShieldOfTheAncients),
    ensures
        damage_after(relics.push(r), amount) == damage_after(relics, amount),
{
    assert(relics.push(r).drop_last() =~= relics);
}

/// A Lucky Horseshoe anywhere among the relics caps every HP loss at 5:
/// each relic sees what the relics before it left, and none of them
/// makes a loss larger.
pub proof fn law_horseshoe_caps_damage(relics: Seq<AnyRelic>, k: int, amount: u32)
    requires
        0 <= k < relics.len(),
        relics[k] is LuckyHorseshoe,
    ensures
        damage_after(relics, amount) <= 5,
    decreases relics.len(),
{
    let init = relics.drop_last();
    if k < relics.len() - 1 {
        assert(init[k] == relics[k]);
        law_horseshoe_caps_damage(init, k, amount);
    }
}

/// A Shield of the Ancients not yet used this floor, anywhere among the
/// relics, negates the whole loss: the relics after it see nothing to
/// pass on.
pub proof fn law_fresh_shield_negates_damage(relics: Seq<AnyRelic>, k: int, amount: u32)
    requires
        0 <= k < relics.len(),
        relics[k] matches AnyRelic::ShieldOfTheAncients(s) && !s.used(),
    ensures
        damage_after(relics, amount) == 0,
    decreases relics.len(),
{
    let init = relics.drop_last();
    if k < relics.len() - 1 {
        assert(init[k] == relics[k]);
        law_fresh_shield_negates_damage(init, k, amount);
    }
}

/// With a Lucky Horseshoe held and no Shield of the Ancients, a loss of
/// `amount` costs exactly `min(amount, 5)` HP, wherever the Horseshoe
/// stands among the relics.
pub proof fn law_horseshoe_damage_exact(relics: Seq<AnyRelic>, k: int, amount: u32)
    requires
        0 <= k < relics.len(),
        relics[k] is LuckyHorseshoe,
        forall|j: int| 0 <= j < relics.len() ==> !(#[trigger] relics[j] is ShieldOfTheAncients),
    ensures
        damage_after(relics, amount) == if amount < 5 {
            amount
        } else {
            5
        },
    decreases relics.len(),
{
    let init = relics.drop_last();
    assert forall|j: int| 0 <= j < init.len() implies !(#[trigger] init[j] is ShieldOfTheAncients) by {
        assert(init[j] == relics[j]);
    }
    assert(!(relics[relics.len() - 1] is ShieldOfTheAncients));
    if k < relics.len() - 1 {
        assert(init[k] == relics[k]);
        law_horseshoe_damage_exact(init, k, amount);
    } else {
        law_relics_never_add_damage(init, amount);
        lemma_no_shield_passes_through(init, amount);
    }
}

/// Without a Shield of the Ancients, the HP lost is the amount capped at 5
/// when a Horseshoe is held, and the amount itself otherwise.
proof fn lemma_no_shield_passes_through(relics: Seq<AnyRelic>, amount: u32)
    requires
        forall|j: int| 0 <= j < relics.len() ==> !(#[trigger] relics[j] is ShieldOfTheAncients),
    ensures
        damage_after(relics, amount) == amount || (damage_after(relics, amount) == 5 && amount >= 5),
    decreases relics.len(),
{
    if relics.len() > 0 {
        let init = relics.drop_last();
        assert forall|j: int| 0 <= j < init.len() implies !(#[trigger] init[j] is ShieldOfTheAncients) by {
            assert(init[j] == relics[j]);
        }
        assert(!(relics[relics.len() - 1] is ShieldOfTheAncients));
        lemma_no_shield_passes_through(init, amount);
    }
}

/// The floor-start hooks never change the extra rolls relics grant, so
/// `begin_room` computes the same number of rolls every room: bonuses do
/// not accumulate.
pub proof fn law_floor_start_keeps_extra_rolls(before: Seq<AnyRelic>, after: Seq<AnyRelic>)
    requires
        after.len() == before.len(),
        forall|i: int|
            0 <= i < before.len() ==> after_floor_start(before[i], #[trigger] after[i]) || after[i]
                == before[i],
    ensures
        relic_extra_rolls(after) == relic_extra_rolls(before),
    decreases before.len(),
{
    if before.len() > 0 {
        law_floor_start_keeps_extra_rolls(before.drop_last(), after.drop_last());
        assert(after_floor_start(before.last(), after.last()) || after.last() == before.last());
    }
}

/// Losing HP never changes the extra rolls the relics grant.
pub proof fn law_hp_loss_keeps_extra_rolls(before: Seq<AnyRelic>, after: Seq<AnyRelic>)
    requires
        after.len() == before.len(),
        forall|i: int| 0 <= i < before.len() ==> after_hp_loss(before[i], #[trigger] after[i]),
    ensures
        relic_extra_rolls(after) == relic_extra_rolls(before),
    decreases before.len(),
{
    if before.len() > 0 {
        law_hp_loss_keeps_extra_rolls(before.drop_last(), after.drop_last());
        assert(after_hp_loss(before.last(), after.last()));
    }
}

// ─── GameState ────────────────────────────────────────────────────────────────

/// Starting HP of a run.
pub const START_HP: u32 = 30;

/// Rolls per room before relic bonuses.
pub const START_ROLLS: u8 = 3;

pub struct GameState {
    pub dice_pool: DicePool,
    pub hp: u32,
    pub max_hp: u32,
    pub gold: u32,
    pub dungeon: Dungeon,
    /// Categories the player has unlocked and can score this run.
    pub unlocked: Vec<ScoreCategory>,
    /// Categories already scored this room (cleared at the start of a room).
    pub used_this_room: Vec<ScoreCategory>,
    pub relics: Vec<AnyRelic>,
    pub phase: GamePhase,
    /// Rolls per room before relic bonuses; `begin_room` recomputes the
    /// pool's maximum from it so bonuses do not accumulate.
    pub base_rolls: u8,
}

// ─── Transitions of the run state ─────────────────────────────────────────────

/// Nothing of the run changes but, possibly, the phase.
pub open spec fn keeps_run(b: GameState, a: GameState) -> bool {
    &&& a.dice_pool == b.dice_pool
    &&& a.hp == b.hp
    &&& a.max_hp == b.max_hp
    &&& a.gold == b.gold
    &&& a.dungeon == b.dungeon
    &&& a.unlocked == b.unlocked
    &&& a.used_this_room == b.used_this_room
    &&& a.relics@ == b.relics@
    &&& a.base_rolls == b.base_rolls
}

/// `a` is `b` after the start of a room: used categories cleared, the
/// relics' floor-start hooks fired on the first step of a floor, the rolls
/// reset to the base rolls plus relic bonuses and every die released.
pub open spec fn began_room(b: GameState, a: GameState) -> bool {
    &&& a.used_this_room@.len() == 0
    &&& a.relics@.len() == b.relics@.len()
    &&& forall|i: int|
        0 <= i < b.relics@.len() ==> if b.dungeon.current().step == 0 {
            after_floor_start(b.relics@[i], #[trigger] a.relics@[i])
        } else {
            a.relics@[i] == b.relics@[i]
        }
    &&& a.dice_pool.max_rolls == b.base_rolls + relic_extra_rolls(b.relics@)
    &&& a.dice_pool.rolls_remaining == a.dice_pool.max_rolls
    &&& a.dice_pool.dice@ == released(b.dice_pool.dice@)
    &&& a.hp == b.hp
    &&& a.max_hp == b.max_hp
    &&& a.gold == b.gold
    &&& a.dungeon == b.dungeon
    &&& a.unlocked == b.unlocked
    &&& a.phase == b.phase
    &&& a.base_rolls == b.base_rolls
}

/// `a` is `b` after a roll request answered `r`: the relics' roll-start
/// hooks fired, then, when a roll remained, the unheld dice rolled.
pub open spec fn roll_done(b: GameState, a: GameState, r: bool) -> bool {
    &&& r == (b.dice_pool.rolls_remaining > 0)
    &&& exists|mid: Seq<Die>|
        #[trigger] relics_rerolled(b.relics@, b.dice_pool.dice@, mid, b.dice_pool.at_first_roll())
            && if r {
            rolled_dice(mid, a.dice_pool.dice@)
        } else {
            a.dice_pool.dice@ == mid
        }
    &&& r ==> a.dice_pool.rolls_remaining == b.dice_pool.rolls_remaining - 1
    &&& !r ==> a.dice_pool.rolls_remaining == b.dice_pool.rolls_remaining
    &&& a.dice_pool.max_rolls == b.dice_pool.max_rolls
    &&& a.dice_pool.wf()
    &&& a.relics@ == b.relics@
    &&& a.hp == b.hp
    &&& a.max_hp == b.max_hp
    &&& a.gold == b.gold
    &&& a.dungeon == b.dungeon
    &&& a.unlocked == b.unlocked
    &&& a.used_this_room == b.used_this_room
    &&& a.phase == b.phase
    &&& a.base_rolls == b.base_rolls
}

/// Augmenting face `face_index` of `d` cannot overflow the face value.
pub open spec fn augment_fits(d: Die, face_index: usize) -> bool {
    face_index < d.faces_view().len() ==> d.faces_view()[face_index as int].val() < u8::MAX
}

/// A category result `r` plus the enchantment bonuses shown by `dice`.
pub open spec fn total_score(r: Option<usize>, dice: Seq<Die>) -> int {
    (match r {
        Some(s) => s as int,
        None => 0,
    }) + enchant_sum(dice)
}

/// The score of `category` on the current dice fits in `usize`, whatever
/// result the category gives.
pub open spec fn score_fits(s: GameState, category: ScoreCategory) -> bool {
    &&& s.dice_pool.dice@.len() <= MAX_SCORED_DICE
    &&& forall|r: Option<usize>|
        #[trigger] is_category_score(category, pool_values(s.dice_pool.dice@), r)
            ==> total_score(r, s.dice_pool.dice@) <= usize::MAX
}

/// `a` is `b` after scoring `category`: the category marked used (except
/// Highest Die) and, outside a Rest site, the phase `Scored` with the
/// score, the room's target and whether the score reached it.
pub open spec fn scored(b: GameState, a: GameState, category: ScoreCategory) -> bool {
    &&& a.used_this_room@ == if category != ScoreCategory::HighDie {
        b.used_this_room@.push(category)
    } else {
        b.used_this_room@
    }
    &&& match b.room_target() {
        None => a.phase == b.phase,
        Some(target) => exists|r: Option<usize>|
            {
                &&& is_category_score(category, pool_values(b.dice_pool.dice@), r)
                &&& a.phase == (GamePhase::Scored {
                    score: total_score(r, b.dice_pool.dice@) as usize,
                    target,
                    success: target <= total_score(r, b.dice_pool.dice@),
                })
            },
    }
    &&& a.dice_pool == b.dice_pool
    &&& a.hp == b.hp
    &&& a.max_hp == b.max_hp
    &&& a.gold == b.gold
    &&& a.dungeon == b.dungeon
    &&& a.unlocked == b.unlocked
    &&& a.relics@ == b.relics@
    &&& a.base_rolls == b.base_rolls
}

/// `a` is `b` after a loss of `amount` HP went through the relics' HP-loss
/// hooks; at 0 HP the phase is `GameOver`.
pub open spec fn took_damage(b: GameState, a: GameState, amount: u32) -> bool {
    &&& a.hp == if b.hp >= damage_after(b.relics@, amount) {
        (b.hp - damage_after(b.relics@, amount)) as u32
    } else {
        0
    }
    &&& a.relics@.len() == b.relics@.len()
    &&& forall|i: int|
        0 <= i < b.relics@.len() ==> after_hp_loss(b.relics@[i], #[trigger] a.relics@[i])
    &&& a.phase == if a.hp == 0 {
        GamePhase::GameOver
    } else {
        b.phase
    }
    &&& a.dice_pool == b.dice_pool
    &&& a.max_hp == b.max_hp
    &&& a.gold == b.gold
    &&& a.dungeon == b.dungeon
    &&& a.unlocked == b.unlocked
    &&& a.used_this_room == b.used_this_room
    &&& a.base_rolls == b.base_rolls
}

/// `a` is `b` with `amount` HP restored, capped at the maximum.
pub open spec fn was_healed(b: GameState, a: GameState, amount: u32) -> bool {
    &&& a.hp == healed(b.hp, amount, b.max_hp)
    &&& a.dice_pool == b.dice_pool
    &&& a.max_hp == b.max_hp
    &&& a.gold == b.gold
    &&& a.dungeon == b.dungeon
    &&& a.unlocked == b.unlocked
    &&& a.used_this_room == b.used_this_room
    &&& a.relics@ == b.relics@
    &&& a.phase == b.phase
    &&& a.base_rolls == b.base_rolls
}

/// `a` is `b` with `amount` gold earned.
pub open spec fn earned(b: GameState, a: GameState, amount: u32) -> bool {
    &&& a.gold == b.gold + amount
    &&& a.dice_pool == b.dice_pool
    &&& a.hp == b.hp
    &&& a.max_hp == b.max_hp
    &&& a.dungeon == b.dungeon
    &&& a.unlocked == b.unlocked
    &&& a.used_this_room == b.used_this_room
    &&& a.relics@ == b.relics@
    &&& a.phase == b.phase
    &&& a.base_rolls == b.base_rolls
}

/// `a` is `b` after a payment of `amount` that went through when `paid`.
pub open spec fn spent(b: GameState, a: GameState, amount: u32, paid: bool) -> bool {
    &&& (paid, a.gold) == spend_result(b.gold, amount)
    &&& a.dice_pool == b.dice_pool
    &&& a.hp == b.hp
    &&& a.max_hp == b.max_hp
    &&& a.dungeon == b.dungeon
    &&& a.unlocked == b.unlocked
    &&& a.used_this_room == b.used_this_room
    &&& a.relics@ == b.relics@
    &&& a.phase == b.phase
    &&& a.base_rolls == b.base_rolls
}

/// `a` is `b` with `category` unlocked (once).
pub open spec fn unlocked_category(b: GameState, a: GameState, category: ScoreCategory) -> bool {
    &&& a.unlocked@ == with_unlocked(b.unlocked@, category)
    &&& a.dice_pool == b.dice_pool
    &&& a.hp == b.hp
    &&& a.max_hp == b.max_hp
    &&& a.gold == b.gold
    &&& a.dungeon == b.dungeon
    &&& a.used_this_room == b.used_this_room
    &&& a.relics@ == b.relics@
    &&& a.phase == b.phase
    &&& a.base_rolls == b.base_rolls
}

/// `a` is `b` on the next floor, freshly generated, with its first room
/// begun.
pub open spec fn descended(b: GameState, a: GameState) -> bool {
    &&& a.dungeon.wf()
    &&& a.dungeon.floors_view().len() == b.dungeon.floors_view().len() + 1
    &&& a.dungeon.floors_view().drop_last() == b.dungeon.floors_view()
    &&& is_generated_floor(a.dungeon.current(), (b.dungeon.floors_view().len() + 1) as usize)
    &&& a.used_this_room@.len() == 0
    &&& a.relics@.len() == b.relics@.len()
    &&& forall|i: int|
        0 <= i < b.relics@.len() ==> after_floor_start(b.relics@[i], #[trigger] a.relics@[i])
    &&& a.dice_pool.max_rolls == b.base_rolls + relic_extra_rolls(b.relics@)
    &&& a.dice_pool.rolls_remaining == a.dice_pool.max_rolls
    &&& a.dice_pool.dice@ == released(b.dice_pool.dice@)
    &&& a.hp == b.hp
    &&& a.max_hp == b.max_hp
    &&& a.gold == b.gold
    &&& a.unlocked == b.unlocked
    &&& a.phase == b.phase
    &&& a.base_rolls == b.base_rolls
}

/// The dice after `relic`'s acquisition hook ran on `b`: Extra Die Slot
/// adds a fresh standard die at the end, every other relic leaves the dice
/// alone.
pub open spec fn acquire_hook(relic: AnyRelic, b: Seq<Die>, a: Seq<Die>) -> bool {
    match relic {
        AnyRelic::ExtraDieSlot(_) => {
            &&& a.len() == b.len() + 1
            &&& a.drop_last() == b
            &&& a.last().is_fresh(DieType::Standard, seq![1u8, 2, 3, 4, 5, 6])
        },
        _ => a == b,
    }
}

/// `a` is `b` holding `relic` as well, its maximum HP changed by the
/// relic's modifier (at least 1) and HP capped by it.
pub open spec fn acquired(b: GameState, a: GameState, relic: AnyRelic) -> bool {
    &&& a.max_hp == max_hp_after(b.max_hp, max_hp_modifier_of(relic))
    &&& a.hp == if b.hp < a.max_hp {
        b.hp
    } else {
        a.max_hp
    }
    &&& a.relics@ == b.relics@.push(relic)
    &&& acquire_hook(relic, b.dice_pool.dice@, a.dice_pool.dice@)
    &&& a.dice_pool.rolls_remaining == b.dice_pool.rolls_remaining
    &&& a.dice_pool.max_rolls == b.dice_pool.max_rolls
    &&& a.gold == b.gold
    &&& a.dungeon == b.dungeon
    &&& a.unlocked == b.unlocked
    &&& a.used_this_room == b.used_this_room
    &&& a.phase == b.phase
    &&& a.base_rolls == b.base_rolls
}

/// `a` is `b` after `upgrade` was tried on die `die_index`; `applied` says
/// whether it took.
pub open spec fn upgraded(
    b: GameState,
    a: GameState,
    die_index: usize,
    upgrade: DieUpgrade,
    applied: bool,
) -> bool {
    &&& applied == (die_index < b.dice_pool.dice@.len()
        && b.dice_pool.dice@[die_index as int].upgrade_applies(upgrade))
    &&& !applied ==> a.dice_pool.dice@ == b.dice_pool.dice@
    &&& applied ==> b.dice_pool.dice@[die_index as int].upgrade_effect(
        a.dice_pool.dice@[die_index as int],
        upgrade,
    )
    &&& a.dice_pool.wf()
    &&& a.dice_pool.dice@.len() == b.dice_pool.dice@.len()
    &&& forall|i: int|
        0 <= i < b.dice_pool.dice@.len() && i != die_index ==> (#[trigger] a.dice_pool.dice@[i])
            == b.dice_pool.dice@[i]
    &&& a.dice_pool.rolls_remaining == b.dice_pool.rolls_remaining
    &&& a.dice_pool.max_rolls == b.dice_pool.max_rolls
    &&& a.hp == b.hp
    &&& a.max_hp == b.max_hp
    &&& a.gold == b.gold
    &&& a.dungeon == b.dungeon
    &&& a.unlocked == b.unlocked
    &&& a.used_this_room == b.used_this_room
    &&& a.relics@ == b.relics@
    &&& a.phase == b.phase
    &&& a.base_rolls == b.base_rolls
}

/// `a` is `b` with the die at `index` replaced by `die` (nothing changes
/// when out of bounds).
pub open spec fn replaced_die(b: GameState, a: GameState, index: usize, die: Die) -> bool {
    &&& a.dice_pool.dice@ == if index < b.dice_pool.dice@.len() {
        b.dice_pool.dice@.update(index as int, die)
    } else {
        b.dice_pool.dice@
    }
    &&& a.dice_pool.rolls_remaining == b.dice_pool.rolls_remaining
    &&& a.dice_pool.max_rolls == b.dice_pool.max_rolls
    &&& a.hp == b.hp
    &&& a.max_hp == b.max_hp
    &&& a.gold == b.gold
    &&& a.dungeon == b.dungeon
    &&& a.unlocked == b.unlocked
    &&& a.used_this_room == b.used_this_room
    &&& a.relics@ == b.relics@
    &&& a.phase == b.phase
    &&& a.base_rolls == b.base_rolls
}

/// A purchase of `item` can be carried out without overflow: a potion's
/// healing fits in `u32`, a relic's change of maximum HP fits in `i32`.
pub open spec fn purchase_fits(s: GameState, item: ShopItem) -> bool {
    match item.kind {
        ShopItemKind::HpPotion(n) => s.hp + n <= u32::MAX,
        ShopItemKind::Relic(r) => (s.max_hp as i32) + max_hp_modifier_of(r) >= i32::MIN,
        _ => true,
    }
}

/// `a` is `b` after buying `item`: when the price is paid, a relic is
/// acquired and a potion heals; special dice and upgrades are handled by
/// the screens that pick the die.
pub open spec fn bought(b: GameState, a: GameState, item: ShopItem, paid: bool) -> bool {
    exists|mid: GameState|
        #[trigger] spent(b, mid, item.price, paid) && if !paid {
            a == mid
        } else {
            match item.kind {
                ShopItemKind::Relic(r) => acquired(mid, a, r),
                ShopItemKind::HpPotion(n) => was_healed(mid, a, n),
                _ => a == mid,
            }
        }
}

impl GameState {

    /// The run state is consistent: well-formed dice and dungeon, HP within
    /// a positive maximum, no category unlocked twice.
    pub open spec fn wf(&self) -> bool {
        &&& self.dice_pool.wf()
        &&& self.dungeon.wf()
        &&& 1 <= self.max_hp
        &&& self.hp <= self.max_hp
        &&& self.unlocked@.no_duplicates()
    }

    /// The score a room asks for: the target of the chosen Challenge or
    /// Elite room, the boss target when no room is chosen, nothing at a Rest
    /// site.
    pub open spec fn room_target(&self) -> Option<u32> {
        match self.dungeon.current().chosen_room() {
            Some(Room::Challenge(t)) => Some(t.required),
            Some(Room::Elite(t)) => Some(t.required),
            Some(Room::Rest) => None,
            None => Some(self.dungeon.current().boss.target.required),
        }
    }

    /// Start a new run with the default starting stats.
    pub fn new(rng: &mut ThreadRng) -> (s: Self)
        ensures
            s.wf(),
            s.hp == START_HP,
            s.max_hp == START_HP,
            s.gold == 0,
            s.dice_pool.dice@.len() == 5,
            forall|i: int|
                0 <= i < 5 ==> (#[trigger] s.dice_pool.dice@[i]).is_fresh(
                    DieType::Standard,
                    seq![1u8, 2, 3, 4, 5, 6],
                ),
            s.dice_pool.max_rolls == 3,
            s.dice_pool.rolls_remaining == 3,
            s.dungeon.floors_view().len() == 1,
            is_generated_floor(s.dungeon.current(), 1),
            s.unlocked@ == seq![ScoreCategory::HighDie, ScoreCategory::Chance],
            s.used_this_room@.len() == 0,
            s.relics@.len() == 0,
            s.phase == GamePhase::Rolling,
            s.base_rolls == START_ROLLS,
    {
        let mut unlocked: Vec<ScoreCategory> = Vec::new();
        unlocked.push(ScoreCategory::HighDie);
        unlocked.push(ScoreCategory::Chance);
        assert(unlocked@ =~= seq![ScoreCategory::HighDie, ScoreCategory::Chance]);
        Self {
            dice_pool: DicePool::new(),
            hp: START_HP,
            max_hp: START_HP,
            gold: 0,
            dungeon: Dungeon::new(rng),
            unlocked,
            used_this_room: Vec::new(),
            relics: Vec::new(),
            phase: GamePhase::Rolling,
            base_rolls: START_ROLLS,
        }
    }

    // ── Room lifecycle ────────────────────────────────────────────────────────

    /// Called at the start of every room: clears the used categories, fires
    /// the relics' floor-start hooks on the first step of a floor, resets the
    /// pool's rolls to the base rolls plus relic bonuses and releases every
    /// held die.
    pub fn begin_room(&mut self)
        requires
            old(self).dungeon.wf(),
            old(self).base_rolls + relic_extra_rolls(old(self).relics@) <= u8::MAX,
        ensures
            began_room(*old(self), *final(self)),
            old(self).wf() ==> final(self).wf(),
    {
        self.used_this_room.clear();
        let ghost before = self.relics@;
        if self.dungeon.current_floor().step == 0 {
            fire_floor_start(&mut self.relics);
        }
        proof {
            law_floor_start_keeps_extra_rolls(before, self.relics@);
        }
        let extra = self.extra_rolls_total();
        self.dice_pool.max_rolls = self.base_rolls + extra;
        self.dice_pool.reset_for_room();
    }

    /// Sum of the extra rolls of the relics held.
    fn extra_rolls_total(&self) -> (n: u8)
        requires
            relic_extra_rolls(self.relics@) <= u8::MAX,
        ensures
            n == relic_extra_rolls(self.relics@),
    {
        let mut n: u8 = 0;
        let mut i: usize = 0;
        while i < self.relics.len()
            invariant
                i <= self.relics@.len(),
                relic_extra_rolls(self.relics@) <= u8::MAX,
                n == relic_extra_rolls(self.relics@.take(i as int)),
            decreases self.relics@.len() - i,
        {
            proof {
                assert(self.relics@.take(i + 1).drop_last() =~= self.relics@.take(i as int));
                lemma_extra_rolls_prefix(self.relics@, i + 1);
            }
            n = n + self.relics[i].extra_rolls();
            i = i + 1;
        }
        assert(self.relics@.take(self.relics@.len() as int) =~= self.relics@);
        n
    }

    /// Roll the unheld dice after firing the relics' roll-start hooks.
    /// Returns false when no rolls remain (the hooks still fire).
    pub fn roll(&mut self) -> (rolled: bool)
        requires
            old(self).dice_pool.wf(),
        ensures
            roll_done(*old(self), *final(self), rolled),
    {
        let first_roll = self.dice_pool.rolls_remaining == self.dice_pool.max_rolls;
        fire_roll_start(&mut self.relics, &mut self.dice_pool, first_roll);
        let ghost mid = self.dice_pool.dice@;
        let rolled = self.dice_pool.roll_once();
        proof {
            if rolled {
                assert(rolled_dice(mid, self.dice_pool.dice@));
            }
            assert(relics_rerolled(old(self).relics@, old(self).dice_pool.dice@, mid, first_roll));
            assert(relics_rerolled(
                old(self).relics@,
                old(self).dice_pool.dice@,
                mid,
                old(self).dice_pool.at_first_roll(),
            ) && if rolled {
                rolled_dice(mid, self.dice_pool.dice@)
            } else {
                self.dice_pool.dice@ == mid
            });
        }
        rolled
    }

    /// Start choosing a category to score, cursor on the first one.
    pub fn begin_scoring(&mut self)
        ensures
            final(self).phase == (GamePhase::SelectingCategory {
                cursor: 0,
                from_boss: old(self).phase is Boss,
            }),
            keeps_run(*old(self), *final(self)),
    {
        let from_boss = match self.phase {
            GamePhase::Boss => true,
            _ => false,
        };
        self.phase = GamePhase::SelectingCategory { cursor: 0, from_boss };
    }

    /// Leave category selection and go back to rolling (or to the boss fight
    /// when the selection came from it).
    pub fn back_room(&mut self)
        ensures
            final(self).phase == (match old(self).phase {
                GamePhase::SelectingCategory { from_boss: true, .. } => GamePhase::Boss,
                _ => GamePhase::Rolling,
            }),
            keeps_run(*old(self), *final(self)),
    {
        let from_boss = match self.phase {
            GamePhase::SelectingCategory { from_boss, .. } => from_boss,
            _ => false,
        };
        self.phase = if from_boss {
            GamePhase::Boss
        } else {
            GamePhase::Rolling
        };
    }

    /// Score the current dice in `category`: the category score plus the
    /// enchantment bonuses, compared with the room's target. The category is
    /// marked used for the room (except Highest Die). At a Rest site nothing
    /// else happens; otherwise the phase becomes `Scored`.
    pub fn score_category(&mut self, category: ScoreCategory)
        requires
            old(self).dungeon.wf(),
            score_fits(*old(self), category),
        ensures
            scored(*old(self), *final(self), category),
    {
        let values = self.dice_pool.values();
        let r = calculate_for(&category, values.as_slice());
        let base = match r {
            Some(s) => s,
            None => 0,
        };
        let bonus = self.dice_pool.enchant_bonus_total();
        let score = base + bonus;
        if category != ScoreCategory::HighDie {
            self.used_this_room.push(category);
        }
        let target = match self.dungeon.current_floor().current_room() {
            Some(Room::Challenge(x)) => x.required,
            Some(Room::Elite(x)) => x.required,
            None => self.dungeon.current_floor().boss.target.required,
            Some(Room::Rest) => {
                return;
            },
        };
        self.phase = GamePhase::Scored { score, target, success: target as usize <= score };
    }

    // ── HP / gold ─────────────────────────────────────────────────────────────

    /// Lose HP after every relic's HP-loss hook has had its say; at 0 HP the
    /// run is over.
    pub fn take_damage(&mut self, amount: u32)
        ensures
            took_damage(*old(self), *final(self), amount),
            old(self).wf() ==> final(self).wf(),
    {
        let actual = fire_hp_loss(&mut self.relics, amount);
        self.hp = self.hp.saturating_sub(actual);
        if self.hp == 0 {
            self.phase = GamePhase::GameOver
        }
    }

    /// Restore HP, capped at the maximum.
    pub fn heal(&mut self, amount: u32)
        requires
            old(self).hp + amount <= u32::MAX,
        ensures
            was_healed(*old(self), *final(self), amount),
            old(self).wf() ==> final(self).wf(),
    {
        let total = self.hp + amount;
        self.hp = if total < self.max_hp {
            total
        } else {
            self.max_hp
        };
    }

    pub fn earn_gold(&mut self, amount: u32)
        requires
            old(self).gold + amount <= u32::MAX,
        ensures
            earned(*old(self), *final(self), amount),
            old(self).wf() ==> final(self).wf(),
    {
        self.gold = self.gold + amount;
    }

    /// Pay `amount` gold if the player has it; returns whether it was paid.
    pub fn spend_gold(&mut self, amount: u32) -> (paid: bool)
        ensures
            spent(*old(self), *final(self), amount, paid),
            old(self).wf() ==> final(self).wf(),
    {
        if self.gold >= amount {
            self.gold = self.gold - amount;
            true
        } else {
            false
        }
    }

    // ── Progression ───────────────────────────────────────────────────────────

    /// Called after the boss is defeated: on to the category unlock.
    pub fn defeat_boss(&mut self)
        ensures
            final(self).phase == GamePhase::CategoryUnlock,
            keeps_run(*old(self), *final(self)),
            old(self).wf() ==> final(self).wf(),
    {
        self.phase = GamePhase::CategoryUnlock;
    }

    /// Unlock a scoring category; unlocking one twice changes nothing.
    pub fn unlock_category(&mut self, category: ScoreCategory)
        ensures
            unlocked_category(*old(self), *final(self), category),
            old(self).wf() ==> final(self).wf(),
    {
        if !contains_category(&self.unlocked, category) {
            self.unlocked.push(category)
        }
        proof {
            law_unlock_idempotent(old(self).unlocked@, category);
        }
    }

    /// Descend to the next floor after a boss and begin its first room.
    /// Past floor 5 the bosses come round again.
    pub fn descend(&mut self, rng: &mut ThreadRng)
        requires
            old(self).dungeon.wf(),
            old(self).dungeon.floors_view().len() < usize::MAX,
            old(self).base_rolls + relic_extra_rolls(old(self).relics@) <= u8::MAX,
        ensures
            descended(*old(self), *final(self)),
            old(self).wf() ==> final(self).wf(),
    {
        self.dungeon.descend(rng);
        self.begin_room();
    }

    // ── Relic management ──────────────────────────────────────────────────────

    /// Acquire a relic: apply its change of maximum HP (the maximum stays at
    /// least 1, HP is capped by it), run its acquisition hook on the dice
    /// pool (Extra Die Slot adds a standard die) and add it to the relics
    /// held.
    pub fn acquire_relic(&mut self, relic: AnyRelic)
        requires
            (old(self).max_hp as i32) + max_hp_modifier_of(relic) >= i32::MIN,
            old(self).dice_pool.wf(),
        ensures
            acquired(*old(self), *final(self), relic),
            old(self).wf() ==> final(self).wf(),
    {
        let m = relic.max_hp_modifier();
        let sum = (self.max_hp as i32) + m;
        self.max_hp = if sum < 1 {
            1
        } else {
            sum as u32
        };
        if self.max_hp < self.hp {
            self.hp = self.max_hp;
        }
        relic.on_acquire(&mut self.dice_pool);
        self.relics.push(relic);
    }

    // ── Die management ────────────────────────────────────────────────────────

    /// Apply an upgrade to the die at `die_index` (campfire or shop).
    /// Returns false, changing nothing, for an index out of bounds or an
    /// upgrade that does not apply.
    pub fn upgrade_die(&mut self, die_index: usize, upgrade: DieUpgrade) -> (applied: bool)
        requires
            old(self).dice_pool.wf(),
            die_index < old(self).dice_pool.dice@.len() ==> match upgrade {
                DieUpgrade::Augment { face_index } => augment_fits(
                    old(self).dice_pool.dice@[die_index as int],
                    face_index,
                ),
                _ => true,
            },
        ensures
            upgraded(*old(self), *final(self), die_index, upgrade, applied),
    {
        let applied = if die_index < self.dice_pool.dice.len() {
            self.dice_pool.dice[die_index].upgrade(upgrade)
        } else {
            false
        };
        proof {
            if !applied {
                assert(self.dice_pool.dice@ =~= old(self).dice_pool.dice@);
            }
        }
        applied
    }

    /// Buy a shop item: pay its price if the player has the gold, then a
    /// relic is acquired and a potion heals. Special dice and die upgrades
    /// are paid here too; picking the die they go to is up to the caller.
    /// Returns whether the price was paid.
    pub fn buy_shop_item(&mut self, item: ShopItem) -> (paid: bool)
        requires
            purchase_fits(*old(self), item),
            old(self).dice_pool.wf(),
        ensures
            bought(*old(self), *final(self), item, paid),
            old(self).wf() ==> final(self).wf(),
    {
        let paid = self.spend_gold(item.price);
        let ghost mid = *self;
        if paid {
            match item.kind {
                ShopItemKind::Relic(r) => self.acquire_relic(r),
                ShopItemKind::HpPotion(n) => self.heal(n),
                _ => {},
            }
        }
        assert(spent(*old(self), mid, item.price, paid));
        paid
    }

    /// Replace the die at `index` with `die` (a special die bought in the
    /// shop); out of bounds changes nothing.
    pub fn replace_die_at(&mut self, index: usize, die: Die)
        ensures
            replaced_die(*old(self), *final(self), index, die),
    {
        let _ = self.dice_pool.replace_die(index, die);
    }
}

/// Fire every relic's floor-start hook, in order.
fn fire_floor_start(relics: &mut Vec<AnyRelic>)
    ensures
        final(relics)@.len() == old(relics)@.len(),
        forall|i: int|
            0 <= i < old(relics)@.len() ==> after_floor_start(
                old(relics)@[i],
                #[trigger] final(relics)@[i],
            ),
{
    let ghost before = relics@;
    let mut i: usize = 0;
    while i < relics.len()
        invariant
            relics@.len() == before.len(),
            before == old(relics)@,
            i <= before.len(),
            forall|k: int| i <= k < before.len() ==> (#[trigger] relics@[k]) == before[k],
            forall|k: int| 0 <= k < i ==> after_floor_start(before[k], #[trigger] relics@[k]),
        decreases before.len() - i,
    {
        relics[i].on_floor_start();
        i = i + 1;
    }
}

/// Fire every relic's roll-start hook, in order, on the pool.
fn fire_roll_start(relics: &mut Vec<AnyRelic>, pool: &mut DicePool, first_roll: bool)
    requires
        old(pool).wf(),
    ensures
        final(relics)@ == old(relics)@,
        final(pool).wf(),
        relics_rerolled(old(relics)@, old(pool).dice@, final(pool).dice@, first_roll),
        final(pool).rolls_remaining == old(pool).rolls_remaining,
        final(pool).max_rolls == old(pool).max_rolls,
{
    let ghost mut trace: Seq<Seq<Die>> = seq![old(pool).dice@];
    let mut i: usize = 0;
    while i < relics.len()
        invariant
            i <= relics@.len(),
            pool.wf(),
            pool.rolls_remaining == old(pool).rolls_remaining,
            pool.max_rolls == old(pool).max_rolls,
            relics@ == old(relics)@,
            is_reroll_trace(relics@.take(i as int), trace, old(pool).dice@, first_roll),
            trace.last() == pool.dice@,
        decreases relics@.len() - i,
    {
        let ghost rs = relics@;
        relics[i].on_roll_start(pool, first_roll);
        proof {
            assert(relics@ =~= rs);
            let t = rs.take(i + 1);
            let old_trace = trace;
            trace = trace.push(pool.dice@);
            assert forall|k: int| 0 <= k < t.len() implies relic_roll_step(
                #[trigger] t[k],
                trace[k],
                trace[k + 1],
                first_roll,
            ) by {
                if k < i {
                    assert(t[k] == rs.take(i as int)[k]);
                }
            }
            assert(is_reroll_trace(t, trace, old(pool).dice@, first_roll));
        }
        i = i + 1;
    }
    assert(relics@.take(relics@.len() as int) =~= relics@);
    assert(is_reroll_trace(relics@, trace, old(pool).dice@, first_roll));
}

/// Pass an HP loss through every relic's HP-loss hook, in order; returns
/// the HP actually lost.
fn fire_hp_loss(relics: &mut Vec<AnyRelic>, amount: u32) -> (lost: u32)
    ensures
        lost == damage_after(old(relics)@, amount),
        final(relics)@.len() == old(relics)@.len(),
        forall|i: int|
            0 <= i < old(relics)@.len() ==> after_hp_loss(
                old(relics)@[i],
                #[trigger] final(relics)@[i],
            ),
{
    let ghost before = relics@;
    let mut actual = amount;
    let mut i: usize = 0;
    while i < relics.len()
        invariant
            relics@.len() == before.len(),
            before == old(relics)@,
            i <= before.len(),
            actual == damage_after(before.take(i as int), amount),
            forall|k: int| i <= k < before.len() ==> (#[trigger] relics@[k]) == before[k],
            forall|k: int| 0 <= k < i ==> after_hp_loss(before[k], #[trigger] relics@[k]),
        decreases before.len() - i,
    {
        proof {
            assert(before.take(i + 1).drop_last() =~= before.take(i as int));
        }
        actual = relics[i].on_hp_loss(actual);
        i = i + 1;
    }
    assert(before.take(before.len() as int) =~= before);
    actual
}

/// Whether `category` is in the list.
pub fn contains_category(list: &Vec<ScoreCategory>, category: ScoreCategory) -> (r: bool)
    ensures
        r == list@.contains(category),
{
    let mut i: usize = 0;
    while i < list.len()
        invariant
            i <= list@.len(),
            forall|j: int| 0 <= j < i ==> list@[j] != category,
        decreases list@.len() - i,
    {
        if list[i] == category {
            assert(list@[i as int] == category);
            return true;
        }
        i = i + 1;
    }
    false
}

pub(crate) proof fn lemma_extra_rolls_prefix(relics: Seq<AnyRelic>, n: int)
    requires
        0 <= n <= relics.len(),
    ensures
        relic_extra_rolls(relics.take(n)) <= relic_extra_rolls(relics),
    decreases relics.len() - n,
{
    if n < relics.len() {
        lemma_extra_rolls_prefix(relics, n + 1);
        assert(relics.take(n + 1).drop_last() =~= relics.take(n));
    } else {
        assert(relics.take(n) =~= relics);
    }
}

} // verus!
