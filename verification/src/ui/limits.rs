//! The check of `App::limits_hold`, for callers that cannot see specs.

use vstd::prelude::*;

use crate::dice::{enchant_sum, pool_values};
use crate::game::{
    lemma_extra_rolls_prefix,
    purchase_fits,
    relic_extra_rolls,
    score_fits,
    total_score,
    GamePhase,
    GameState,
    UpgradeKind,
};
use crate::relics::Relic;
use crate::scoring::{calculate_for, is_category_score, law_category_score_unique, MAX_SCORED_DICE};
use crate::shop::ShopItemKind;
use super::{current_reward, App};

verus! {

/// Whether the base rolls plus the relics' extra rolls fit in `u8`.
fn rolls_fit(s: &GameState) -> (ok: bool)
    ensures
        ok == (s.base_rolls + relic_extra_rolls(s.relics@) <= u8::MAX),
{
    let mut total: u64 = s.base_rolls as u64;
    let mut i: usize = 0;
    while i < s.relics.len()
        invariant
            i <= s.relics@.len(),
            total == s.base_rolls + relic_extra_rolls(s.relics@.take(i as int)),
            total <= u8::MAX,
        decreases s.relics@.len() - i,
    {
        assert(s.relics@.take(i + 1).drop_last() =~= s.relics@.take(i as int));
        total = total + s.relics[i].extra_rolls() as u64;
        if total > 255 {
            proof {
                lemma_extra_rolls_prefix(s.relics@, i + 1);
            }
            return false;
        }
        i = i + 1;
    }
    assert(s.relics@.take(s.relics@.len() as int) =~= s.relics@);
    true
}

/// Whether every unlocked category's score fits in `usize`.
fn scores_fit(s: &GameState) -> (ok: bool)
    ensures
        ok == (forall|c: crate::scoring::ScoreCategory|
            #[trigger] s.unlocked@.contains(c) ==> score_fits(*s, c)),
{
    if s.unlocked.len() == 0 {
        return true;
    }
    let c0 = s.unlocked[0];
    assert(s.unlocked@.contains(c0));
    if s.dice_pool.dice.len() > MAX_SCORED_DICE {
        assert(!score_fits(*s, c0));
        return false;
    }
    let values = s.dice_pool.values();
    let bonus = s.dice_pool.checked_enchant_total();
    let mut i: usize = 0;
    while i < s.unlocked.len()
        invariant
            i <= s.unlocked@.len(),
            s.dice_pool.dice@.len() <= MAX_SCORED_DICE,
            values@ == pool_values(s.dice_pool.dice@),
            match bonus {
                Some(t) => t == enchant_sum(s.dice_pool.dice@),
                None => enchant_sum(s.dice_pool.dice@) > usize::MAX,
            },
            forall|k: int| 0 <= k < i ==> score_fits(*s, #[trigger] s.unlocked@[k]),
        decreases s.unlocked@.len() - i,
    {
        let c = s.unlocked[i];
        let r = calculate_for(&c, values.as_slice());
        let base = match r {
            Some(x) => x,
            None => 0,
        };
        let fits = match bonus {
            Some(t) => base.checked_add(t).is_some(),
            None => false,
        };
        if !fits {
            assert(s.unlocked@.contains(c));
            assert(total_score(r, s.dice_pool.dice@) > usize::MAX);
            assert(!score_fits(*s, c));
            return false;
        }
        assert forall|r2: Option<usize>|
            #[trigger] is_category_score(c, pool_values(s.dice_pool.dice@), r2) implies total_score(
                r2,
                s.dice_pool.dice@,
            ) <= usize::MAX by {
            law_category_score_unique(c, pool_values(s.dice_pool.dice@), r, r2);
        }
        i = i + 1;
    }
    assert forall|c: crate::scoring::ScoreCategory| #[trigger] s.unlocked@.contains(c) implies score_fits(
        *s,
        c,
    ) by {
        let k = choose|k: int| 0 <= k < s.unlocked@.len() && s.unlocked@[k] == c;
        assert(score_fits(*s, s.unlocked@[k]));
    }
    true
}

impl App {
    /// Whether `limits_hold` holds: a caller checks it before each key.
    #[verifier::loop_isolation(false)]
    pub fn within_limits(&self) -> (ok: bool)
        requires
            self.state.dungeon.wf(),
        ensures
            ok == self.limits_hold(),
    {
        let s = &self.state;
        if s.dice_pool.dice.len() == 0 || !rolls_fit(s) {
            return false;
        }
        let floor = s.dungeon.current_floor();
        if floor.room_choices.len() == usize::MAX {
            return false;
        }
        match &s.phase {
            GamePhase::MainMenu { cursor } => *cursor < 2,
            GamePhase::SelectingCategory { .. } => scores_fit(s),
            GamePhase::Scored { .. } => {
                let reward = match floor.current_room() {
                    Some(r) => r.reward_gold(),
                    None => 0,
                };
                assert(reward == current_reward(*s));
                s.gold.checked_add(reward).is_some()
            },
            GamePhase::Rest { .. } => s.hp.checked_add(15).is_some(),
            GamePhase::Shop { items, .. } => {
                let mut i: usize = 0;
                while i < items.len()
                    invariant
                        i <= items@.len(),
                        forall|k: int| 0 <= k < i ==> purchase_fits(*s, #[trigger] items@[k]),
                    decreases items@.len() - i,
                {
                    let ok = match items[i].kind {
                        ShopItemKind::HpPotion(n) => s.hp.checked_add(n).is_some(),
                        ShopItemKind::Relic(r) => {
                            let m = r.max_hp_modifier();
                            (#[verifier::truncate] (s.max_hp as i32)) as i64 + m as i64
                                >= i32::MIN as i64
                        },
                        _ => true,
                    };
                    if !ok {
                        assert(!purchase_fits(*s, items@[i as int]));
                        return false;
                    }
                    i = i + 1;
                }
                true
            },
            GamePhase::UpgradeSelectDie { die_cursor, .. } => *die_cursor < s.dice_pool.dice.len(),
            GamePhase::UpgradeSelectFace { die_index, face_cursor, kind, .. } => {
                if *die_index >= s.dice_pool.dice.len() {
                    return false;
                }
                match kind {
                    UpgradeKind::Augment => {
                        let faces = s.dice_pool.dice[*die_index].faces();
                        *face_cursor >= faces.len() || faces[*face_cursor].get_value() < 255
                    },
                    UpgradeKind::Enchant => true,
                }
            },
            GamePhase::CategoryUnlock => s.dungeon.floor_count() < usize::MAX,
            _ => true,
        }
    }
}

} // verus!
