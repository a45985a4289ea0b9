//! The result screen after scoring: any key moves on, to the shop on a win,
//! back into the room on a loss, to the category unlock after a boss.

use vstd::prelude::*;

use crate::dice::{has_standard, released};
use crate::game::{
    began_room,
    earned,
    keeps_run,
    law_hp_loss_keeps_extra_rolls,
    took_damage,
    GamePhase,
    GameState,
};
use crate::shop::{generate_shop_items, is_shop_for, ShopItem};
use crate::text::{decimal, decimal_string};
use super::{current_reward, same_screens, App, Key};
use super::unlock::is_unlock_offer;

verus! {

/// Whether the last scoring reached its target.
pub open spec fn scored_success(s: GameState) -> bool {
    match s.phase {
        GamePhase::Scored { success, .. } => success,
        _ => false,
    }
}

/// The boss is the next encounter of the floor.
pub open spec fn boss_is_next(s: GameState) -> bool {
    s.dungeon.current().step == s.dungeon.current().room_choices@.len()
}

/// `a` is `b` after a lost fight: `amount` HP lost and, unless the run is
/// over, the room begun again on the screen `retry`.
pub open spec fn lost_fight(b: GameState, a: GameState, amount: u32, retry: GamePhase) -> bool {
    exists|m: GameState|
        #[trigger] took_damage(b, m, amount) && if m.phase is GameOver {
            a == m
        } else {
            exists|m2: GameState|
                #[trigger] began_room(m, m2) && a == (GameState { phase: retry, ..m2 })
        }
}

/// `a` is `b` with the pool ready for a new room: all rolls back, no die
/// held.
pub open spec fn pool_reset(b: GameState, a: GameState) -> bool {
    &&& a.dice_pool.rolls_remaining == b.dice_pool.max_rolls
    &&& a.dice_pool.max_rolls == b.dice_pool.max_rolls
    &&& a.dice_pool.dice@ == released(b.dice_pool.dice@)
    &&& a.hp == b.hp
    &&& a.max_hp == b.max_hp
    &&& a.gold == b.gold
    &&& a.dungeon == b.dungeon
    &&& a.unlocked == b.unlocked
    &&& a.used_this_room == b.used_this_room
    &&& a.relics@ == b.relics@
    &&& a.phase == b.phase
    &&& a.base_rolls == b.base_rolls
}

/// `items` is a shop for the run state `s`.
pub open spec fn shop_for_state(items: Seq<ShopItem>, s: GameState) -> bool {
    is_shop_for(items, s.relics@, has_standard(s.dice_pool.dice@), s.hp < s.max_hp)
}

/// `a` is `b` after a won room: the room's reward earned, the pool reset,
/// and a fresh shop opened with the cursor on its first item.
pub open spec fn won_room(b: GameState, a: GameState) -> bool {
    exists|m: GameState, m2: GameState|
        #[trigger] earned(b, m, current_reward(b)) && #[trigger] pool_reset(m, m2) && (
        a.phase matches GamePhase::Shop { items, cursor } && cursor == 0 && shop_for_state(
            items@,
            m2,
        ) && a == (GameState { phase: a.phase, ..m2 }))
}

/// What any key does on the result screen. After a boss: a win offers two
/// categories to unlock and moves on to the unlock screen; a loss costs
/// 20 HP and restarts the fight. After a room: a win pays its reward and
/// opens the shop; a loss costs 10 HP and restarts the room.
pub open spec fn scored_step(b: App, a: App, cont: bool) -> bool {
    &&& cont
    &&& if boss_is_next(b.state) {
        if scored_success(b.state) {
            &&& is_unlock_offer(b.state.unlocked@, a.unlock_options)
            &&& keeps_run(b.state, a.state)
            &&& a.state.phase == GamePhase::CategoryUnlock
            &&& a.roll_animation == b.roll_animation
            &&& a.stashed_shop == b.stashed_shop
        } else {
            lost_fight(b.state, a.state, 20, GamePhase::Boss) && same_screens(b, a)
        }
    } else if scored_success(b.state) {
        won_room(b.state, a.state) && same_screens(b, a)
    } else {
        lost_fight(b.state, a.state, 10, GamePhase::Rolling) && same_screens(b, a)
    }
}

/// The line shown under a result: the unlock after a boss win, the gold
/// earned after a room win, the HP lost otherwise.
pub open spec fn scored_message_of(s: GameState) -> Seq<char> {
    if scored_success(s) {
        if boss_is_next(s) {
            "\nBoss defeated! Choose a new category."@
        } else {
            "\n+"@ + decimal(current_reward(s) as nat) + "g earned"@
        }
    } else if boss_is_next(s) {
        "\n-20 HP"@
    } else {
        "\n-10 HP"@
    }
}

impl App {
    /// Handle a key on the result screen; never quits.
    pub fn handle_scored(&mut self, key: Key) -> (cont: bool)
        requires
            old(self).wf(),
            old(self).limits_hold(),
            old(self).state.phase is Scored,
        ensures
            scored_step(*old(self), *final(self), cont),
            final(self).wf(),
    {
        let success = match self.state.phase {
            GamePhase::Scored { success, .. } => success,
            _ => false,
        };
        let is_boss = self.state.dungeon.current_floor().boss_next();
        if is_boss {
            if success {
                let options = self.pick_unlock_options();
                self.unlock_options = options;
                self.state.defeat_boss();
            } else {
                self.lose_fight(20, true);
            }
            return true;
        }
        if success {
            let reward = match self.state.dungeon.current_floor().current_room() {
                Some(r) => r.reward_gold(),
                None => 0,
            };
            self.state.earn_gold(reward);
            let ghost m = self.state;
            self.state.dice_pool.reset_for_room();
            let ghost m2 = self.state;
            let items = generate_shop_items(&self.state, &mut self.rng);
            self.state.phase = GamePhase::Shop { items, cursor: 0 };
            proof {
                assert(earned(old(self).state, m, current_reward(old(self).state)));
                assert(pool_reset(m, m2));
                assert(self.state == (GameState { phase: self.state.phase, ..m2 }));
            }
        } else {
            self.lose_fight(10, false);
        }
        true
    }

    /// Lose `amount` HP and, unless the run is over, begin the room again on
    /// the boss screen (`boss`) or the rolling screen.
    fn lose_fight(&mut self, amount: u32, boss: bool)
        requires
            old(self).wf(),
            old(self).limits_hold(),
        ensures
            lost_fight(
                old(self).state,
                final(self).state,
                amount,
                if boss {
                    GamePhase::Boss
                } else {
                    GamePhase::Rolling
                },
            ),
            same_screens(*old(self), *final(self)),
            final(self).wf(),
    {
        self.state.take_damage(amount);
        let ghost m = self.state;
        if let GamePhase::GameOver = self.state.phase {
            assert(took_damage(old(self).state, m, amount));
            return ;
        }
        proof {
            law_hp_loss_keeps_extra_rolls(old(self).state.relics@, m.relics@);
        }
        self.state.begin_room();
        let ghost m2 = self.state;
        self.state.phase = if boss {
            GamePhase::Boss
        } else {
            GamePhase::Rolling
        };
        proof {
            assert(took_damage(old(self).state, m, amount));
            assert(began_room(m, m2));
        }
    }

    /// The line shown under the result.
    pub fn scored_message(&self) -> (s: String)
        requires
            self.state.dungeon.wf(),
        ensures
            s@ == scored_message_of(self.state),
    {
        let success = match self.state.phase {
            GamePhase::Scored { success, .. } => success,
            _ => false,
        };
        let is_boss = self.state.dungeon.current_floor().boss_next();
        if success {
            if is_boss {
                proof {
                    reveal_strlit("\nBoss defeated! Choose a new category.");
                }
                String::from_str("\nBoss defeated! Choose a new category.")
            } else {
                let gold = match self.state.dungeon.current_floor().current_room() {
                    Some(r) => r.reward_gold(),
                    None => 0,
                };
                let mut s = String::from_str("\n+");
                let n = decimal_string(gold as usize);
                s.append(n.as_str());
                s.append("g earned");
                proof {
                    reveal_strlit("\n+");
                    reveal_strlit("g earned");
                }
                s
            }
        } else if is_boss {
            proof {
                reveal_strlit("\n-20 HP");
            }
            String::from_str("\n-20 HP")
        } else {
            proof {
                reveal_strlit("\n-10 HP");
            }
            String::from_str("\n-10 HP")
        }
    }
}

} // verus!
