//! The main game screen: rolling and holding dice (Rolling and Boss phases,
//! which behave alike).

use vstd::prelude::*;

use crate::dice::{first_selected, next_selection, prev_selection, toggled_hold, Die};
use crate::game::{keeps_run, roll_done, GamePhase, GameState};
use super::{is_letter, is_quit, key_is_letter, quits, same_screens, App, Key};
use super::roll_animation::{is_flicker_of, RollAnimation, ROLL_ANIM_FRAMES};

verus! {

/// `a` is `b` with the pool's dice replaced by `dice`, everything else kept.
pub open spec fn dice_moved(b: GameState, a: GameState, dice: Seq<Die>) -> bool {
    &&& a.dice_pool.dice@ == dice
    &&& a.dice_pool.rolls_remaining == b.dice_pool.rolls_remaining
    &&& a.dice_pool.max_rolls == b.dice_pool.max_rolls
    &&& a.hp == b.hp
    &&& a.max_hp == b.max_hp
    &&& a.gold == b.gold
    &&& a.dungeon == b.dungeon
    &&& a.unlocked == b.unlocked
    &&& a.used_this_room == b.used_this_room
    &&& a.relics@ == b.relics@
    &&& a.phase == b.phase
    &&& a.base_rolls == b.base_rolls
}

/// The dice after the hold of the selected die is toggled.
pub open spec fn toggled_selected(dice: Seq<Die>) -> Seq<Die> {
    match first_selected(dice) {
        None => dice,
        Some(x) => toggled_hold(dice, x),
    }
}

/// A roll has been spent in this room.
pub open spec fn has_rolled(s: GameState) -> bool {
    s.dice_pool.max_rolls != s.dice_pool.rolls_remaining
}

/// What a key does while rolling. Q quits. R rolls the unheld dice and,
/// when a roll remained, starts the animation. Once a roll has been spent,
/// Left and Right move the selection, Space holds or releases the selected
/// die and S or Enter goes on to scoring. Other keys change nothing.
pub open spec fn rolling_step(b: App, a: App, key: Key, cont: bool) -> bool {
    if quits(key) {
        !cont && a == b
    } else if is_letter(key, 'r', 'R') {
        let r = b.state.dice_pool.rolls_remaining > 0;
        &&& cont
        &&& roll_done(b.state, a.state, r)
        &&& a.unlock_options == b.unlock_options
        &&& a.stashed_shop == b.stashed_shop
        &&& if r {
            a.roll_animation matches Some(anim) && anim.frames_remaining == ROLL_ANIM_FRAMES
                && is_flicker_of(anim.display@, a.state.dice_pool.dice@)
        } else {
            a.roll_animation == b.roll_animation
        }
    } else if has_rolled(b.state) && key == Key::Right {
        cont && dice_moved(b.state, a.state, next_selection(b.state.dice_pool.dice@))
            && same_screens(b, a)
    } else if has_rolled(b.state) && key == Key::Left {
        cont && dice_moved(b.state, a.state, prev_selection(b.state.dice_pool.dice@))
            && same_screens(b, a)
    } else if has_rolled(b.state) && key == Key::Char(' ') {
        cont && dice_moved(b.state, a.state, toggled_selected(b.state.dice_pool.dice@))
            && same_screens(b, a)
    } else if has_rolled(b.state) && (is_letter(key, 's', 'S') || key == Key::Enter) {
        &&& cont
        &&& keeps_run(b.state, a.state)
        &&& a.state.phase == (GamePhase::SelectingCategory {
            cursor: 0,
            from_boss: b.state.phase is Boss,
        })
        &&& same_screens(b, a)
    } else {
        cont && a == b
    }
}

/// The key hints of the rolling screen: only rolling before the first roll.
pub open spec fn roll_hint_text(s: GameState) -> Seq<char> {
    if s.dice_pool.rolls_remaining == s.dice_pool.max_rolls {
        "[R] Roll  [Q] Quit"@
    } else {
        "[<Arrow Keys>] Select Die  [<Space>] Hold  [R] Roll  [S] Score  [Q] Quit"@
    }
}

impl App {
    /// Handle a key while rolling; returns false to quit.
    pub fn handle_rolling(&mut self, key: Key) -> (cont: bool)
        requires
            old(self).wf(),
            old(self).state.dice_pool.dice@.len() > 0,
        ensures
            rolling_step(*old(self), *final(self), key, cont),
            final(self).wf(),
    {
        if is_quit(key) {
            return false;
        }
        let rolled_any = self.state.dice_pool.max_rolls != self.state.dice_pool.rolls_remaining;
        if key_is_letter(key, 'r', 'R') {
            if self.state.roll() {
                self.roll_animation = Some(RollAnimation::new(&self.state.dice_pool, &mut self.rng));
            }
            return true;
        }
        if rolled_any {
            match key {
                Key::Right => {
                    self.state.dice_pool.next_die();
                },
                Key::Left => {
                    self.state.dice_pool.prev_die();
                },
                Key::Char(' ') => {
                    self.state.dice_pool.toggle_selected();
                },
                Key::Enter => {
                    self.state.begin_scoring();
                },
                Key::Char('s') => {
                    self.state.begin_scoring();
                },
                Key::Char('S') => {
                    self.state.begin_scoring();
                },
                _ => {},
            }
        }
        true
    }

    /// Advance the roll animation by one frame; once it has run out, it is
    /// dropped so the real values show.
    pub fn tick_animation(&mut self)
        requires
            old(self).wf(),
        ensures
            final(self).wf(),
            final(self).state == old(self).state,
            final(self).unlock_options == old(self).unlock_options,
            final(self).stashed_shop == old(self).stashed_shop,
            match old(self).roll_animation {
                None => final(self).roll_animation is None,
                Some(anim) => if anim.frames_remaining > 1 {
                    final(self).roll_animation matches Some(next)
                        && next.frames_remaining == anim.frames_remaining - 1
                        && is_flicker_of(next.display@, old(self).state.dice_pool.dice@)
                } else {
                    final(self).roll_animation is None
                },
            },
    {
        let mut anim = match self.roll_animation.take() {
            None => return,
            Some(a) => a,
        };
        if anim.tick(&self.state.dice_pool, &mut self.rng) {
            self.roll_animation = Some(anim);
        }
    }
}

/// The key hints of the rolling screen.
pub fn roll_hint(app: &App) -> (s: &'static str)
    ensures
        s@ == roll_hint_text(app.state),
{
    if app.state.dice_pool.rolls_remaining == app.state.dice_pool.max_rolls {
        proof {
            reveal_strlit("[R] Roll  [Q] Quit");
        }
        "[R] Roll  [Q] Quit"
    } else {
        proof {
            reveal_strlit("[<Arrow Keys>] Select Die  [<Space>] Hold  [R] Roll  [S] Score  [Q] Quit");
        }
        "[<Arrow Keys>] Select Die  [<Space>] Hold  [R] Roll  [S] Score  [Q] Quit"
    }
}

} // verus!
