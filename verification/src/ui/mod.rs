//! The game's screens without the terminal: what each key does on each
//! screen, and the text each screen shows. Drawing is left to the caller.
//!
//! `App` holds the run state and what the screens keep between key presses
//! (the categories offered after a boss, a running roll animation, the shop
//! put aside while a bought die or upgrade finds its place). Each phase of
//! the run has a handler; `App::handle_key` picks it.

pub mod dice_view;
pub mod dungeon_view;
pub mod game_over;
pub mod limits;
pub mod main_menu;
pub mod path_view;
pub mod rest;
pub mod roll_animation;
pub mod rolling;
pub mod room_select;
pub mod score_view;
pub mod scored;
pub mod selecting;
pub mod shop;
pub mod shop_view;
pub mod unlock;
pub mod upgrade;

use vstd::prelude::*;
use rand::rngs::ThreadRng;

use crate::dungeon::advanced;
use crate::dungeon::room::reward_of;
use crate::game::{
    began_room,
    augment_fits,
    keeps_run,
    purchase_fits,
    relic_extra_rolls,
    score_fits,
    GamePhase,
    GameState,
    UpgradeKind,
};
use crate::scoring::ScoreCategory;
use crate::shop::ShopItem;
use roll_animation::RollAnimation;
use game_over::game_over_step;
use main_menu::menu_step;
use rest::rest_step;
use rolling::rolling_step;
use room_select::room_choice_step;
use scored::scored_step;
use selecting::selecting_step;
use shop::shop_step;
use unlock::unlock_step;
use upgrade::{select_die_step, select_face_step};

verus! {

/// A key press, as the screens see it.
#[derive(Debug, Clone, Copy, PartialEq, Eq, Structural)]
pub enum Key {
    Char(char),
    Up,
    Down,
    Left,
    Right,
    Enter,
    Esc,
    Other,
}

/// The keys that quit the game from most screens.
pub open spec fn quits(key: Key) -> bool {
    key == Key::Char('q') || key == Key::Char('Q')
}

/// Whether `key` is one of the quit keys.
pub fn is_quit(key: Key) -> (r: bool)
    ensures
        r == quits(key),
{
    match key {
        Key::Char(c) => c == 'q' || c == 'Q',
        _ => false,
    }
}

/// `key` is the given letter in either case.
pub open spec fn is_letter(key: Key, lower: char, upper: char) -> bool {
    key == Key::Char(lower) || key == Key::Char(upper)
}

/// Whether `key` is the given letter in either case.
pub fn key_is_letter(key: Key, lower: char, upper: char) -> (r: bool)
    ensures
        r == is_letter(key, lower, upper),
{
    match key {
        Key::Char(c) => c == lower || c == upper,
        _ => false,
    }
}

/// How a piece of a screen stands out: plain, under the cursor, out of
/// reach (an item the player cannot pay for), already done (dimmed), or
/// the best choice.
#[derive(Debug, Clone, Copy, PartialEq, Eq, Structural)]
pub enum Tone {
    Plain,
    Cursor,
    Warning,
    Dimmed,
    Best,
}

/// A piece of text and its tone.
pub struct Cell {
    pub text: String,
    pub tone: Tone,
}

/// A boxed entry of a list screen: two lines of text and its tone.
pub struct ItemBox {
    pub top: String,
    pub bottom: String,
    pub tone: Tone,
}

/// The application: the run state and what the screens keep between keys.
pub struct App {
    pub state: GameState,
    pub rng: ThreadRng,
    /// The two categories offered after a boss defeat; cleared after unlock.
    pub unlock_options: Option<[ScoreCategory; 2]>,
    pub roll_animation: Option<RollAnimation>,
    /// Shop items held aside while the player picks which die a special die
    /// or an upgrade bought in the shop goes to.
    pub stashed_shop: Option<(Vec<ShopItem>, usize)>,
}

/// Nothing the screens keep changes.
pub open spec fn same_screens(b: App, a: App) -> bool {
    &&& a.unlock_options == b.unlock_options
    &&& a.roll_animation == b.roll_animation
    &&& a.stashed_shop == b.stashed_shop
}

/// The reward of the room being played (nothing without a chosen room).
pub open spec fn current_reward(s: GameState) -> u32 {
    match s.dungeon.current().chosen_room() {
        Some(r) => reward_of(r),
        None => 0,
    }
}

/// `a` is `b` with the current floor advanced a step and then the next
/// screen set: the boss fight, its room begun, when the boss is next, else
/// the room choice.
pub open spec fn advanced_to_next(b: GameState, a: GameState) -> bool {
    exists|m: GameState|
        {
            &&& #[trigger] m.dungeon.current_becomes(b.dungeon, advanced(b.dungeon.current()))
            &&& keeps_floor_rest(b, m)
            &&& next_after_advance(m, a)
        }
}

/// Everything but the dungeon is unchanged.
pub open spec fn keeps_floor_rest(b: GameState, a: GameState) -> bool {
    &&& a.dice_pool == b.dice_pool
    &&& a.hp == b.hp
    &&& a.max_hp == b.max_hp
    &&& a.gold == b.gold
    &&& a.unlocked == b.unlocked
    &&& a.used_this_room == b.used_this_room
    &&& a.relics@ == b.relics@
    &&& a.phase == b.phase
    &&& a.base_rolls == b.base_rolls
}

/// The screen after the floor's step moved: the boss fight with its room
/// begun when the boss is next, else the room choice.
pub open spec fn next_after_advance(b: GameState, a: GameState) -> bool {
    if b.dungeon.current().step == b.dungeon.current().room_choices@.len() {
        exists|m: GameState|
            #[trigger] began_room(b, m) && a == (GameState { phase: GamePhase::Boss, ..m })
    } else {
        keeps_run(b, a) && a.phase == (GamePhase::ChoosingRoom { cursor: 0 })
    }
}

/// What a key does: while the roll animation runs, only the quit keys
/// count (and change nothing); otherwise the current screen decides.
pub open spec fn key_step(b: App, a: App, key: Key, cont: bool) -> bool {
    if b.roll_animation is Some {
        cont == !quits(key) && a == b
    } else {
        match b.state.phase {
            GamePhase::MainMenu { .. } => menu_step(b, a, key, cont),
            GamePhase::Rolling => rolling_step(b, a, key, cont),
            GamePhase::Boss => rolling_step(b, a, key, cont),
            GamePhase::SelectingCategory { .. } => selecting_step(b, a, key, cont),
            GamePhase::Scored { .. } => scored_step(b, a, cont),
            GamePhase::Shop { .. } => shop_step(b, a, key, cont),
            GamePhase::Rest { .. } => rest_step(b, a, key, cont),
            GamePhase::UpgradeSelectDie { .. } => select_die_step(b, a, key, cont),
            GamePhase::UpgradeSelectFace { .. } => select_face_step(b, a, key, cont),
            GamePhase::ChoosingRoom { .. } => room_choice_step(b, a, key, cont),
            GamePhase::CategoryUnlock => unlock_step(b, a, key, cont),
            GamePhase::GameOver => game_over_step(b, a, key, cont),
        }
    }
}

impl App {
    /// Wrap a run state; nothing is on hold.
    pub fn new(state: GameState) -> (app: Self)
        ensures
            app.state == state,
            app.unlock_options is None,
            app.roll_animation is None,
            app.stashed_shop is None,
            state.wf() && !(state.phase is UpgradeSelectDie) ==> app.wf(),
    {
        App {
            state,
            rng: crate::random::thread_rng(),
            unlock_options: None,
            roll_animation: None,
            stashed_shop: None,
        }
    }

    /// The application is consistent: a consistent run, a running
    /// animation has frames left, a die waiting to be placed has faces.
    pub open spec fn wf(&self) -> bool {
        &&& self.state.wf()
        &&& match self.roll_animation {
            Some(anim) => anim.frames_remaining >= 1,
            None => true,
        }
        &&& match self.state.phase {
            GamePhase::UpgradeSelectDie { pending_die: Some(d), .. } => d.wf(),
            _ => true,
        }
    }

    /// No key on the current screen can overflow a number or index out of
    /// bounds: the pool has dice, the rolls per room fit in `u8`, the floor
    /// can take a step, and what the current screen does fits.
    pub open spec fn limits_hold(&self) -> bool {
        let s = self.state;
        &&& s.dice_pool.dice@.len() > 0
        &&& s.base_rolls + relic_extra_rolls(s.relics@) <= u8::MAX
        &&& s.dungeon.current().room_choices@.len() < usize::MAX
        &&& match s.phase {
            GamePhase::MainMenu { cursor } => cursor < 2,
            GamePhase::SelectingCategory { .. } => forall|c: ScoreCategory|
                #[trigger] s.unlocked@.contains(c) ==> score_fits(s, c),
            GamePhase::Scored { .. } => s.gold + current_reward(s) <= u32::MAX,
            GamePhase::Rest { .. } => s.hp + 15 <= u32::MAX,
            GamePhase::Shop { items, .. } => forall|i: int|
                0 <= i < items@.len() ==> purchase_fits(s, #[trigger] items@[i]),
            GamePhase::UpgradeSelectDie { die_cursor, .. } => die_cursor < s.dice_pool.dice@.len(),
            GamePhase::UpgradeSelectFace { die_index, face_cursor, kind, .. } => {
                &&& die_index < s.dice_pool.dice@.len()
                &&& kind == UpgradeKind::Augment ==> augment_fits(
                    s.dice_pool.dice@[die_index as int],
                    face_cursor,
                )
            },
            GamePhase::CategoryUnlock => s.dungeon.floors_view().len() < usize::MAX,
            _ => true,
        }
    }

    /// Show the title menu, cursor on its first entry.
    pub fn open_menu(&mut self)
        ensures
            keeps_run(old(self).state, final(self).state),
            final(self).state.phase == (GamePhase::MainMenu { cursor: 0 }),
            same_screens(*old(self), *final(self)),
            old(self).wf() ==> final(self).wf(),
    {
        self.state.phase = GamePhase::MainMenu { cursor: 0 };
    }

    /// The dice as the rolling screens show them: with the animation's
    /// values while a roll animates.
    pub fn dice_view(&self) -> (v: dice_view::DiceView<'_>)
        ensures
            *v.pool == self.state.dice_pool,
            v.upgrade_cursor is None,
            match self.roll_animation {
                Some(anim) => v.animated_values matches Some(vals) && vals@ == anim.display@,
                None => v.animated_values is None,
            },
    {
        match &self.roll_animation {
            Some(anim) => dice_view::DiceView::animated(&self.state.dice_pool, anim.display.as_slice()),
            None => dice_view::DiceView::new(&self.state.dice_pool),
        }
    }

    /// The scoring panel for the current dice and categories.
    pub fn score_view(&self) -> (v: score_view::ScoreView<'_>)
        ensures
            *v.pool == self.state.dice_pool,
            v.unlocked@ == self.state.unlocked@,
            v.used_this_room@ == self.state.used_this_room@,
    {
        score_view::ScoreView::new(
            &self.state.dice_pool,
            self.state.unlocked.as_slice(),
            self.state.used_this_room.as_slice(),
        )
    }

    /// Handle a key press; returns false when the game should end.
    pub fn handle_key(&mut self, key: Key) -> (cont: bool)
        requires
            old(self).wf(),
            old(self).limits_hold(),
        ensures
            key_step(*old(self), *final(self), key, cont),
            final(self).wf(),
    {
        if self.roll_animation.is_some() {
            return !is_quit(key);
        }
        match self.state.phase {
            GamePhase::MainMenu { .. } => self.handle_menu(key),
            GamePhase::Rolling => self.handle_rolling(key),
            GamePhase::Boss => self.handle_rolling(key),
            GamePhase::SelectingCategory { .. } => self.handle_selecting(key),
            GamePhase::Scored { .. } => self.handle_scored(key),
            GamePhase::Shop { .. } => self.handle_shop(key),
            GamePhase::Rest { .. } => self.handle_rest(key),
            GamePhase::UpgradeSelectDie { .. } => self.handle_select_die(key),
            GamePhase::UpgradeSelectFace { .. } => self.handle_select_face(key),
            GamePhase::ChoosingRoom { .. } => self.handle_room_choice(key),
            GamePhase::CategoryUnlock => self.handle_unlock(key),
            GamePhase::GameOver => self.handle_game_over(key),
        }
    }

    /// Move the current floor one step on, then set the next screen.
    fn advance_floor(&mut self)
        requires
            old(self).state.wf(),
            old(self).state.dungeon.current().room_choices@.len() < usize::MAX,
            old(self).state.base_rolls + relic_extra_rolls(old(self).state.relics@) <= u8::MAX,
        ensures
            advanced_to_next(old(self).state, final(self).state),
            same_screens(*old(self), *final(self)),
            final(self).state.wf(),
    {
        let ghost before = self.state;
        let _ = self.state.dungeon.current_floor_mut().advance();
        let ghost m = self.state;
        proof {
            assert(m.dungeon.current_becomes(before.dungeon, advanced(before.dungeon.current())));
            assert(m.dungeon.floors_view()[m.dungeon.current_index()] == advanced(
                before.dungeon.current(),
            ));
            assert forall|i: int| 0 <= i < m.dungeon.floors_view().len() implies (
            #[trigger] m.dungeon.floors_view()[i]).floor_num == i + 1 by {
                assert(before.dungeon.floors_view()[i].floor_num == i + 1);
            }
            assert(m.wf());
        }
        self.transition_after_advance();
    }

    /// Set the screen that follows a step of the floor: the boss fight when
    /// the boss is next, else the room choice.
    pub fn transition_after_advance(&mut self)
        requires
            old(self).state.wf(),
            old(self).state.base_rolls + relic_extra_rolls(old(self).state.relics@) <= u8::MAX,
        ensures
            next_after_advance(old(self).state, final(self).state),
            same_screens(*old(self), *final(self)),
            final(self).state.wf(),
    {
        if self.state.dungeon.current_floor().boss_next() {
            self.state.begin_room();
            let ghost m = self.state;
            self.state.phase = GamePhase::Boss;
            assert(began_room(old(self).state, m));
        } else {
            self.state.phase = GamePhase::ChoosingRoom { cursor: 0 };
        }
    }
}

} // verus!
