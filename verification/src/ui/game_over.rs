//! The game over screen.

use vstd::prelude::*;

use crate::game::GameState;
use crate::text::{decimal, decimal_string};
use super::{App, Key};

verus! {

/// What a key does once the run is over: Q or Enter quits, other keys
/// change nothing.
pub open spec fn game_over_step(b: App, a: App, key: Key, cont: bool) -> bool {
    &&& cont == !(key == Key::Char('q') || key == Key::Char('Q') || key == Key::Enter)
    &&& a == b
}

/// The text of the game over screen.
pub open spec fn game_over_text_of(s: GameState) -> Seq<char> {
    "GAME OVER\n\nFloor "@ + decimal(s.dungeon.current().floor_num as nat) + "\nHP: "@ + decimal(
        s.hp as nat,
    ) + "/"@ + decimal(s.max_hp as nat) + "\n\n[Q] or [Enter] to quit"@
}

impl App {
    /// Handle a key on the game over screen; returns false to quit.
    pub fn handle_game_over(&mut self, key: Key) -> (cont: bool)
        ensures
            game_over_step(*old(self), *final(self), key, cont),
    {
        match key {
            Key::Char('q') => false,
            Key::Char('Q') => false,
            Key::Enter => false,
            _ => true,
        }
    }

    /// The text of the game over screen.
    pub fn game_over_text(&self) -> (t: String)
        requires
            self.state.dungeon.wf(),
        ensures
            t@ == game_over_text_of(self.state),
    {
        let floor = self.state.dungeon.current_floor();
        let mut t = String::from_str("GAME OVER\n\nFloor ");
        let n = decimal_string(floor.floor_num);
        t.append(n.as_str());
        t.append("\nHP: ");
        let hp = decimal_string(self.state.hp as usize);
        t.append(hp.as_str());
        t.append("/");
        let max = decimal_string(self.state.max_hp as usize);
        t.append(max.as_str());
        t.append("\n\n[Q] or [Enter] to quit");
        proof {
            reveal_strlit("GAME OVER\n\nFloor ");
            reveal_strlit("\nHP: ");
            reveal_strlit("/");
            reveal_strlit("\n\n[Q] or [Enter] to quit");
        }
        t
    }
}

} // verus!
