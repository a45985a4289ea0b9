//! The title menu: start a run or quit.

use vstd::prelude::*;

use crate::game::{keeps_run, wrap_cursor, wrapped, GamePhase};
use super::{is_quit, quits, same_screens, App, Key};

verus! {

/// The menu entries, in order.
pub open spec fn menu_label(i: int) -> Seq<char> {
    if i == 0 {
        "New Run"@
    } else {
        "Quit"@
    }
}

/// What a key does on the menu. Q quits; Up and Down move the cursor over
/// the two entries, wrapping; Enter starts a run (to the choice of the
/// first room) or quits; other keys change nothing.
pub open spec fn menu_step(b: App, a: App, key: Key, cont: bool) -> bool {
    match b.state.phase {
        GamePhase::MainMenu { cursor } => if quits(key) {
            !cont && a == b
        } else if key == Key::Up || key == Key::Down {
            &&& cont
            &&& keeps_run(b.state, a.state)
            &&& a.state.phase == (GamePhase::MainMenu {
                cursor: wrapped(cursor as int, 2, key == Key::Down) as usize,
            })
            &&& same_screens(b, a)
        } else if key == Key::Enter {
            if cursor == 0 {
                &&& cont
                &&& keeps_run(b.state, a.state)
                &&& a.state.phase == (GamePhase::ChoosingRoom { cursor: 0 })
                &&& same_screens(b, a)
            } else {
                !cont && a == b
            }
        } else {
            cont && a == b
        },
        _ => cont && a == b,
    }
}

/// The lines of the menu: each entry, marked with "> " under the cursor
/// and indented otherwise.
pub open spec fn menu_line(i: int, cursor: usize) -> Seq<char> {
    if i == cursor {
        "> "@ + menu_label(i)
    } else {
        "  "@ + menu_label(i)
    }
}

impl App {
    /// Handle a key on the menu; returns false to quit.
    pub fn handle_menu(&mut self, key: Key) -> (cont: bool)
        requires
            old(self).wf(),
            old(self).limits_hold(),
            old(self).state.phase is MainMenu,
        ensures
            menu_step(*old(self), *final(self), key, cont),
            final(self).wf(),
    {
        let cursor = match self.state.phase {
            GamePhase::MainMenu { cursor } => cursor,
            _ => 0,
        };
        if is_quit(key) {
            return false;
        }
        match key {
            Key::Up => {
                self.state.phase.set_cursor(wrap_cursor(cursor, 2, false));
                true
            },
            Key::Down => {
                self.state.phase.set_cursor(wrap_cursor(cursor, 2, true));
                true
            },
            Key::Enter => {
                if cursor == 0 {
                    self.state.phase = GamePhase::ChoosingRoom { cursor: 0 };
                    true
                } else {
                    false
                }
            },
            _ => true,
        }
    }
}

/// The lines of the menu with the cursor at `cursor`.
pub fn menu_lines(cursor: usize) -> (v: Vec<String>)
    ensures
        v@.len() == 2,
        forall|i: int| 0 <= i < 2 ==> (#[trigger] v@[i])@ == menu_line(i, cursor),
{
    proof {
        reveal_strlit("> New Run");
        reveal_strlit("  New Run");
        reveal_strlit("> Quit");
        reveal_strlit("  Quit");
        reveal_strlit("New Run");
        reveal_strlit("Quit");
        reveal_strlit("> ");
        reveal_strlit("  ");
        assert("> "@ + "New Run"@ =~= "> New Run"@);
        assert("  "@ + "New Run"@ =~= "  New Run"@);
        assert("> "@ + "Quit"@ =~= "> Quit"@);
        assert("  "@ + "Quit"@ =~= "  Quit"@);
    }
    let mut v: Vec<String> = Vec::new();
    v.push(
        if cursor == 0 {
            String::from_str("> New Run")
        } else {
            String::from_str("  New Run")
        },
    );
    v.push(
        if cursor == 1 {
            String::from_str("> Quit")
        } else {
            String::from_str("  Quit")
        },
    );
    v
}

} // verus!
