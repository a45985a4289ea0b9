//! The choice of the next room: two options side by side.

use vstd::prelude::*;

use crate::dungeon::{chose_room, Floor};
use crate::dungeon::room::Room;
use crate::game::{began_room, keeps_run, wrap_cursor, wrapped, GamePhase, GameState};
use super::{is_quit, keeps_floor_rest, quits, same_screens, App, Key};

verus! {

/// The floor still has a room to choose at its current step.
pub open spec fn step_has_options(floor: Floor) -> bool {
    floor.step < floor.room_choices@.len()
}

/// Option `cursor` of the current step of the floor.
pub open spec fn option_at(floor: Floor, cursor: usize) -> Room {
    floor.room_choices@[floor.step as int]@[cursor as int]
}

/// `a` is `b` with option `idx` recorded for the current step of the floor.
pub open spec fn room_chosen(b: GameState, a: GameState, idx: usize) -> bool {
    exists|f: Floor|
        #[trigger] chose_room(b.dungeon.current(), f, idx) && a.dungeon.current_becomes(
            b.dungeon,
            f,
        ) && keeps_floor_rest(b, a)
}

/// What a key does on the room choice. Q quits. With the boss next there
/// is nothing to choose and no other key does anything. Otherwise Left,
/// Right, Up and Down move the cursor over the two options, wrapping; Enter
/// takes the option under the cursor: a Rest site opens the rest screen,
/// another room is begun on the rolling screen.
pub open spec fn room_choice_step(b: App, a: App, key: Key, cont: bool) -> bool {
    let floor = b.state.dungeon.current();
    match b.state.phase {
        GamePhase::ChoosingRoom { cursor } => if quits(key) {
            !cont && a == b
        } else if floor.step >= floor.room_choices@.len() {
            cont && a == b
        } else if key == Key::Left || key == Key::Right || key == Key::Up || key == Key::Down {
            &&& cont
            &&& keeps_run(b.state, a.state)
            &&& a.state.phase == (GamePhase::ChoosingRoom {
                cursor: wrapped(cursor as int, 2, key == Key::Right || key == Key::Down) as usize,
            })
            &&& same_screens(b, a)
        } else if key == Key::Enter && cursor < 2 {
            &&& cont
            &&& same_screens(b, a)
            &&& exists|m: GameState|
                #[trigger] room_chosen(b.state, m, cursor) && if option_at(floor, cursor) is Rest {
                    a.state == (GameState { phase: GamePhase::Rest { cursor: 0 }, ..m })
                } else {
                    exists|m2: GameState|
                        #[trigger] began_room(m, m2) && a.state == (GameState {
                            phase: GamePhase::Rolling,
                            ..m2
                        })
                }
        } else {
            cont && a == b
        },
        _ => cont && a == b,
    }
}

impl App {
    /// Handle a key on the room choice; returns false to quit.
    pub fn handle_room_choice(&mut self, key: Key) -> (cont: bool)
        requires
            old(self).wf(),
            old(self).limits_hold(),
            old(self).state.phase is ChoosingRoom,
        ensures
            room_choice_step(*old(self), *final(self), key, cont),
            final(self).wf(),
    {
        let cursor = match self.state.phase {
            GamePhase::ChoosingRoom { cursor } => cursor,
            _ => 0,
        };
        if is_quit(key) {
            return false;
        }
        let room = match self.state.dungeon.current_floor().next_options() {
            None => {
                return true;
            },
            Some(options) => if cursor < 2 {
                Some(options[cursor])
            } else {
                None
            },
        };
        match key {
            Key::Left => {
                self.state.phase.set_cursor(wrap_cursor(cursor, 2, false));
            },
            Key::Up => {
                self.state.phase.set_cursor(wrap_cursor(cursor, 2, false));
            },
            Key::Right => {
                self.state.phase.set_cursor(wrap_cursor(cursor, 2, true));
            },
            Key::Down => {
                self.state.phase.set_cursor(wrap_cursor(cursor, 2, true));
            },
            Key::Enter => {
                if let Some(room) = room {
                    self.enter_room(cursor, room);
                }
            },
            _ => {},
        }
        true
    }

    /// Record option `cursor` of the current step, which is `room`, and open
    /// it.
    fn enter_room(&mut self, cursor: usize, room: Room)
        requires
            old(self).wf(),
            old(self).limits_hold(),
            cursor < 2,
            step_has_options(old(self).state.dungeon.current()),
            room == option_at(old(self).state.dungeon.current(), cursor),
        ensures
            same_screens(*old(self), *final(self)),
            final(self).wf(),
            exists|m: GameState|
                #[trigger] room_chosen(old(self).state, m, cursor) && if room is Rest {
                    final(self).state == (GameState { phase: GamePhase::Rest { cursor: 0 }, ..m })
                } else {
                    exists|m2: GameState|
                        #[trigger] began_room(m, m2) && final(self).state == (GameState {
                            phase: GamePhase::Rolling,
                            ..m2
                        })
                },
    {
        let ghost before = self.state;
        self.state.dungeon.current_floor_mut().choose_room(cursor);
        let ghost m = self.state;
        proof {
            let f = m.dungeon.floors_view()[m.dungeon.current_index()];
            assert(chose_room(before.dungeon.current(), f, cursor));
            assert(m.dungeon.current_becomes(before.dungeon, f));
            assert forall|i: int| 0 <= i < m.dungeon.floors_view().len() implies (
            #[trigger] m.dungeon.floors_view()[i]).floor_num == i + 1 by {
                assert(before.dungeon.floors_view()[i].floor_num == i + 1);
            }
            assert(room_chosen(before, m, cursor));
        }
        match room {
            Room::Rest => {
                self.state.phase = GamePhase::Rest { cursor: 0 };
            },
            _ => {
                self.state.begin_room();
                let ghost m2 = self.state;
                self.state.phase = GamePhase::Rolling;
                assert(began_room(m, m2));
            },
        }
    }
}

} // verus!
