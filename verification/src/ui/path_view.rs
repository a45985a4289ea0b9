//! The path choice: the two room options of the step, side by side under
//! the title "CHOOSE YOUR PATH".

use vstd::prelude::*;

use crate::dungeon::room::Room;
use crate::game::GameState;
use crate::text::{decimal, decimal_string};
use super::Tone;

verus! {

/// A room option as a titled panel with two lines.
pub struct RoomPanel {
    pub title: String,
    pub top: String,
    pub bottom: String,
    pub tone: Tone,
}

/// The title and lines of a room's panel.
pub open spec fn room_panel_text(room: Room) -> (Seq<char>, Seq<char>, Seq<char>) {
    match room {
        Room::Challenge(t) => (
            "CHALLENGE"@,
            "Target: "@ + decimal(t.required as nat) + " pts"@,
            "Reward: "@ + decimal(t.reward_gold as nat) + "g"@,
        ),
        Room::Elite(t) => (
            "ELITE"@,
            "Target: "@ + decimal(t.required as nat) + " pts"@,
            "Reward: "@ + decimal(t.reward_gold as nat) + "g"@,
        ),
        Room::Rest => ("REST SITE"@, "Heal 15 HP"@, "Upgrade a die"@),
    }
}

/// The panel of `room`, highlighted when `selected`.
pub fn room_panel(room: &Room, selected: bool) -> (p: RoomPanel)
    ensures
        (p.title@, p.top@, p.bottom@) == room_panel_text(*room),
        p.tone == (if selected {
            Tone::Cursor
        } else {
            Tone::Plain
        }),
{
    proof {
        reveal_strlit("CHALLENGE");
        reveal_strlit("ELITE");
        reveal_strlit("REST SITE");
        reveal_strlit("Target: ");
        reveal_strlit(" pts");
        reveal_strlit("Reward: ");
        reveal_strlit("g");
        reveal_strlit("Heal 15 HP");
        reveal_strlit("Upgrade a die");
    }
    let tone = if selected {
        Tone::Cursor
    } else {
        Tone::Plain
    };
    let (title, t) = match room {
        Room::Challenge(t) => ("CHALLENGE", *t),
        Room::Elite(t) => ("ELITE", *t),
        Room::Rest => {
            return RoomPanel {
                title: String::from_str("REST SITE"),
                top: String::from_str("Heal 15 HP"),
                bottom: String::from_str("Upgrade a die"),
                tone,
            };
        },
    };
    let mut top = String::from_str("Target: ");
    let a = decimal_string(t.required as usize);
    top.append(a.as_str());
    top.append(" pts");
    let mut bottom = String::from_str("Reward: ");
    let b = decimal_string(t.reward_gold as usize);
    bottom.append(b.as_str());
    bottom.append("g");
    RoomPanel { title: String::from_str(title), top, bottom, tone }
}

pub struct PathView<'a> {
    pub state: &'a GameState,
    pub cursor: usize,
}

impl<'a> PathView<'a> {
    pub fn new(state: &'a GameState, cursor: usize) -> (v: Self)
        ensures
            *v.state == *state,
            v.cursor == cursor,
    {
        PathView { state, cursor }
    }

    /// The panels of the two options, the one under the cursor highlighted;
    /// nothing when the boss is next.
    pub fn panels(&self) -> (r: Option<(RoomPanel, RoomPanel)>)
        requires
            self.state.dungeon.wf(),
        ensures
            ({
                let f = self.state.dungeon.current();
                match r {
                    None => f.step >= f.room_choices@.len(),
                    Some((left, right)) => {
                        &&& f.step < f.room_choices@.len()
                        &&& (left.title@, left.top@, left.bottom@) == room_panel_text(
                            f.room_choices@[f.step as int]@[0],
                        )
                        &&& left.tone == (if self.cursor == 0 {
                            Tone::Cursor
                        } else {
                            Tone::Plain
                        })
                        &&& (right.title@, right.top@, right.bottom@) == room_panel_text(
                            f.room_choices@[f.step as int]@[1],
                        )
                        &&& right.tone == (if self.cursor == 1 {
                            Tone::Cursor
                        } else {
                            Tone::Plain
                        })
                    },
                }
            }),
    {
        let floor = self.state.dungeon.current_floor();
        match floor.next_options() {
            None => None,
            Some(options) => Some(
                (room_panel(&options[0], self.cursor == 0), room_panel(&options[1], self.cursor == 1)),
            ),
        }
    }
}

} // verus!
