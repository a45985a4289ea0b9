//! The header bar shown above most screens.
//!
//! Row 0: title (left) and status (right); row 1: target bar (left) and HP
//! bar (right). During a boss fight the title names the boss and the status
//! its weakness; otherwise the status shows the floor's path of rooms.

use vstd::prelude::*;

use crate::dungeon::Floor;
use crate::dungeon::room::{short_form_text, Room};
use crate::game::{GamePhase, GameState};
use crate::scoring::category_name;
use crate::text::{decimal, decimal_string, push_repeated, repeat_char};
use super::{Cell, Tone};

verus! {

/// Width of a progress bar, in characters between the brackets.
pub const BAR_WIDTH: usize = 15;

/// How many of the bar's characters are filled for `current` out of
/// `max`: the proportion rounded down, at most the whole bar, none when
/// `max` is 0.
pub open spec fn bar_filled(max: usize, current: usize) -> nat {
    if max == 0 {
        0
    } else if (current * 15) / (max as int) > 15 {
        15
    } else {
        ((current * 15) / (max as int)) as nat
    }
}

/// A progress bar: "[===---] current / max".
pub open spec fn bar_text(max: usize, current: usize) -> Seq<char> {
    "["@ + repeat_char('=', bar_filled(max, current)) + repeat_char(
        '-',
        (15 - bar_filled(max, current)) as nat,
    ) + "] "@ + decimal(current as nat) + " / "@ + decimal(max as nat)
}

/// A progress bar of `current` out of `max`.
pub fn bar(max: &usize, current: &usize) -> (s: String)
    ensures
        s@ == bar_text(*max, *current),
{
    let max = *max;
    let current = *current;
    let filled: usize = if max == 0 {
        0
    } else {
        let f = (current as u128) * 15 / (max as u128);
        if f > 15 {
            15
        } else {
            f as usize
        }
    };
    let mut s = String::from_str("[");
    proof {
        reveal_strlit("[");
        reveal_strlit("=");
        reveal_strlit("-");
        reveal_strlit("] ");
        reveal_strlit(" / ");
    }
    push_repeated(&mut s, "=", filled);
    push_repeated(&mut s, "-", BAR_WIDTH - filled);
    s.append("] ");
    let c = decimal_string(current);
    s.append(c.as_str());
    s.append(" / ");
    let m = decimal_string(max);
    s.append(m.as_str());
    s
}

// ─── Room path ────────────────────────────────────────────────────────────────

/// The letter of the room taken at step `s` of the floor ("?" when the
/// record is missing).
pub open spec fn past_room_text(f: Floor, s: int) -> Seq<char> {
    if s < f.rooms_taken@.len() && s < f.room_choices@.len() && f.rooms_taken@[s] < 2 {
        short_form_text(f.room_choices@[s]@[f.rooms_taken@[s] as int])
    } else {
        "?"@
    }
}

/// The entry of step `s` in the floor's path: rooms taken dimmed, the
/// current one highlighted ("?" until chosen), later ones unknown.
pub open spec fn nav_room(f: Floor, s: int) -> (Seq<char>, Tone) {
    if s < f.step {
        (past_room_text(f, s), Tone::Dimmed)
    } else if s == f.step {
        (
            match f.chosen_room() {
                Some(r) => short_form_text(r),
                None => "?"@,
            },
            Tone::Cursor,
        )
    } else {
        ("?"@, Tone::Plain)
    }
}

/// `v` shows the floor's path: "Boss" highlighted when the boss is next,
/// else " [", one entry per step separated by "-", and "] ".
pub open spec fn is_room_nav(f: Floor, v: Seq<Cell>) -> bool {
    let total = f.room_choices@.len();
    if f.step == total {
        v.len() == 1 && v[0].text@ == "Boss"@ && v[0].tone == Tone::Cursor
    } else {
        &&& v.len() == (if total == 0 {
            2
        } else {
            2 * total + 1
        })
        &&& v[0].text@ == " ["@ && v[0].tone == Tone::Plain
        &&& forall|s: int|
            0 <= s < total ==> (#[trigger] v[2 * s + 1]).text@ == nav_room(f, s).0 && v[2 * s
                + 1].tone == nav_room(f, s).1
        &&& forall|s: int|
            1 <= s < total ==> (#[trigger] v[2 * s]).text@ == "-"@ && v[2 * s].tone == Tone::Plain
        &&& v.last().text@ == "] "@ && v.last().tone == Tone::Plain
    }
}

fn cell(s: &str, tone: Tone) -> (c: Cell)
    ensures
        c.text@ == s@,
        c.tone == tone,
{
    Cell { text: String::from_str(s), tone }
}

/// The floor's path of rooms.
pub fn room_nav(floor: &Floor) -> (v: Vec<Cell>)
    ensures
        is_room_nav(*floor, v@),
{
    proof {
        reveal_strlit("Boss");
        reveal_strlit(" [");
        reveal_strlit("-");
        reveal_strlit("] ");
        reveal_strlit("?");
    }
    let mut v: Vec<Cell> = Vec::new();
    if floor.boss_next() {
        v.push(cell("Boss", Tone::Cursor));
        return v;
    }
    let total = floor.room_choices.len();
    v.push(cell(" [", Tone::Plain));
    let mut s: usize = 0;
    while s < total
        invariant
            total == floor.room_choices@.len(),
            floor.step != total,
            s <= total,
            v@.len() == (if s == 0 {
                1
            } else {
                2 * s
            }),
            v@[0].text@ == " ["@ && v@[0].tone == Tone::Plain,
            forall|k: int|
                0 <= k < s ==> (#[trigger] v@[2 * k + 1]).text@ == nav_room(*floor, k).0 && v@[2
                    * k + 1].tone == nav_room(*floor, k).1,
            forall|k: int|
                1 <= k < s ==> (#[trigger] v@[2 * k]).text@ == "-"@ && v@[2 * k].tone == Tone::Plain,
        decreases total - s,
    {
        if s > 0 {
            v.push(cell("-", Tone::Plain));
        }
        let entry = if s < floor.step {
            let text = if s < floor.rooms_taken.len() && floor.rooms_taken[s] < 2 {
                floor.room_choices[s][floor.rooms_taken[s]].short_form()
            } else {
                String::from_str("?")
            };
            Cell { text, tone: Tone::Dimmed }
        } else if s == floor.step {
            let text = match floor.current_room() {
                Some(room) => room.short_form(),
                None => String::from_str("?"),
            };
            Cell { text, tone: Tone::Cursor }
        } else {
            cell("?", Tone::Plain)
        };
        v.push(entry);
        s = s + 1;
    }
    v.push(cell("] ", Tone::Plain));
    v
}

// ─── Header ───────────────────────────────────────────────────────────────────

/// The screen belongs to a boss fight: the fight itself, or choosing a
/// category from it.
pub open spec fn is_boss_screen(s: GameState) -> bool {
    s.phase is Boss || s.phase matches GamePhase::SelectingCategory { from_boss: true, .. }
}

/// The header's title.
pub open spec fn title_text(s: GameState) -> Seq<char> {
    if is_boss_screen(s) {
        "BOSS: "@ + s.dungeon.current().boss.name@
    } else {
        match s.phase {
            GamePhase::Scored { success, .. } => if success {
                "SUCCESS"@
            } else {
                "FAILED"@
            },
            GamePhase::Rest { .. } => "REST SITE"@,
            _ => "DUNGEON DICE"@,
        }
    }
}

/// The status of a boss fight: floor, weakness and gold.
pub open spec fn boss_status_text(s: GameState) -> Seq<char> {
    "Floor "@ + decimal(s.dungeon.current().floor_num as nat) + " | Weak: "@ + category_name(
        s.dungeon.current().boss.weakness,
    ) + " | Gold: "@ + decimal(s.gold as nat) + "g"@
}

/// The target line: the boss's target bar in a boss fight; the score
/// against the target on a result; the room's target bar in a Challenge or
/// Elite room; nothing otherwise.
pub open spec fn target_text(s: GameState) -> Option<Seq<char>> {
    let f = s.dungeon.current();
    if is_boss_screen(s) {
        Some(
            "Target: "@ + bar_text(f.boss.target.required as usize, f.boss.target.current as usize),
        )
    } else {
        match s.phase {
            GamePhase::Scored { score, target, .. } => Some(
                "Score "@ + decimal(score as nat) + "/"@ + decimal(target as nat),
            ),
            _ => match f.chosen_room() {
                Some(Room::Challenge(t)) => Some(
                    "Target: "@ + bar_text(t.required as usize, t.current as usize),
                ),
                Some(Room::Elite(t)) => Some(
                    "Elite target: "@ + bar_text(t.required as usize, t.current as usize),
                ),
                _ => None,
            },
        }
    }
}

/// The header of the screens of a run.
pub struct DungeonView<'a> {
    pub state: &'a GameState,
}

impl<'a> DungeonView<'a> {
    pub fn new(state: &'a GameState) -> (v: Self)
        ensures
            *v.state == *state,
    {
        DungeonView { state }
    }

    fn boss_screen(&self) -> (b: bool)
        ensures
            b == is_boss_screen(*self.state),
    {
        match self.state.phase {
            GamePhase::Boss => true,
            GamePhase::SelectingCategory { from_boss, .. } => from_boss,
            _ => false,
        }
    }

    /// The title, left of the first row.
    pub fn title(&self) -> (t: String)
        requires
            self.state.dungeon.wf(),
        ensures
            t@ == title_text(*self.state),
    {
        proof {
            reveal_strlit("BOSS: ");
            reveal_strlit("SUCCESS");
            reveal_strlit("FAILED");
            reveal_strlit("REST SITE");
            reveal_strlit("DUNGEON DICE");
        }
        if self.boss_screen() {
            let mut t = String::from_str("BOSS: ");
            t.append(self.state.dungeon.current_floor().boss.name);
            return t;
        }
        match self.state.phase {
            GamePhase::Scored { success, .. } => if success {
                String::from_str("SUCCESS")
            } else {
                String::from_str("FAILED")
            },
            GamePhase::Rest { .. } => String::from_str("REST SITE"),
            _ => String::from_str("DUNGEON DICE"),
        }
    }

    /// The status, right of the first row: in a boss fight one plain piece
    /// (floor, weakness, gold); otherwise the floor, the path of rooms and
    /// the gold.
    pub fn status(&self) -> (v: Vec<Cell>)
        requires
            self.state.dungeon.wf(),
        ensures
            is_boss_screen(*self.state) ==> v@.len() == 1 && v@[0].text@ == boss_status_text(
                *self.state,
            ) && v@[0].tone == Tone::Plain,
            !is_boss_screen(*self.state) ==> {
                &&& v@.len() >= 3
                &&& v@[0].text@ == "Floor "@ + decimal(
                    self.state.dungeon.current().floor_num as nat,
                ) + " |"@
                &&& v@[0].tone == Tone::Plain
                &&& is_room_nav(self.state.dungeon.current(), v@.subrange(1, v@.len() - 1))
                &&& v@.last().text@ == "| Gold "@ + decimal(self.state.gold as nat) + "g"@
                &&& v@.last().tone == Tone::Plain
            },
    {
        proof {
            reveal_strlit("Floor ");
            reveal_strlit(" | Weak: ");
            reveal_strlit(" | Gold: ");
            reveal_strlit("g");
            reveal_strlit(" |");
            reveal_strlit("| Gold ");
        }
        let floor = self.state.dungeon.current_floor();
        let floor_num = decimal_string(floor.floor_num);
        let gold = decimal_string(self.state.gold as usize);
        let mut v: Vec<Cell> = Vec::new();
        if self.boss_screen() {
            let mut t = String::from_str("Floor ");
            t.append(floor_num.as_str());
            t.append(" | Weak: ");
            t.append(floor.boss.weakness.display_name());
            t.append(" | Gold: ");
            t.append(gold.as_str());
            t.append("g");
            v.push(Cell { text: t, tone: Tone::Plain });
            return v;
        }
        let mut first = String::from_str("Floor ");
        first.append(floor_num.as_str());
        first.append(" |");
        v.push(Cell { text: first, tone: Tone::Plain });
        let mut nav = room_nav(floor);
        let ghost nav_view = nav@;
        v.append(&mut nav);
        let mut last = String::from_str("| Gold ");
        last.append(gold.as_str());
        last.append("g");
        v.push(Cell { text: last, tone: Tone::Plain });
        assert(v@.subrange(1, v@.len() - 1) =~= nav_view);
        v
    }

    /// The target line, left of the second row, if any.
    pub fn target_line(&self) -> (t: Option<String>)
        requires
            self.state.dungeon.wf(),
        ensures
            match t {
                Some(s) => target_text(*self.state) == Some(s@),
                None => target_text(*self.state) is None,
            },
    {
        proof {
            reveal_strlit("Target: ");
            reveal_strlit("Score ");
            reveal_strlit("/");
            reveal_strlit("Elite target: ");
        }
        let floor = self.state.dungeon.current_floor();
        if self.boss_screen() {
            let mut t = String::from_str("Target: ");
            let b = bar(
                &(floor.boss.target.required as usize),
                &(floor.boss.target.current as usize),
            );
            t.append(b.as_str());
            return Some(t);
        }
        match self.state.phase {
            GamePhase::Scored { score, target, .. } => {
                let mut t = String::from_str("Score ");
                let a = decimal_string(score);
                t.append(a.as_str());
                t.append("/");
                let b = decimal_string(target as usize);
                t.append(b.as_str());
                Some(t)
            },
            _ => match floor.current_room() {
                Some(Room::Challenge(x)) => {
                    let mut t = String::from_str("Target: ");
                    let b = bar(&(x.required as usize), &(x.current as usize));
                    t.append(b.as_str());
                    Some(t)
                },
                Some(Room::Elite(x)) => {
                    let mut t = String::from_str("Elite target: ");
                    let b = bar(&(x.required as usize), &(x.current as usize));
                    t.append(b.as_str());
                    Some(t)
                },
                _ => None,
            },
        }
    }

    /// The HP bar, right of the second row.
    pub fn hp_line(&self) -> (t: String)
        ensures
            t@ == bar_text(self.state.max_hp as usize, self.state.hp as usize),
    {
        bar(&(self.state.max_hp as usize), &(self.state.hp as usize))
    }
}

} // verus!
