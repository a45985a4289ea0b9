//! The dice of the pool as boxes, with the rolls left below them.
//!
//! Each die shows its type label above a box holding its value; a held die
//! has a double border, the selected die is highlighted. During a roll the
//! unheld dice show the animation's values instead.

use vstd::prelude::*;

use crate::dice::{label_text, DicePool, Die};
use crate::text::{decimal, decimal_string, pad_left, padded_left, push_repeated, repeat_char};
use super::Tone;
use super::upgrade::face_text;

verus! {

/// One die as drawn: its type label, its value right-aligned in two
/// columns, whether it is held, and its highlight.
pub struct DieBox {
    pub label: String,
    pub value: String,
    pub held: bool,
    pub tone: Tone,
}

/// The value shown for die `i`: the animation's value when there is one,
/// else the die's face ("W" for Wild).
pub open spec fn die_value_text(d: Die, anim: Option<Seq<Option<u8>>>, i: int) -> Seq<char> {
    match anim {
        Some(vals) => if 0 <= i < vals.len() && vals[i] is Some {
            decimal(vals[i]->0 as nat)
        } else {
            face_text(d.shown())
        },
        None => face_text(d.shown()),
    }
}

/// The highlight of die `i`: the upgrade cursor when picking a die, else
/// the selection.
pub open spec fn die_tone(d: Die, upgrade_cursor: Option<usize>, i: int) -> Tone {
    if upgrade_cursor == Some(i as usize) {
        Tone::Best
    } else if d.is_selected() {
        Tone::Cursor
    } else {
        Tone::Plain
    }
}

/// The rolls line: one "#" per roll spent and one "-" per roll left,
/// then the rolls left out of the maximum.
pub open spec fn rolls_text(remaining: u8, max: u8) -> Seq<char> {
    let used: nat = if max >= remaining {
        (max - remaining) as nat
    } else {
        0
    };
    "Rolls: ["@ + repeat_char('#', used) + repeat_char('-', remaining as nat) + "]   "@ + decimal(
        remaining as nat,
    ) + " / "@ + decimal(max as nat)
}

pub struct DiceView<'a> {
    pub pool: &'a DicePool,
    /// Per-die animated value; `None` shows the die's own value.
    pub animated_values: Option<&'a [Option<u8>]>,
    /// The die under the cursor while a die is picked for an upgrade.
    pub upgrade_cursor: Option<usize>,
}

impl<'a> DiceView<'a> {
    pub fn new(pool: &'a DicePool) -> (v: Self)
        ensures
            *v.pool == *pool,
            v.animated_values is None,
            v.upgrade_cursor is None,
    {
        DiceView { pool, animated_values: None, upgrade_cursor: None }
    }

    pub fn animated(pool: &'a DicePool, values: &'a [Option<u8>]) -> (v: Self)
        ensures
            *v.pool == *pool,
            v.animated_values == Some(values),
            v.upgrade_cursor is None,
    {
        DiceView { pool, animated_values: Some(values), upgrade_cursor: None }
    }

    /// The dice while one is picked for an upgrade, `cursor` on it.
    pub fn with_upgrade_cursor(pool: &'a DicePool, cursor: usize) -> (v: Self)
        ensures
            *v.pool == *pool,
            v.animated_values is None,
            v.upgrade_cursor == Some(cursor),
    {
        DiceView { pool, animated_values: None, upgrade_cursor: Some(cursor) }
    }

    /// The animated values, as a sequence.
    pub open spec fn anim(self) -> Option<Seq<Option<u8>>> {
        match self.animated_values {
            Some(v) => Some(v@),
            None => None,
        }
    }

    /// One box per die, in pool order.
    pub fn boxes(&self) -> (v: Vec<DieBox>)
        ensures
            v@.len() == self.pool.dice@.len(),
            forall|i: int|
                0 <= i < v@.len() ==> {
                    let d = self.pool.dice@[i];
                    &&& (#[trigger] v@[i]).label@ == label_text(d.kind())
                    &&& v@[i].value@ == pad_left(die_value_text(d, self.anim(), i), 2)
                    &&& v@[i].held == d.is_held()
                    &&& v@[i].tone == die_tone(d, self.upgrade_cursor, i)
                },
    {
        let mut v: Vec<DieBox> = Vec::new();
        let mut i: usize = 0;
        while i < self.pool.dice.len()
            invariant
                i <= self.pool.dice@.len(),
                v@.len() == i,
                forall|k: int|
                    0 <= k < i ==> {
                        let d = self.pool.dice@[k];
                        &&& (#[trigger] v@[k]).label@ == label_text(d.kind())
                        &&& v@[k].value@ == pad_left(die_value_text(d, self.anim(), k), 2)
                        &&& v@[k].held == d.is_held()
                        &&& v@[k].tone == die_tone(d, self.upgrade_cursor, k)
                    },
            decreases self.pool.dice@.len() - i,
        {
            let d = &self.pool.dice[i];
            let shown: Option<u8> = match self.animated_values {
                Some(vals) => if i < vals.len() {
                    vals[i]
                } else {
                    None
                },
                None => None,
            };
            let raw = match shown {
                Some(x) => decimal_string(x as usize),
                None => d.display_value(),
            };
            let value = padded_left(raw.as_str(), 2);
            let tone = if self.upgrade_cursor == Some(i) {
                Tone::Best
            } else if d.selected_flag() {
                Tone::Cursor
            } else {
                Tone::Plain
            };
            v.push(
                DieBox { label: String::from_str(d.label()), value, held: d.held_flag(), tone },
            );
            i = i + 1;
        }
        v
    }

    /// The line under the dice: the rolls spent and left.
    pub fn rolls_line(&self) -> (s: String)
        ensures
            s@ == rolls_text(self.pool.rolls_remaining, self.pool.max_rolls),
    {
        let remaining = self.pool.rolls_remaining;
        let max = self.pool.max_rolls;
        let used: u8 = if max >= remaining {
            max - remaining
        } else {
            0
        };
        proof {
            reveal_strlit("Rolls: [");
            reveal_strlit("#");
            reveal_strlit("-");
            reveal_strlit("]   ");
            reveal_strlit(" / ");
        }
        let mut s = String::from_str("Rolls: [");
        push_repeated(&mut s, "#", used as usize);
        push_repeated(&mut s, "-", remaining as usize);
        s.append("]   ");
        let r = decimal_string(remaining as usize);
        s.append(r.as_str());
        s.append(" / ");
        let m = decimal_string(max as usize);
        s.append(m.as_str());
        s
    }
}

} // verus!
