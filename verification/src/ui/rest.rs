//! The rest site: heal, or upgrade a face of a die.

use vstd::prelude::*;

use crate::dungeon::advanced;
use crate::game::{began_room, keeps_run, was_healed, GamePhase, GameState, UpgradeKind};
use super::{
    advanced_to_next,
    keeps_floor_rest,
    next_after_advance,
    same_screens,
    App,
    ItemBox,
    Key,
    Tone,
};
use super::shop::{rest_shop_step, step_cursor};

verus! {

/// HP restored by resting.
pub const REST_HEAL: u32 = 15;

/// The name and description of rest option `i`.
pub open spec fn rest_option(i: int) -> (Seq<char>, Seq<char>) {
    if i == 0 {
        ("Heal"@, "Restore 15 HP"@)
    } else if i == 1 {
        ("Augment"@, "Upgrade a face (+1 value)"@)
    } else {
        ("Enchant"@, "Upgrade a face (+5 score)"@)
    }
}

/// The list of rest options with the cursor on one of them.
pub struct RestView {
    pub cursor: usize,
}

impl RestView {
    pub fn new(cursor: usize) -> (v: Self)
        ensures
            v.cursor == cursor,
    {
        RestView { cursor }
    }

    /// One box per option: its name and description, indented, the one
    /// under the cursor highlighted.
    pub fn boxes(&self) -> (v: Vec<ItemBox>)
        ensures
            v@.len() == 3,
            forall|i: int|
                0 <= i < 3 ==> {
                    &&& (#[trigger] v@[i]).top@ == "  "@ + rest_option(i).0
                    &&& v@[i].bottom@ == "  "@ + rest_option(i).1
                    &&& v@[i].tone == (if i == self.cursor {
                        Tone::Cursor
                    } else {
                        Tone::Plain
                    })
                },
    {
        proof {
            reveal_strlit("  ");
            reveal_strlit("  Heal");
            reveal_strlit("Heal");
            reveal_strlit("  Restore 15 HP");
            reveal_strlit("Restore 15 HP");
            reveal_strlit("  Augment");
            reveal_strlit("Augment");
            reveal_strlit("  Upgrade a face (+1 value)");
            reveal_strlit("Upgrade a face (+1 value)");
            reveal_strlit("  Enchant");
            reveal_strlit("Enchant");
            reveal_strlit("  Upgrade a face (+5 score)");
            reveal_strlit("Upgrade a face (+5 score)");
        }
        let mut v: Vec<ItemBox> = Vec::new();
        v.push(ItemBox {
            top: String::from_str("  Heal"),
            bottom: String::from_str("  Restore 15 HP"),
            tone: if self.cursor == 0 {
                Tone::Cursor
            } else {
                Tone::Plain
            },
        });
        v.push(ItemBox {
            top: String::from_str("  Augment"),
            bottom: String::from_str("  Upgrade a face (+1 value)"),
            tone: if self.cursor == 1 {
                Tone::Cursor
            } else {
                Tone::Plain
            },
        });
        v.push(ItemBox {
            top: String::from_str("  Enchant"),
            bottom: String::from_str("  Upgrade a face (+5 score)"),
            tone: if self.cursor == 2 {
                Tone::Cursor
            } else {
                Tone::Plain
            },
        });
        assert("  "@ + "Heal"@ =~= "  Heal"@);
        assert("  "@ + "Restore 15 HP"@ =~= "  Restore 15 HP"@);
        assert("  "@ + "Augment"@ =~= "  Augment"@);
        assert("  "@ + "Upgrade a face (+1 value)"@ =~= "  Upgrade a face (+1 value)"@);
        assert("  "@ + "Enchant"@ =~= "  Enchant"@);
        assert("  "@ + "Upgrade a face (+5 score)"@ =~= "  Upgrade a face (+5 score)"@);
        v
    }
}

/// What Enter does at the rest site with the cursor at `cursor`: the
/// first option heals and steps the floor on; the second and third open
/// the die screen for an Augment or an Enchant.
pub open spec fn rest_choice_step(b: App, a: App, cursor: usize) -> bool {
    if cursor == 0 {
        &&& exists|m: GameState|
            #[trigger] was_healed(b.state, m, REST_HEAL) && advanced_to_next(m, a.state)
        &&& same_screens(b, a)
    } else {
        &&& keeps_run(b.state, a.state)
        &&& a.state.phase == (GamePhase::UpgradeSelectDie {
            die_cursor: 0,
            kind: if cursor == 1 {
                UpgradeKind::Augment
            } else {
                UpgradeKind::Enchant
            },
            from_shop: false,
            pending_die: None,
        })
        &&& same_screens(b, a)
    }
}

/// Stepping the floor on, and beginning the boss room when it comes,
/// leaves the HP and the maximum HP as they were.
proof fn lemma_advance_keeps_hp(b: GameState, a: GameState)
    requires
        advanced_to_next(b, a),
    ensures
        a.hp == b.hp,
        a.max_hp == b.max_hp,
{
    let m = choose|m: GameState|
        {
            &&& #[trigger] m.dungeon.current_becomes(b.dungeon, advanced(b.dungeon.current()))
            &&& keeps_floor_rest(b, m)
            &&& next_after_advance(m, a)
        };
    if m.dungeon.current().step == m.dungeon.current().room_choices@.len() {
        let m2 = choose|m2: GameState|
            #[trigger] began_room(m, m2) && a == (GameState { phase: GamePhase::Boss, ..m2 });
    }
}

/// Healing at the rest site restores 15 HP, never past the maximum: the HP
/// after it is the HP before plus `min(15, max_hp - hp)`.
pub proof fn law_rest_heals_fifteen(b: App, a: App)
    requires
        b.state.hp <= b.state.max_hp,
        rest_choice_step(b, a, 0),
    ensures
        a.state.max_hp == b.state.max_hp,
        a.state.hp == b.state.hp + if b.state.max_hp - b.state.hp < 15 {
            b.state.max_hp - b.state.hp
        } else {
            15
        },
{
    let m = choose|m: GameState|
        #[trigger] was_healed(b.state, m, REST_HEAL) && advanced_to_next(m, a.state);
    lemma_advance_keeps_hp(m, a.state);
}

/// What a key does at the rest site (three options).
pub open spec fn rest_step(b: App, a: App, key: Key, cont: bool) -> bool {
    match b.state.phase {
        GamePhase::Rest { cursor } => rest_shop_step(
            b,
            a,
            key,
            cont,
            cursor,
            3,
            rest_choice_step(b, a, cursor),
        ),
        _ => cont && a == b,
    }
}

impl App {
    /// Handle a key at the rest site; returns false to quit.
    pub fn handle_rest(&mut self, key: Key) -> (cont: bool)
        requires
            old(self).wf(),
            old(self).limits_hold(),
            old(self).state.phase is Rest,
        ensures
            rest_step(*old(self), *final(self), key, cont),
            final(self).wf(),
    {
        let cursor = match self.state.phase {
            GamePhase::Rest { cursor } => cursor,
            _ => 0,
        };
        if super::is_quit(key) {
            return false;
        }
        match key {
            Key::Up => {
                self.state.phase.set_cursor(step_cursor(cursor, 3, false));
            },
            Key::Down => {
                self.state.phase.set_cursor(step_cursor(cursor, 3, true));
            },
            Key::Esc => {
                self.advance_floor();
            },
            Key::Enter => {
                self.choose_rest(cursor);
            },
            _ => {
                if super::key_is_letter(key, 'l', 'L') {
                    self.advance_floor();
                }
            },
        }
        true
    }

    /// Carry out rest option `cursor`.
    fn choose_rest(&mut self, cursor: usize)
        requires
            old(self).wf(),
            old(self).limits_hold(),
            old(self).state.phase is Rest,
        ensures
            rest_choice_step(*old(self), *final(self), cursor),
            final(self).wf(),
    {
        if cursor == 0 {
            self.state.heal(REST_HEAL);
            let ghost m = self.state;
            self.advance_floor();
            assert(was_healed(old(self).state, m, REST_HEAL));
        } else if cursor == 1 {
            self.state.phase = GamePhase::UpgradeSelectDie {
                die_cursor: 0,
                kind: UpgradeKind::Augment,
                from_shop: false,
                pending_die: None,
            };
        } else {
            self.state.phase = GamePhase::UpgradeSelectDie {
                die_cursor: 0,
                kind: UpgradeKind::Enchant,
                from_shop: false,
                pending_die: None,
            };
        }
    }
}

} // verus!
