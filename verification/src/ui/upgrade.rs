//! The two-step upgrade screens: pick a die (or the die a bought special
//! die replaces), then pick the face to upgrade.

use vstd::prelude::*;

use crate::dungeon::advanced;
use crate::dice::{label_text, Die, DieFace, DieUpgrade, WILD};
use crate::game::{
    began_room,
    keeps_run,
    replaced_die,
    upgraded,
    wrapped,
    GamePhase,
    GameState,
    UpgradeKind,
};
use crate::shop::ShopItem;
use crate::text::{decimal, decimal_string, pad_left, padded_left};
use super::{
    advanced_to_next,
    keeps_floor_rest,
    next_after_advance,
    is_letter,
    is_quit,
    key_is_letter,
    quits,
    same_screens,
    App,
    Cell,
    Key,
    Tone,
};

verus! {

// ─── Prompts ──────────────────────────────────────────────────────────────────

/// The prompt beside the dice while a die is picked for an upgrade.
pub open spec fn prompt_text(kind: UpgradeKind) -> Seq<char> {
    match kind {
        UpgradeKind::Augment => "Pick a die to\nAugment\n(+1 value)"@,
        UpgradeKind::Enchant => "Pick a die to\nEnchant\n(+5 score)"@,
    }
}

/// The right-panel text shown while a die is picked.
pub struct UpgradeDiePrompt {
    pub kind: UpgradeKind,
}

impl UpgradeDiePrompt {
    pub fn new(kind: UpgradeKind) -> (p: Self)
        ensures
            p.kind == kind,
    {
        UpgradeDiePrompt { kind }
    }

    pub fn text(&self) -> (s: &'static str)
        ensures
            s@ == prompt_text(self.kind),
    {
        match self.kind {
            UpgradeKind::Augment => {
                proof {
                    reveal_strlit("Pick a die to\nAugment\n(+1 value)");
                }
                "Pick a die to\nAugment\n(+1 value)"
            },
            UpgradeKind::Enchant => {
                proof {
                    reveal_strlit("Pick a die to\nEnchant\n(+5 score)");
                }
                "Pick a die to\nEnchant\n(+5 score)"
            },
        }
    }
}

/// The key hints while a die is picked: a bought special die cannot be
/// taken back.
pub fn select_die_hint(has_pending: bool) -> (s: &'static str)
    ensures
        s@ == if has_pending {
            "[Left/Right] Select  [Enter] Replace  [Q] Quit"@
        } else {
            "[Left/Right] Select  [Enter] Confirm  [Esc] Back  [Q] Quit"@
        },
{
    proof {
        reveal_strlit("[Left/Right] Select  [Enter] Replace  [Q] Quit");
        reveal_strlit("[Left/Right] Select  [Enter] Confirm  [Esc] Back  [Q] Quit");
    }
    if has_pending {
        "[Left/Right] Select  [Enter] Replace  [Q] Quit"
    } else {
        "[Left/Right] Select  [Enter] Confirm  [Esc] Back  [Q] Quit"
    }
}

/// The panel beside the dice while a bought special die is placed.
pub fn replacing_text(die: &Die) -> (s: String)
    ensures
        s@ == "Replacing with\n"@ + label_text(die.kind()),
{
    proof {
        reveal_strlit("Replacing with\n");
    }
    let mut s = String::from_str("Replacing with\n");
    s.append(die.label());
    s
}

/// How an upgrade is named on the face screen.
pub open spec fn kind_label(kind: UpgradeKind) -> Seq<char> {
    match kind {
        UpgradeKind::Augment => "Augment (+1 value)"@,
        UpgradeKind::Enchant => "Enchant (+5 score)"@,
    }
}

fn kind_label_str(kind: UpgradeKind) -> (s: &'static str)
    ensures
        s@ == kind_label(kind),
{
    match kind {
        UpgradeKind::Augment => {
            proof {
                reveal_strlit("Augment (+1 value)");
            }
            "Augment (+1 value)"
        },
        UpgradeKind::Enchant => {
            proof {
                reveal_strlit("Enchant (+5 score)");
            }
            "Enchant (+5 score)"
        },
    }
}

/// How a face is shown: "W" for a Wild face, else its value.
pub open spec fn face_text(f: DieFace) -> Seq<char> {
    if f.val() == WILD {
        "W"@
    } else {
        decimal(f.val() as nat)
    }
}

/// All faces of one die as small boxes, the face under the cursor
/// highlighted.
pub struct FaceSelectView<'a> {
    pub die: &'a Die,
    pub die_index: usize,
    pub face_cursor: usize,
    pub kind: UpgradeKind,
}

impl<'a> FaceSelectView<'a> {
    pub fn new(die: &'a Die, die_index: usize, face_cursor: usize, kind: UpgradeKind) -> (v: Self)
        ensures
            *v.die == *die,
            v.die_index == die_index,
            v.face_cursor == face_cursor,
            v.kind == kind,
    {
        FaceSelectView { die, die_index, face_cursor, kind }
    }

    /// "Die N (label) -- kind:", N counted from 1.
    pub fn title(&self) -> (s: String)
        requires
            self.die_index < usize::MAX,
        ensures
            s@ == "Die "@ + decimal((self.die_index + 1) as nat) + " ("@ + label_text(
                self.die.kind(),
            ) + ") -- "@ + kind_label(self.kind) + ":"@,
    {
        let mut s = String::from_str("Die ");
        let n = decimal_string(self.die_index + 1);
        s.append(n.as_str());
        s.append(" (");
        s.append(self.die.label());
        s.append(") -- ");
        s.append(kind_label_str(self.kind));
        s.append(":");
        proof {
            reveal_strlit("Die ");
            reveal_strlit(" (");
            reveal_strlit(") -- ");
            reveal_strlit(":");
        }
        s
    }

    /// One cell per face, in order: the face right-aligned in two columns,
    /// the face under the cursor highlighted.
    pub fn cells(&self) -> (v: Vec<Cell>)
        ensures
            v@.len() == self.die.faces_view().len(),
            forall|i: int|
                0 <= i < v@.len() ==> {
                    &&& (#[trigger] v@[i]).text@ == pad_left(
                        face_text(self.die.faces_view()[i]),
                        2,
                    )
                    &&& v@[i].tone == (if i == self.face_cursor {
                        Tone::Cursor
                    } else {
                        Tone::Plain
                    })
                },
    {
        let faces = self.die.faces();
        let mut v: Vec<Cell> = Vec::new();
        let mut i: usize = 0;
        while i < faces.len()
            invariant
                i <= faces@.len(),
                faces@ == self.die.faces_view(),
                v@.len() == i,
                forall|k: int|
                    0 <= k < i ==> {
                        &&& (#[trigger] v@[k]).text@ == pad_left(
                            face_text(self.die.faces_view()[k]),
                            2,
                        )
                        &&& v@[k].tone == (if k == self.face_cursor {
                            Tone::Cursor
                        } else {
                            Tone::Plain
                        })
                    },
            decreases faces@.len() - i,
        {
            let value = faces[i].get_value();
            let raw = if value == WILD {
                proof {
                    reveal_strlit("W");
                }
                String::from_str("W")
            } else {
                decimal_string(value as usize)
            };
            let text = padded_left(raw.as_str(), 2);
            let tone = if i == self.face_cursor {
                Tone::Cursor
            } else {
                Tone::Plain
            };
            v.push(Cell { text, tone });
            i = i + 1;
        }
        v
    }
}

// ─── Handlers ─────────────────────────────────────────────────────────────────

/// The shop that was put aside, restored with its cursor (an empty shop
/// when none was).
pub open spec fn shop_restored(stash: Option<(Vec<ShopItem>, usize)>, phase: GamePhase) -> bool {
    match stash {
        Some((v, c)) => phase matches GamePhase::Shop { items, cursor } && items@ == v@ && cursor
            == c,
        None => phase matches GamePhase::Shop { items, cursor } && items@.len() == 0 && cursor
            == 0,
    }
}

/// What a key does while a die is picked. Q quits; Left and Right move the
/// die cursor, wrapping; Enter or S either puts a bought special die in
/// place of the die under the cursor and goes back to the shop, or moves
/// on to the faces of that die; Esc goes back to the rest site, for a
/// rest-site upgrade only.
pub open spec fn select_die_step(b: App, a: App, key: Key, cont: bool) -> bool {
    match b.state.phase {
        GamePhase::UpgradeSelectDie { die_cursor, kind, from_shop, pending_die } => if quits(
            key,
        ) {
            !cont && a == b
        } else if key == Key::Left || key == Key::Right {
            &&& cont
            &&& keeps_run(b.state, a.state)
            &&& a.state.phase == (GamePhase::UpgradeSelectDie {
                die_cursor: wrapped(
                    die_cursor as int,
                    b.state.dice_pool.dice@.len() as int,
                    key == Key::Right,
                ) as usize,
                kind,
                from_shop,
                pending_die,
            })
            &&& same_screens(b, a)
        } else if key == Key::Enter || is_letter(key, 's', 'S') {
            &&& cont
            &&& match pending_die {
                Some(d) => {
                    &&& exists|m: GameState|
                        #[trigger] replaced_die(b.state, m, die_cursor, d) && a.state == (
                        GameState { phase: a.state.phase, ..m })
                    &&& shop_restored(b.stashed_shop, a.state.phase)
                    &&& a.stashed_shop is None
                    &&& a.unlock_options == b.unlock_options
                    &&& a.roll_animation == b.roll_animation
                },
                None => {
                    &&& keeps_run(b.state, a.state)
                    &&& a.state.phase == (GamePhase::UpgradeSelectFace {
                        die_index: die_cursor,
                        face_cursor: 0,
                        kind,
                        from_shop,
                    })
                    &&& same_screens(b, a)
                },
            }
        } else if key == Key::Esc && !from_shop && pending_die is None {
            &&& cont
            &&& keeps_run(b.state, a.state)
            &&& a.state.phase == (GamePhase::Rest { cursor: 0 })
            &&& same_screens(b, a)
        } else {
            cont && a == b
        },
        _ => cont && a == b,
    }
}

/// The upgrade an upgrade kind applies to face `face`: +1 for Augment, a
/// bonus of 5 for Enchant.
pub open spec fn upgrade_for(kind: UpgradeKind, face: usize) -> DieUpgrade {
    match kind {
        UpgradeKind::Augment => DieUpgrade::Augment { face_index: face },
        UpgradeKind::Enchant => DieUpgrade::Enchant { face_index: face, bonus_score: 5 },
    }
}

/// What a key does while a face is picked. Q quits; Left and Right move
/// the face cursor, wrapping; Enter or S applies the upgrade to the face
/// under the cursor, then goes back to the shop it was bought in or steps
/// the floor on from the rest site; Esc goes back to picking the die.
pub open spec fn select_face_step(b: App, a: App, key: Key, cont: bool) -> bool {
    match b.state.phase {
        GamePhase::UpgradeSelectFace { die_index, face_cursor, kind, from_shop } => if quits(
            key,
        ) {
            !cont && a == b
        } else if key == Key::Left || key == Key::Right {
            &&& cont
            &&& keeps_run(b.state, a.state)
            &&& a.state.phase == (GamePhase::UpgradeSelectFace {
                die_index,
                face_cursor: wrapped(
                    face_cursor as int,
                    b.state.dice_pool.dice@[die_index as int].faces_view().len() as int,
                    key == Key::Right,
                ) as usize,
                kind,
                from_shop,
            })
            &&& same_screens(b, a)
        } else if key == Key::Enter || is_letter(key, 's', 'S') {
            &&& cont
            &&& exists|m: GameState, applied: bool|
                #[trigger] upgraded(b.state, m, die_index, upgrade_for(kind, face_cursor), applied)
                    && if from_shop {
                    &&& a.state == (GameState { phase: a.state.phase, ..m })
                    &&& shop_restored(b.stashed_shop, a.state.phase)
                    &&& a.stashed_shop is None
                    &&& a.unlock_options == b.unlock_options
                    &&& a.roll_animation == b.roll_animation
                } else {
                    advanced_to_next(m, a.state) && same_screens(b, a)
                }
        } else if key == Key::Esc {
            &&& cont
            &&& keeps_run(b.state, a.state)
            &&& a.state.phase == (GamePhase::UpgradeSelectDie {
                die_cursor: die_index,
                kind,
                from_shop,
                pending_die: None,
            })
            &&& same_screens(b, a)
        } else {
            cont && a == b
        },
        _ => cont && a == b,
    }
}

/// Whatever screen follows an upgrade applied on the face screen, the dice
/// there have the faces the upgrade left: going back to the shop keeps the
/// pool, stepping the floor on at most releases held dice.
proof fn lemma_applied_upgrade_reaches_next_screen(
    b: App,
    a: App,
    cont: bool,
    die_index: usize,
    face_cursor: usize,
    kind: UpgradeKind,
    from_shop: bool,
)
    requires
        b.state.phase == (GamePhase::UpgradeSelectFace { die_index, face_cursor, kind, from_shop }),
        die_index < b.state.dice_pool.dice@.len(),
        face_cursor < b.state.dice_pool.dice@[die_index as int].faces_view().len(),
        select_face_step(b, a, Key::Enter, cont),
    ensures
        cont,
        a.state.dice_pool.dice@.len() == b.state.dice_pool.dice@.len(),
        b.state.dice_pool.dice@[die_index as int].upgrade_effect(
            a.state.dice_pool.dice@[die_index as int],
            upgrade_for(kind, face_cursor),
        ),
{
    let (m, applied) = choose|m: GameState, applied: bool|
        #[trigger] upgraded(b.state, m, die_index, upgrade_for(kind, face_cursor), applied)
            && if from_shop {
            &&& a.state == (GameState { phase: a.state.phase, ..m })
            &&& shop_restored(b.stashed_shop, a.state.phase)
            &&& a.stashed_shop is None
            &&& a.unlock_options == b.unlock_options
            &&& a.roll_animation == b.roll_animation
        } else {
            advanced_to_next(m, a.state) && same_screens(b, a)
        };
    assert(applied);
    let d = b.state.dice_pool.dice@[die_index as int];
    let md = m.dice_pool.dice@[die_index as int];
    assert(d.upgrade_effect(md, upgrade_for(kind, face_cursor)));
    if from_shop {
        assert(a.state.dice_pool == m.dice_pool);
    } else {
        let m2 = choose|m2: GameState|
            {
                &&& #[trigger] m2.dungeon.current_becomes(m.dungeon, advanced(m.dungeon.current()))
                &&& keeps_floor_rest(m, m2)
                &&& next_after_advance(m2, a.state)
            };
        if m2.dungeon.current().step == m2.dungeon.current().room_choices@.len() {
            let m3 = choose|m3: GameState|
                #[trigger] began_room(m2, m3) && a.state == (GameState {
                    phase: GamePhase::Boss,
                    ..m3
                });
            assert(a.state.dice_pool.dice@[die_index as int] == md.with_held(false));
            crate::dice::lemma_die_updates(md, false);
        } else {
            assert(a.state.dice_pool == m.dice_pool);
        }
    }
    let ad = a.state.dice_pool.dice@[die_index as int];
    assert(ad.faces_view() == md.faces_view());
}

/// An Enchant picked on the face screen gives the chosen face a bonus of
/// exactly 5, keeping its value and every other face of the die: showing
/// that face adds 5 to a room's score. This holds whether the upgrade came
/// from the rest site or from the shop.
pub proof fn law_enchant_gives_face_bonus_five(
    b: App,
    a: App,
    cont: bool,
    die_index: usize,
    face_cursor: usize,
    from_shop: bool,
)
    requires
        b.state.phase == (GamePhase::UpgradeSelectFace {
            die_index,
            face_cursor,
            kind: UpgradeKind::Enchant,
            from_shop,
        }),
        die_index < b.state.dice_pool.dice@.len(),
        face_cursor < b.state.dice_pool.dice@[die_index as int].faces_view().len(),
        select_face_step(b, a, Key::Enter, cont),
    ensures
        ({
            let before = b.state.dice_pool.dice@[die_index as int].faces_view();
            let after = a.state.dice_pool.dice@[die_index as int].faces_view();
            &&& after.len() == before.len()
            &&& after[face_cursor as int].bonus() == Some(5usize)
            &&& after[face_cursor as int].val() == before[face_cursor as int].val()
            &&& forall|j: int|
                0 <= j < before.len() && j != face_cursor ==> #[trigger] after[j] == before[j]
        }),
{
    lemma_applied_upgrade_reaches_next_screen(
        b,
        a,
        cont,
        die_index,
        face_cursor,
        UpgradeKind::Enchant,
        from_shop,
    );
}

/// An Augment picked on the face screen adds exactly 1 to the chosen face's
/// value, keeping its bonus and every other face of the die.
pub proof fn law_augment_adds_one(
    b: App,
    a: App,
    cont: bool,
    die_index: usize,
    face_cursor: usize,
    from_shop: bool,
)
    requires
        b.state.phase == (GamePhase::UpgradeSelectFace {
            die_index,
            face_cursor,
            kind: UpgradeKind::Augment,
            from_shop,
        }),
        die_index < b.state.dice_pool.dice@.len(),
        face_cursor < b.state.dice_pool.dice@[die_index as int].faces_view().len(),
        select_face_step(b, a, Key::Enter, cont),
    ensures
        ({
            let before = b.state.dice_pool.dice@[die_index as int].faces_view();
            let after = a.state.dice_pool.dice@[die_index as int].faces_view();
            &&& after.len() == before.len()
            &&& after[face_cursor as int].val() == before[face_cursor as int].val() + 1
            &&& after[face_cursor as int].bonus() == before[face_cursor as int].bonus()
            &&& forall|j: int|
                0 <= j < before.len() && j != face_cursor ==> #[trigger] after[j] == before[j]
        }),
{
    lemma_applied_upgrade_reaches_next_screen(
        b,
        a,
        cont,
        die_index,
        face_cursor,
        UpgradeKind::Augment,
        from_shop,
    );
}

impl App {
    /// Handle a key while a die is picked; returns false to quit.
    pub fn handle_select_die(&mut self, key: Key) -> (cont: bool)
        requires
            old(self).wf(),
            old(self).limits_hold(),
            old(self).state.phase is UpgradeSelectDie,
        ensures
            select_die_step(*old(self), *final(self), key, cont),
            final(self).wf(),
    {
        if is_quit(key) {
            return false;
        }
        let len = self.state.dice_pool.dice.len();
        let (die_cursor, kind, from_shop, has_pending) = match &self.state.phase {
            GamePhase::UpgradeSelectDie { die_cursor, kind, from_shop, pending_die } => (
                *die_cursor,
                *kind,
                *from_shop,
                pending_die.is_some(),
            ),
            _ => {
                return true;
            },
        };
        match key {
            Key::Left => {
                self.state.phase.cycle_die_cursor(false, len);
            },
            Key::Right => {
                self.state.phase.cycle_die_cursor(true, len);
            },
            Key::Esc => {
                if !from_shop && !has_pending {
                    self.state.phase = GamePhase::Rest { cursor: 0 };
                }
            },
            _ => {
                if key == Key::Enter || key_is_letter(key, 's', 'S') {
                    let mut phase = GamePhase::GameOver;
                    std::mem::swap(&mut phase, &mut self.state.phase);
                    let pending = match phase {
                        GamePhase::UpgradeSelectDie { pending_die, .. } => pending_die,
                        _ => None,
                    };
                    match pending {
                        Some(die) => {
                            self.state.replace_die_at(die_cursor, die);
                            let ghost m = GameState { phase: old(self).state.phase, ..self.state };
                            assert(replaced_die(old(self).state, m, die_cursor, die));
                            self.restore_shop();
                        },
                        None => {
                            self.state.phase = GamePhase::UpgradeSelectFace {
                                die_index: die_cursor,
                                face_cursor: 0,
                                kind,
                                from_shop,
                            };
                        },
                    }
                }
            },
        }
        true
    }

    /// Go back to the shop that was put aside (an empty one when none was).
    fn restore_shop(&mut self)
        ensures
            final(self).state == (GameState { phase: final(self).state.phase, ..old(self).state }),
            shop_restored(old(self).stashed_shop, final(self).state.phase),
            final(self).stashed_shop is None,
            final(self).unlock_options == old(self).unlock_options,
            final(self).roll_animation == old(self).roll_animation,
    {
        let (items, cursor) = match self.stashed_shop.take() {
            Some(stash) => stash,
            None => (Vec::new(), 0),
        };
        self.state.phase = GamePhase::Shop { items, cursor };
    }

    /// Handle a key while a face is picked; returns false to quit.
    pub fn handle_select_face(&mut self, key: Key) -> (cont: bool)
        requires
            old(self).wf(),
            old(self).limits_hold(),
            old(self).state.phase is UpgradeSelectFace,
        ensures
            select_face_step(*old(self), *final(self), key, cont),
            final(self).wf(),
    {
        if is_quit(key) {
            return false;
        }
        let (die_index, face_cursor, kind, from_shop) = match self.state.phase {
            GamePhase::UpgradeSelectFace { die_index, face_cursor, kind, from_shop } => (
                die_index,
                face_cursor,
                kind,
                from_shop,
            ),
            _ => {
                return true;
            },
        };
        let faces_len = self.state.dice_pool.dice[die_index].faces().len();
        assert(self.state.dice_pool.dice@[die_index as int].wf());
        match key {
            Key::Left => {
                self.state.phase.cycle_face_cursor(false, faces_len);
            },
            Key::Right => {
                self.state.phase.cycle_face_cursor(true, faces_len);
            },
            Key::Esc => {
                self.state.phase = GamePhase::UpgradeSelectDie {
                    die_cursor: die_index,
                    kind,
                    from_shop,
                    pending_die: None,
                };
            },
            _ => {
                if key == Key::Enter || key_is_letter(key, 's', 'S') {
                    let upgrade = match kind {
                        UpgradeKind::Augment => DieUpgrade::Augment { face_index: face_cursor },
                        UpgradeKind::Enchant => DieUpgrade::Enchant {
                            face_index: face_cursor,
                            bonus_score: 5,
                        },
                    };
                    let applied = self.state.upgrade_die(die_index, upgrade);
                    let ghost m = self.state;
                    assert(upgraded(
                        old(self).state,
                        m,
                        die_index,
                        upgrade_for(kind, face_cursor),
                        applied,
                    ));
                    if from_shop {
                        self.restore_shop();
                    } else {
                        self.advance_floor();
                    }
                }
            },
        }
        true
    }
}

} // verus!
