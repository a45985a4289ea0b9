//! The shop screen: buy items with gold, then leave for the next room.
//! The rest site shares its keys (see `rest_shop_step`).

use vstd::prelude::*;

use crate::game::{bought, cursor_set, keeps_run, spent, GamePhase, GameState, UpgradeKind};
use crate::shop::{special_die_made, ShopItem, ShopItemKind};
use super::{advanced_to_next, is_letter, is_quit, key_is_letter, quits, same_screens, App, Key};

verus! {

/// The cursor one entry up, wrapping over `len` entries.
pub open spec fn cursor_up(cursor: usize, len: usize) -> usize {
    ((cursor + len - 1) % (len as int)) as usize
}

/// The cursor one entry down, wrapping over `len` entries.
pub open spec fn cursor_down(cursor: usize, len: usize) -> usize {
    ((cursor + 1) % (len as int)) as usize
}

/// Move a cursor over `len` entries one step down (`forward`) or up,
/// wrapping around.
pub fn step_cursor(cursor: usize, len: usize, forward: bool) -> (c: usize)
    requires
        len > 0,
    ensures
        c == if forward {
            cursor_down(cursor, len)
        } else {
            cursor_up(cursor, len)
        },
        c < len,
{
    let r = cursor % len;
    proof {
        let q = cursor / len;
        assert(cursor == q * len + r) by (nonlinear_arith)
            requires
                len > 0,
                q == cursor / len,
                r == cursor % len,
        ;
        if forward {
            if r + 1 == len {
                assert((q + 1) * len == q * len + len) by (nonlinear_arith);
                assert((cursor + 1) % (len as int) == 0) by (nonlinear_arith)
                    requires
                        cursor + 1 == (q + 1) * len,
                        len > 0,
                ;
            } else {
                assert((cursor + 1) % (len as int) == r + 1) by (nonlinear_arith)
                    requires
                        cursor + 1 == q * len + (r + 1),
                        0 <= r + 1 < len,
                ;
            }
        } else {
            if r == 0 {
                assert((cursor + len - 1) % (len as int) == len - 1) by (nonlinear_arith)
                    requires
                        cursor + len - 1 == q * len + (len - 1),
                        0 <= len - 1 < len,
                ;
            } else {
                assert((q + 1) * len == q * len + len) by (nonlinear_arith);
                assert((cursor + len - 1) % (len as int) == r - 1) by (nonlinear_arith)
                    requires
                        cursor + len - 1 == (q + 1) * len + (r - 1),
                        0 <= r - 1 < len,
                ;
            }
        }
    }
    if forward {
        if r + 1 == len {
            0
        } else {
            r + 1
        }
    } else {
        if r == 0 {
            len - 1
        } else {
            r - 1
        }
    }
}

/// A step down and a step up (in either order) bring a cursor inside the
/// list back where it was.
pub proof fn law_cursor_round_trip(cursor: usize, len: usize)
    requires
        cursor < len,
    ensures
        cursor_up(cursor_down(cursor, len), len) == cursor,
        cursor_down(cursor_up(cursor, len), len) == cursor,
{
    let d = cursor_down(cursor, len);
    let u = cursor_up(cursor, len);
    if cursor + 1 < len {
        assert((cursor + 1) % (len as int) == cursor + 1) by (nonlinear_arith)
            requires
                0 <= cursor + 1 < len,
        ;
    } else {
        assert((cursor + 1) % (len as int) == 0) by (nonlinear_arith)
            requires
                cursor + 1 == len,
                len > 0,
        ;
    }
    assert(d < len);
    if d == 0 {
        assert((d + len - 1) % (len as int) == len - 1) by (nonlinear_arith)
            requires
                d == 0,
                len > 0,
        ;
    } else {
        assert((d + len - 1) % (len as int) == d - 1) by (nonlinear_arith)
            requires
                0 < d < len,
        ;
    }
    if cursor == 0 {
        assert((cursor + len - 1) % (len as int) == len - 1) by (nonlinear_arith)
            requires
                cursor == 0,
                len > 0,
        ;
    } else {
        assert((cursor + len - 1) % (len as int) == cursor - 1) by (nonlinear_arith)
            requires
                0 < cursor < len,
        ;
    }
    assert(u < len);
    if u + 1 < len {
        assert((u + 1) % (len as int) == u + 1) by (nonlinear_arith)
            requires
                0 <= u + 1 < len,
        ;
    } else {
        assert((u + 1) % (len as int) == 0) by (nonlinear_arith)
            requires
                u + 1 == len,
                len > 0,
        ;
    }
}

/// The keys shared by the shop and the rest site, over a list of `len`
/// entries with the cursor at `cursor`: Q quits; Up and Down move the
/// cursor, wrapping (with a non-empty list); L or Esc leaves, stepping the
/// floor on; Enter does `enter` (stated by the screen); other keys change
/// nothing.
pub open spec fn rest_shop_step(
    b: App,
    a: App,
    key: Key,
    cont: bool,
    cursor: usize,
    len: usize,
    enter: bool,
) -> bool {
    if quits(key) {
        !cont && a == b
    } else if (key == Key::Up || key == Key::Down) && len > 0 {
        let n = if key == Key::Up {
            cursor_up(cursor, len)
        } else {
            cursor_down(cursor, len)
        };
        &&& cont
        &&& keeps_run(b.state, a.state)
        &&& a.state.phase == cursor_set(b.state.phase, n)
        &&& same_screens(b, a)
    } else if is_letter(key, 'l', 'L') || key == Key::Esc {
        cont && advanced_to_next(b.state, a.state) && same_screens(b, a)
    } else if key == Key::Enter {
        cont && enter
    } else {
        cont && a == b
    }
}

/// The shop's cursor after an item was bought out of `len` left: kept on
/// the same place, or on the last item when it fell off the end.
pub open spec fn clamped_after_buy(cursor: usize, len: int) -> usize {
    if cursor >= len && len > 0 {
        (len - 1) as usize
    } else {
        cursor
    }
}

/// `a` is `b` after paying for an item bought in the shop whose die is
/// still to be picked: the shop's other items and cursor put aside, the
/// die screen open on `phase`.
pub open spec fn paid_and_stashed(
    b: App,
    a: App,
    item: ShopItem,
    rest: Seq<ShopItem>,
    cursor: usize,
) -> bool {
    &&& exists|m: GameState|
        #[trigger] spent(b.state, m, item.price, true) && a.state == (GameState {
            phase: a.state.phase,
            ..m
        })
    &&& a.stashed_shop matches Some((v, c)) && v@ == rest && c == cursor
    &&& a.unlock_options == b.unlock_options
    &&& a.roll_animation == b.roll_animation
}

/// What Enter does in the shop with the cursor at `cursor`. Nothing
/// happens unless an item is there and the player can pay for it. Then
/// the item leaves the shop and is paid: a die upgrade opens the die
/// screen for it, a special die opens the die screen to place it (as an
/// Augment-kind pick); a relic or a potion takes effect and the shop stays
/// open, its cursor kept inside the list.
pub open spec fn purchase_step(b: App, a: App, cursor: usize) -> bool {
    match b.state.phase {
        GamePhase::Shop { items, cursor: pc } => if cursor < items@.len() && b.state.gold
            >= items@[cursor as int].price {
            let item = items@[cursor as int];
            let rest = items@.remove(cursor as int);
            match item.kind {
                ShopItemKind::DieUpgrade(kind) => {
                    &&& paid_and_stashed(b, a, item, rest, pc)
                    &&& a.state.phase == (GamePhase::UpgradeSelectDie {
                        die_cursor: 0,
                        kind,
                        from_shop: true,
                        pending_die: None,
                    })
                },
                ShopItemKind::SpecialDie(k) => {
                    &&& paid_and_stashed(b, a, item, rest, pc)
                    &&& a.state.phase matches GamePhase::UpgradeSelectDie {
                        die_cursor,
                        kind,
                        from_shop,
                        pending_die: Some(d),
                    } && die_cursor == 0 && kind == UpgradeKind::Augment && from_shop
                        && special_die_made(k, d)
                },
                _ => {
                    &&& exists|m: GameState|
                        #[trigger] bought(b.state, m, item, true) && a.state == (GameState {
                            phase: a.state.phase,
                            ..m
                        })
                    &&& a.state.phase matches GamePhase::Shop { items: v, cursor: c } && v@ == rest
                        && c == clamped_after_buy(pc, rest.len() as int)
                    &&& same_screens(b, a)
                },
            }
        } else {
            a == b
        },
        _ => a == b,
    }
}

/// What a key does in the shop.
pub open spec fn shop_step(b: App, a: App, key: Key, cont: bool) -> bool {
    match b.state.phase {
        GamePhase::Shop { items, cursor } => rest_shop_step(
            b,
            a,
            key,
            cont,
            cursor,
            items@.len() as usize,
            purchase_step(b, a, cursor),
        ),
        _ => cont && a == b,
    }
}

impl App {
    /// Handle a key in the shop; returns false to quit.
    pub fn handle_shop(&mut self, key: Key) -> (cont: bool)
        requires
            old(self).wf(),
            old(self).limits_hold(),
            old(self).state.phase is Shop,
        ensures
            shop_step(*old(self), *final(self), key, cont),
            final(self).wf(),
    {
        let (cursor, len) = match &self.state.phase {
            GamePhase::Shop { items, cursor } => (*cursor, items.len()),
            _ => (0, 0),
        };
        if is_quit(key) {
            return false;
        }
        match key {
            Key::Up => {
                if len > 0 {
                    self.state.phase.set_cursor(step_cursor(cursor, len, false));
                }
            },
            Key::Down => {
                if len > 0 {
                    self.state.phase.set_cursor(step_cursor(cursor, len, true));
                }
            },
            Key::Esc => {
                self.advance_floor();
            },
            Key::Enter => {
                self.purchase(cursor);
            },
            _ => {
                if key_is_letter(key, 'l', 'L') {
                    self.advance_floor();
                }
            },
        }
        true
    }

    /// Buy the item under the cursor, if the player can pay for it.
    fn purchase(&mut self, cursor: usize)
        requires
            old(self).wf(),
            old(self).limits_hold(),
            old(self).state.phase is Shop,
        ensures
            purchase_step(*old(self), *final(self), cursor),
            final(self).wf(),
    {
        let affordable = match &self.state.phase {
            GamePhase::Shop { items, .. } => cursor < items.len() && self.state.gold
                >= items[cursor].price,
            _ => false,
        };
        if !affordable {
            return ;
        }
        let item = match &self.state.phase {
            GamePhase::Shop { items, .. } => items[cursor],
            _ => {
                return ;
            },
        };
        match item.kind {
            ShopItemKind::DieUpgrade(kind) => {
                let paid = self.state.spend_gold(item.price);
                let ghost m = self.state;
                assert(paid && spent(old(self).state, m, item.price, true));
                let (items, pc) = self.take_shop_item(cursor);
                self.stashed_shop = Some((items, pc));
                self.state.phase = GamePhase::UpgradeSelectDie {
                    die_cursor: 0,
                    kind,
                    from_shop: true,
                    pending_die: None,
                };
            },
            ShopItemKind::SpecialDie(k) => {
                let paid = self.state.spend_gold(item.price);
                let ghost m = self.state;
                assert(paid && spent(old(self).state, m, item.price, true));
                let die = k.create_die();
                let (items, pc) = self.take_shop_item(cursor);
                self.stashed_shop = Some((items, pc));
                self.state.phase = GamePhase::UpgradeSelectDie {
                    die_cursor: 0,
                    kind: UpgradeKind::Augment,
                    from_shop: true,
                    pending_die: Some(die),
                };
            },
            _ => {
                let paid = self.state.buy_shop_item(item);
                let ghost m = self.state;
                assert(paid && bought(old(self).state, m, item, true));
                let (items, pc) = self.take_shop_item(cursor);
                let len = items.len();
                let c = if pc >= len && len > 0 {
                    len - 1
                } else {
                    pc
                };
                self.state.phase = GamePhase::Shop { items, cursor: c };
            },
        }
    }

    /// Take the shop's items, without the one at `cursor`, and its cursor
    /// out of the phase (which is left as `GameOver` for the caller to set).
    fn take_shop_item(&mut self, cursor: usize) -> (r: (Vec<ShopItem>, usize))
        requires
            old(self).state.phase matches GamePhase::Shop { items, .. } && cursor < items@.len(),
        ensures
            old(self).state.phase matches GamePhase::Shop { items, cursor: pc } && r.0@
                == items@.remove(cursor as int) && r.1 == pc,
            final(self).state == (GameState { phase: GamePhase::GameOver, ..old(self).state }),
            final(self).unlock_options == old(self).unlock_options,
            final(self).roll_animation == old(self).roll_animation,
            final(self).stashed_shop == old(self).stashed_shop,
    {
        let mut phase = GamePhase::GameOver;
        std::mem::swap(&mut phase, &mut self.state.phase);
        match phase {
            GamePhase::Shop { mut items, cursor: pc } => {
                let _ = items.remove(cursor);
                (items, pc)
            },
            _ => (Vec::new(), 0),
        }
    }
}

} // verus!
