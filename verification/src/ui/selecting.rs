//! Category selection: shown once the player chooses to score.

use vstd::prelude::*;

use crate::game::{keeps_run, scored, GamePhase, GameState};
use crate::scoring::ScoreCategory;
use super::{is_letter, is_quit, key_is_letter, quits, same_screens, App, Key};

verus! {

/// The unlocked categories not yet used in this room, in unlock order.
pub open spec fn available(unlocked: Seq<ScoreCategory>, used: Seq<ScoreCategory>) -> Seq<
    ScoreCategory,
>
    decreases unlocked.len(),
{
    if unlocked.len() == 0 {
        Seq::empty()
    } else {
        let rest = available(unlocked.drop_last(), used);
        if used.contains(unlocked.last()) {
            rest
        } else {
            rest.push(unlocked.last())
        }
    }
}

/// The category list offers only unlocked categories not yet used this
/// room, so a category marked used cannot be scored again in the room
/// (Highest Die is never marked used).
pub proof fn law_available_are_unused(unlocked: Seq<ScoreCategory>, used: Seq<ScoreCategory>)
    ensures
        forall|i: int|
            0 <= i < available(unlocked, used).len() ==> unlocked.contains(
                #[trigger] available(unlocked, used)[i],
            ) && !used.contains(available(unlocked, used)[i]),
    decreases unlocked.len(),
{
    if unlocked.len() > 0 {
        let init = unlocked.drop_last();
        law_available_are_unused(init, used);
        assert forall|i: int| 0 <= i < available(unlocked, used).len() implies unlocked.contains(
            #[trigger] available(unlocked, used)[i],
        ) && !used.contains(available(unlocked, used)[i]) by {
            if i < available(init, used).len() {
                let c = available(init, used)[i];
                assert(init.contains(c));
                let k = choose|k: int| 0 <= k < init.len() && init[k] == c;
                assert(unlocked[k] == c);
            } else {
                assert(unlocked[unlocked.len() - 1] == unlocked.last());
            }
        }
    }
}

/// Whether `category` is in the list.
pub fn slice_contains(list: &[ScoreCategory], category: ScoreCategory) -> (r: bool)
    ensures
        r == list@.contains(category),
{
    let mut i: usize = 0;
    while i < list.len()
        invariant
            i <= list@.len(),
            forall|j: int| 0 <= j < i ==> list@[j] != category,
        decreases list@.len() - i,
    {
        if list[i] == category {
            assert(list@[i as int] == category);
            return true;
        }
        i = i + 1;
    }
    false
}

/// Filtering keeps a list free of repeats.
pub proof fn lemma_available_no_duplicates(list: Seq<ScoreCategory>, used: Seq<ScoreCategory>)
    requires
        list.no_duplicates(),
    ensures
        available(list, used).no_duplicates(),
    decreases list.len(),
{
    if list.len() > 0 {
        let init = list.drop_last();
        assert(init.no_duplicates()) by {
            assert forall|i: int, j: int|
                0 <= i < init.len() && 0 <= j < init.len() && i != j implies init[i] != init[j] by {
                assert(init[i] == list[i] && init[j] == list[j]);
            }
        }
        lemma_available_no_duplicates(init, used);
        law_available_are_unused(init, used);
        let rest = available(init, used);
        if !used.contains(list.last()) {
            assert(!rest.contains(list.last())) by {
                if rest.contains(list.last()) {
                    let k = choose|k: int| 0 <= k < rest.len() && rest[k] == list.last();
                    assert(init.contains(rest[k]));
                    let m = choose|m: int| 0 <= m < init.len() && init[m] == rest[k];
                    assert(list[m] == list[list.len() - 1]);
                }
            }
            assert forall|i: int, j: int|
                0 <= i < rest.push(list.last()).len() && 0 <= j < rest.push(list.last()).len()
                    && i != j implies rest.push(list.last())[i] != rest.push(list.last())[j] by {
                if i < rest.len() && j < rest.len() {
                } else if i < rest.len() {
                    assert(rest.contains(rest[i]));
                } else {
                    assert(rest.contains(rest[j]));
                }
            }
        }
    }
}

/// The categories of `list` that are not in `used`, in order.
pub fn unused_of(list: &[ScoreCategory], used: &[ScoreCategory]) -> (v: Vec<ScoreCategory>)
    ensures
        v@ == available(list@, used@),
{
    let mut v: Vec<ScoreCategory> = Vec::new();
    let mut i: usize = 0;
    while i < list.len()
        invariant
            i <= list@.len(),
            v@ == available(list@.take(i as int), used@),
        decreases list@.len() - i,
    {
        let c = list[i];
        proof {
            assert(list@.take(i + 1).drop_last() =~= list@.take(i as int));
            assert(list@.take(i + 1).last() == c);
        }
        if !slice_contains(used, c) {
            v.push(c);
        }
        i = i + 1;
    }
    assert(list@.take(list@.len() as int) =~= list@);
    v
}

/// The categories that can still be scored this room.
pub fn available_categories(state: &GameState) -> (v: Vec<ScoreCategory>)
    ensures
        v@ == available(state.unlocked@, state.used_this_room@),
{
    unused_of(state.unlocked.as_slice(), state.used_this_room.as_slice())
}

/// The cursor of the category list, kept inside the list.
pub open spec fn clamped(cursor: usize, len: int) -> int {
    if cursor < len - 1 {
        cursor as int
    } else {
        len - 1
    }
}

/// What a key does on the category list. With nothing left to score, no
/// key does anything. Otherwise Q quits; Up and Down move the cursor
/// (first kept inside the list), wrapping; S or Enter scores the category
/// under the cursor; Esc or R goes back to rolling.
pub open spec fn selecting_step(b: App, a: App, key: Key, cont: bool) -> bool {
    let avail = available(b.state.unlocked@, b.state.used_this_room@);
    let (cursor, from_boss) = match b.state.phase {
        GamePhase::SelectingCategory { cursor, from_boss } => (cursor, from_boss),
        _ => (0, false),
    };
    let c = clamped(cursor, avail.len() as int);
    if avail.len() == 0 {
        cont && a == b
    } else if quits(key) {
        !cont && a == b
    } else if key == Key::Up || key == Key::Down {
        let n = if key == Key::Up {
            if c == 0 {
                avail.len() - 1
            } else {
                c - 1
            }
        } else {
            if c + 1 >= avail.len() {
                0
            } else {
                c + 1
            }
        };
        &&& cont
        &&& keeps_run(b.state, a.state)
        &&& a.state.phase == (GamePhase::SelectingCategory { cursor: n as usize, from_boss })
        &&& same_screens(b, a)
    } else if is_letter(key, 's', 'S') || key == Key::Enter {
        cont && scored(b.state, a.state, avail[c]) && same_screens(b, a)
    } else if is_letter(key, 'r', 'R') || key == Key::Esc {
        &&& cont
        &&& keeps_run(b.state, a.state)
        &&& a.state.phase == (if from_boss {
            GamePhase::Boss
        } else {
            GamePhase::Rolling
        })
        &&& same_screens(b, a)
    } else {
        cont && a == b
    }
}

/// The category under the cursor of the category list (the one S or
/// Enter would score), if the list is showing and not empty.
pub open spec fn category_under_cursor_of(state: GameState) -> Option<ScoreCategory> {
    match state.phase {
        GamePhase::SelectingCategory { cursor, .. } => {
            let avail = available(state.unlocked@, state.used_this_room@);
            if avail.len() == 0 {
                None
            } else {
                Some(avail[clamped(cursor, avail.len() as int)])
            }
        },
        _ => None,
    }
}

/// The category under the cursor of the category list.
pub fn category_under_cursor(state: &GameState) -> (r: Option<ScoreCategory>)
    ensures
        r == category_under_cursor_of(*state),
{
    let cursor = match state.phase {
        GamePhase::SelectingCategory { cursor, .. } => cursor,
        _ => {
            return None;
        },
    };
    let avail = available_categories(state);
    let len = avail.len();
    if len == 0 {
        return None;
    }
    let c = if cursor < len - 1 {
        cursor
    } else {
        len - 1
    };
    Some(avail[c])
}

/// The row of the scoring panel (one row per unlocked category) that the
/// category list's cursor is on: the first row of the category under the
/// cursor, if any.
pub fn row_under_cursor(state: &GameState) -> (r: Option<usize>)
    ensures
        match category_under_cursor_of(*state) {
            None => r is None,
            Some(c) => match r {
                Some(i) => {
                    &&& i < state.unlocked@.len()
                    &&& state.unlocked@[i as int] == c
                    &&& forall|k: int| 0 <= k < i ==> state.unlocked@[k] != c
                },
                None => !state.unlocked@.contains(c),
            },
        },
{
    let c = match category_under_cursor(state) {
        Some(c) => c,
        None => {
            return None;
        },
    };
    let mut i: usize = 0;
    while i < state.unlocked.len()
        invariant
            i <= state.unlocked@.len(),
            category_under_cursor_of(*state) == Some(c),
            forall|k: int| 0 <= k < i ==> state.unlocked@[k] != c,
        decreases state.unlocked@.len() - i,
    {
        if state.unlocked[i] == c {
            assert(state.unlocked@[i as int] == c);
            return Some(i);
        }
        i = i + 1;
    }
    assert(!state.unlocked@.contains(c));
    None
}

impl App {
    /// Handle a key on the category list; returns false to quit.
    pub fn handle_selecting(&mut self, key: Key) -> (cont: bool)
        requires
            old(self).wf(),
            old(self).limits_hold(),
            old(self).state.phase is SelectingCategory,
        ensures
            selecting_step(*old(self), *final(self), key, cont),
            final(self).wf(),
    {
        let (cursor0, from_boss) = match self.state.phase {
            GamePhase::SelectingCategory { cursor, from_boss } => (cursor, from_boss),
            _ => (0, false),
        };
        let available = available_categories(&self.state);
        if available.len() == 0 {
            return true;
        }
        if is_quit(key) {
            return false;
        }
        let len = available.len();
        let cursor = if cursor0 < len - 1 {
            cursor0
        } else {
            len - 1
        };
        match key {
            Key::Up => {
                let n = if cursor == 0 {
                    len - 1
                } else {
                    cursor - 1
                };
                self.state.phase = GamePhase::SelectingCategory { cursor: n, from_boss };
                true
            },
            Key::Down => {
                let n = if cursor + 1 >= len {
                    0
                } else {
                    cursor + 1
                };
                self.state.phase = GamePhase::SelectingCategory { cursor: n, from_boss };
                true
            },
            _ => {
                if key_is_letter(key, 's', 'S') || key == Key::Enter {
                    let chosen = available[cursor];
                    proof {
                        law_available_are_unused(self.state.unlocked@, self.state.used_this_room@);
                        assert(self.state.unlocked@.contains(chosen));
                    }
                    self.state.score_category(chosen);
                } else if key_is_letter(key, 'r', 'R') || key == Key::Esc {
                    self.state.back_room();
                }
                true
            },
        }
    }
}

} // verus!
