//! The scoring panel: every unlocked category with what the current dice
//! would score in it. Categories that cannot be made show "--" (unlike a
//! score of 0), used ones are dimmed, and the best one still available is
//! marked with a star.

use vstd::prelude::*;

use crate::dice::{pool_values, DicePool};
use crate::scoring::{
    calculate_for,
    category_name,
    is_category_score,
    law_category_score_unique,
    ScoreCategory,
    MAX_SCORED_DICE,
};
use crate::text::{decimal, decimal_string, pad_left, pad_right, padded_left, padded_right};
use super::{Cell, Tone};
use super::selecting::{available, slice_contains};

verus! {

/// The score of category `c` on the dice values `vals`.
pub open spec fn category_score(c: ScoreCategory, vals: Seq<u8>) -> Option<usize> {
    choose|r: Option<usize>| is_category_score(c, vals, r)
}

/// `a` is no better than `b`: "cannot be made" is below every score.
pub open spec fn opt_le(a: Option<usize>, b: Option<usize>) -> bool {
    match (a, b) {
        (None, _) => true,
        (Some(_), None) => false,
        (Some(x), Some(y)) => x <= y,
    }
}

/// `j` is the best of the categories `avail` on `vals`: none scores more,
/// and every later one scores less (the last of equal best ones wins).
pub open spec fn is_best_index(avail: Seq<ScoreCategory>, vals: Seq<u8>, j: int) -> bool {
    &&& 0 <= j < avail.len()
    &&& forall|k: int|
        0 <= k < avail.len() ==> opt_le(
            category_score(#[trigger] avail[k], vals),
            category_score(avail[j], vals),
        )
    &&& forall|k: int|
        j < k < avail.len() ==> !opt_le(
            category_score(avail[j], vals),
            category_score(#[trigger] avail[k], vals),
        )
}

/// `c` is the best of the categories `avail` on `vals`.
pub open spec fn is_best_category(avail: Seq<ScoreCategory>, vals: Seq<u8>, c: ScoreCategory) -> bool {
    exists|j: int| is_best_index(avail, vals, j) && c == avail[j]
}

/// How a score is shown: right-aligned in four columns, "--" when the
/// category cannot be made.
pub open spec fn score_field(r: Option<usize>) -> Seq<char> {
    match r {
        Some(n) => pad_left(decimal(n as nat), 4),
        None => "  --"@,
    }
}

/// A row of the panel: the name in twenty columns, the score, and a star
/// for the best category.
pub open spec fn score_row_text(c: ScoreCategory, r: Option<usize>, best: bool) -> Seq<char> {
    pad_right(category_name(c), 20) + " "@ + score_field(r) + " "@ + (if best {
        "*"@
    } else {
        " "@
    })
}

pub struct ScoreView<'a> {
    pub pool: &'a DicePool,
    pub unlocked: &'a [ScoreCategory],
    pub used_this_room: &'a [ScoreCategory],
}

impl<'a> ScoreView<'a> {
    pub fn new(
        pool: &'a DicePool,
        unlocked: &'a [ScoreCategory],
        used_this_room: &'a [ScoreCategory],
    ) -> (v: Self)
        ensures
            *v.pool == *pool,
            v.unlocked@ == unlocked@,
            v.used_this_room@ == used_this_room@,
    {
        ScoreView { pool, unlocked, used_this_room }
    }

    /// The best category still available, if any.
    pub fn best(&self) -> (b: Option<ScoreCategory>)
        requires
            self.pool.dice@.len() <= MAX_SCORED_DICE,
        ensures
            match b {
                None => available(self.unlocked@, self.used_this_room@).len() == 0,
                Some(c) => is_best_category(
                    available(self.unlocked@, self.used_this_room@),
                    pool_values(self.pool.dice@),
                    c,
                ),
            },
    {
        let values = self.pool.values();
        let ghost vals = pool_values(self.pool.dice@);
        let avail = super::selecting::unused_of(self.unlocked, self.used_this_room);
        let ghost av = avail@;
        if avail.len() == 0 {
            return None;
        }
        let mut j: usize = 0;
        let mut best = calculate_for(&avail[0], values.as_slice());
        proof {
            lemma_score_is(av[0], vals, best);
        }
        let mut k: usize = 1;
        while k < avail.len()
            invariant
                av == avail@,
                values@ == vals,
                vals.len() <= MAX_SCORED_DICE,
                1 <= k <= av.len(),
                j < k,
                best == category_score(av[j as int], vals),
                forall|i: int| 0 <= i < k ==> opt_le(category_score(#[trigger] av[i], vals), best),
                forall|i: int|
                    j < i < k ==> !opt_le(best, category_score(#[trigger] av[i], vals)),
            decreases av.len() - k,
        {
            let r = calculate_for(&avail[k], values.as_slice());
            proof {
                lemma_score_is(av[k as int], vals, r);
            }
            let better = match (best, r) {
                (None, _) => true,
                (Some(_), None) => false,
                (Some(x), Some(y)) => x <= y,
            };
            if better {
                j = k;
                best = r;
            }
            k = k + 1;
        }
        Some(avail[j])
    }

    /// One row per unlocked category, in unlock order: its text, dimmed
    /// when used this room, highlighted when it is the best available.
    pub fn rows(&self) -> (v: Vec<Cell>)
        requires
            self.pool.dice@.len() <= MAX_SCORED_DICE,
        ensures
            v@.len() == self.unlocked@.len(),
            forall|i: int|
                0 <= i < v@.len() ==> {
                    let c = self.unlocked@[i];
                    let is_best = is_best_category(
                        available(self.unlocked@, self.used_this_room@),
                        pool_values(self.pool.dice@),
                        c,
                    );
                    &&& (#[trigger] v@[i]).text@ == score_row_text(
                        c,
                        category_score(c, pool_values(self.pool.dice@)),
                        is_best,
                    )
                    &&& v@[i].tone == if self.used_this_room@.contains(c) {
                        Tone::Dimmed
                    } else if is_best {
                        Tone::Best
                    } else {
                        Tone::Plain
                    }
                },
    {
        let best = self.best();
        let values = self.pool.values();
        let ghost vals = pool_values(self.pool.dice@);
        let mut v: Vec<Cell> = Vec::new();
        let mut i: usize = 0;
        proof {
            reveal_strlit(" ");
            reveal_strlit("*");
            reveal_strlit("  --");
            best_is_unique(self.unlocked@, self.used_this_room@, vals);
        }
        while i < self.unlocked.len()
            invariant
                i <= self.unlocked@.len(),
                v@.len() == i,
                values@ == vals,
                vals == pool_values(self.pool.dice@),
                vals.len() <= MAX_SCORED_DICE,
                match best {
                    None => available(self.unlocked@, self.used_this_room@).len() == 0,
                    Some(c) => is_best_category(
                        available(self.unlocked@, self.used_this_room@),
                        vals,
                        c,
                    ),
                },
                forall|a: ScoreCategory, b: ScoreCategory|
                    #[trigger] is_best_category(available(self.unlocked@, self.used_this_room@), vals, a)
                        && #[trigger] is_best_category(
                        available(self.unlocked@, self.used_this_room@),
                        vals,
                        b,
                    ) ==> a == b,
                forall|k: int|
                    0 <= k < i ==> {
                        let c = self.unlocked@[k];
                        let is_best = is_best_category(
                            available(self.unlocked@, self.used_this_room@),
                            vals,
                            c,
                        );
                        &&& (#[trigger] v@[k]).text@ == score_row_text(
                            c,
                            category_score(c, vals),
                            is_best,
                        )
                        &&& v@[k].tone == if self.used_this_room@.contains(c) {
                            Tone::Dimmed
                        } else if is_best {
                            Tone::Best
                        } else {
                            Tone::Plain
                        }
                    },
            decreases self.unlocked@.len() - i,
        {
            let c = self.unlocked[i];
            let r = calculate_for(&c, values.as_slice());
            proof {
                lemma_score_is(c, vals, r);
            }
            let is_best = match best {
                Some(b) => b == c,
                None => false,
            };
            let field = match r {
                Some(n) => {
                    let d = decimal_string(n);
                    padded_left(d.as_str(), 4)
                },
                None => String::from_str("  --"),
            };
            let mut text = padded_right(c.display_name(), 20);
            text.append(" ");
            text.append(field.as_str());
            text.append(" ");
            text.append(
                if is_best {
                    "*"
                } else {
                    " "
                },
            );
            let tone = if slice_contains(self.used_this_room, c) {
                Tone::Dimmed
            } else if is_best {
                Tone::Best
            } else {
                Tone::Plain
            };
            v.push(Cell { text, tone });
            i = i + 1;
        }
        v
    }
}

/// The score `calculate_for` gives is the category's score.
proof fn lemma_score_is(c: ScoreCategory, vals: Seq<u8>, r: Option<usize>)
    requires
        is_category_score(c, vals, r),
    ensures
        category_score(c, vals) == r,
{
    let s = category_score(c, vals);
    assert(is_category_score(c, vals, s));
    law_category_score_unique(c, vals, r, s);
}

/// At most one category is the best.
proof fn best_is_unique(unlocked: Seq<ScoreCategory>, used: Seq<ScoreCategory>, vals: Seq<u8>)
    ensures
        forall|a: ScoreCategory, b: ScoreCategory|
            #[trigger] is_best_category(available(unlocked, used), vals, a) && #[trigger] is_best_category(
                available(unlocked, used),
                vals,
                b,
            ) ==> a == b,
{
    let av = available(unlocked, used);
    assert forall|a: ScoreCategory, b: ScoreCategory|
        #[trigger] is_best_category(av, vals, a) && #[trigger] is_best_category(
            av,
            vals,
            b,
        ) implies a == b by {
        let ja = choose|j: int| is_best_index(av, vals, j) && a == av[j];
        let jb = choose|j: int| is_best_index(av, vals, j) && b == av[j];
        if ja < jb {
            assert(opt_le(category_score(av[jb], vals), category_score(av[ja], vals)));
            assert(!opt_le(category_score(av[ja], vals), category_score(av[jb], vals)));
            assert(false);
        } else if jb < ja {
            assert(opt_le(category_score(av[ja], vals), category_score(av[jb], vals)));
            assert(!opt_le(category_score(av[jb], vals), category_score(av[ja], vals)));
            assert(false);
        }
    }
}

} // verus!
