//! Relics: passive items that persist for an entire run.
//!
//! The `Relic` trait defines the hooks the game calls at specific moments;
//! hooks a relic does not use keep their default, which changes nothing.
//! Stateful relics (Shield, Quill, Grimoire) carry a per-floor flag that
//! `on_floor_start` clears.
//!
//! `AnyRelic` holds one relic of any kind; it is what the run state and the
//! shop store, and `all_relics` lists one fresh relic of every kind.

use vstd::prelude::*;

use crate::dice::{Die, DicePool, DieType, lemma_roll_facts};

verus! {

// ─── Relic trait ──────────────────────────────────────────────────────────────

pub trait Relic: Sized {
    fn name(&self) -> (s: &str);

    fn description(&self) -> (s: &str);

    /// Called at the start of every roll; `first_roll` is true only for the
    /// first roll of the room.
    fn on_roll_start(&mut self, pool: &mut DicePool, first_roll: bool)
        requires
            old(pool).wf(),
        ensures
            final(pool).wf(),
        default_ensures
            *final(pool) == *old(pool),
            *final(self) == *old(self),
    {
    }

    /// Called when the player would lose `hp` HP; returns the HP actually
    /// lost.
    fn on_hp_loss(&mut self, hp: u32) -> (lost: u32)
        default_ensures
            lost == hp,
            *final(self) == *old(self),
    {
        hp
    }

    /// Called after scoring; returns bonus gold on top of the reward.
    fn on_score(&self, score: usize, target: usize) -> (gold: u32)
        default_ensures
            gold == 0,
    {
        0
    }

    /// Called once at the start of each floor; clears per-floor flags.
    fn on_floor_start(&mut self)
        default_ensures
            *final(self) == *old(self),
    {
    }

    /// Flat change of the maximum HP, applied when the relic is acquired.
    fn max_hp_modifier(&self) -> (m: i32)
        default_ensures
            m == 0,
    {
        0
    }

    /// Percentage applied to shop prices (100 is no change, 80 is 20%
    /// cheaper).
    fn shop_price_percent(&self) -> (p: u32)
        default_ensures
            p == 100,
    {
        100
    }

    /// Extra rolls added to the pool's rolls each room.
    fn extra_rolls(&self) -> (n: u8)
        default_ensures
            n == 0,
    {
        0
    }

    /// Called once when the relic is acquired; may change the dice pool.
    fn on_acquire(&self, pool: &mut DicePool)
        requires
            old(pool).wf(),
        ensures
            final(pool).wf(),
        default_ensures
            *final(pool) == *old(pool),
    {
    }
}

// ─── Concrete relics ──────────────────────────────────────────────────────────

/// The dice after Loaded Dice fires: on the first roll every die showing 1
/// is rolled again; otherwise nothing changes.
pub open spec fn loaded_dice_reroll(before: Seq<Die>, after: Seq<Die>, first_roll: bool) -> bool {
    &&& after.len() == before.len()
    &&& forall|i: int|
        0 <= i < before.len() ==> if first_roll && before[i].shown().val() == 1 {
            (#[trigger] after[i]).is_roll_of(before[i])
        } else {
            after[i] == before[i]
        }
}

/// Loaded Dice: the first roll each room rerolls any die showing 1 once for
/// free.
#[derive(Debug, Clone, Copy)]
pub struct LoadedDice;

impl Relic for LoadedDice {
    fn name(&self) -> (s: &str)
        ensures
            s@ == "Loaded Dice"@,
    {
        "Loaded Dice"
    }

    fn description(&self) -> (s: &str)
        ensures
            s@ == "Your first roll each room rerolls any die showing 1 once for free."@,
    {
        "Your first roll each room rerolls any die showing 1 once for free."
    }

    fn on_roll_start(&mut self, pool: &mut DicePool, first_roll: bool)
        ensures
            loaded_dice_reroll(old(pool).dice@, final(pool).dice@, first_roll),
            final(pool).rolls_remaining == old(pool).rolls_remaining,
            final(pool).max_rolls == old(pool).max_rolls,
    {
        if first_roll {
            let ghost before = pool.dice@;
            let mut i: usize = 0;
            while i < pool.dice.len()
                invariant
                    first_roll,
                    pool.dice@.len() == before.len(),
                    i <= before.len(),
                    pool.rolls_remaining == old(pool).rolls_remaining,
                    pool.max_rolls == old(pool).max_rolls,
                    before == old(pool).dice@,
                    forall|k: int| 0 <= k < before.len() ==> (#[trigger] before[k]).wf(),
                    forall|k: int| i <= k < before.len() ==> (#[trigger] pool.dice@[k]) == before[k],
                    forall|k: int|
                        0 <= k < i ==> if before[k].shown().val() == 1 {
                            (#[trigger] pool.dice@[k]).is_roll_of(before[k])
                        } else {
                            pool.dice@[k] == before[k]
                        },
                decreases before.len() - i,
            {
                if pool.dice[i].shown_face().get_value() == 1 {
                    let _ = pool.dice[i].roll(&mut pool.rng);
                }
                i = i + 1;
            }
            proof {
                broadcast use lemma_roll_facts;
                assert forall|k: int| 0 <= k < pool.dice@.len() implies (
                #[trigger] pool.dice@[k]).wf() by {
                    assert(before[k].wf());
                }
            }
        }
    }
}

/// Extra Die Slot: adds a Standard die to the pool when acquired.
#[derive(Debug, Clone, Copy)]
pub struct ExtraDieSlot;

impl Relic for ExtraDieSlot {
    fn name(&self) -> (s: &str)
        ensures
            s@ == "Extra Die Slot"@,
    {
        "Extra Die Slot"
    }

    fn description(&self) -> (s: &str)
        ensures
            s@ == "Adds a 6th die slot to your pool."@,
    {
        "Adds a 6th die slot to your pool."
    }

    fn on_acquire(&self, pool: &mut DicePool)
        ensures
            final(pool).dice@.len() == old(pool).dice@.len() + 1,
            final(pool).dice@.drop_last() == old(pool).dice@,
            final(pool).dice@.last().is_fresh(DieType::Standard, seq![1u8, 2, 3, 4, 5, 6]),
            final(pool).rolls_remaining == old(pool).rolls_remaining,
            final(pool).max_rolls == old(pool).max_rolls,
    {
        let d = Die::standard();
        assert(crate::dice::values_of(d.faces_view()).len() == 6);
        pool.add_die(d);
        assert(pool.dice@.drop_last() =~= old(pool).dice@);
    }
}

/// One More Roll: one extra roll per room.
#[derive(Debug, Clone, Copy)]
pub struct OneMoreRoll;

impl Relic for OneMoreRoll {
    fn name(&self) -> (s: &str)
        ensures
            s@ == "One More Roll"@,
    {
        "One More Roll"
    }

    fn description(&self) -> (s: &str)
        ensures
            s@ == "Gain one extra roll per room."@,
    {
        "Gain one extra roll per room."
    }

    fn extra_rolls(&self) -> (n: u8)
        ensures
            n == 1,
    {
        1
    }
}

/// Lucky Horseshoe: an HP loss costs at most 5 HP.
#[derive(Debug, Clone, Copy)]
pub struct LuckyHorseshoe;

impl Relic for LuckyHorseshoe {
    fn name(&self) -> (s: &str)
        ensures
            s@ == "Lucky Horseshoe"@,
    {
        "Lucky Horseshoe"
    }

    fn description(&self) -> (s: &str)
        ensures
            s@ == "Failing a target costs 5 HP instead of 10."@,
    {
        "Failing a target costs 5 HP instead of 10."
    }

    fn on_hp_loss(&mut self, hp: u32) -> (lost: u32)
        ensures
            lost == if hp < 5 {
                hp
            } else {
                5
            },
    {
        if hp < 5 {
            hp
        } else {
            5
        }
    }
}

/// Goblin's Hoard: +15 bonus gold when the score reaches 150% of the target
/// (exactly: twice the score is at least three times the target).
#[derive(Debug, Clone, Copy)]
pub struct GoblinsHoard;

impl Relic for GoblinsHoard {
    fn name(&self) -> (s: &str)
        ensures
            s@ == "Goblin's Hoard"@,
    {
        "Goblin's Hoard"
    }

    fn description(&self) -> (s: &str)
        ensures
            s@ == "Earn +15 bonus gold when you beat the target by 150% or more."@,
    {
        "Earn +15 bonus gold when you beat the target by 150% or more."
    }

    fn on_score(&self, score: usize, target: usize) -> (gold: u32)
        ensures
            gold == if 2 * score >= 3 * target {
                15u32
            } else {
                0u32
            },
    {
        if (score as u128) * 2 >= (target as u128) * 3 {
            15
        } else {
            0
        }
    }
}

/// Cursed Chalice: -10 max HP, but shop prices are 20% cheaper.
#[derive(Debug, Clone, Copy)]
pub struct CursedChalice;

impl Relic for CursedChalice {
    fn name(&self) -> (s: &str)
        ensures
            s@ == "Cursed Chalice"@,
    {
        "Cursed Chalice"
    }

    fn description(&self) -> (s: &str)
        ensures
            s@ == "-10 max HP, but all shop prices are 20% cheaper."@,
    {
        "-10 max HP, but all shop prices are 20% cheaper."
    }

    fn max_hp_modifier(&self) -> (m: i32)
        ensures
            m == -10,
    {
        -10
    }

    fn shop_price_percent(&self) -> (p: u32)
        ensures
            p == 80,
    {
        80
    }
}

/// Enchanted Quill: once per floor, a category already used this room may be
/// scored again.
#[derive(Debug, Clone, Copy)]
pub struct EnchantedQuill {
    used_this_floor: bool,
}

impl EnchantedQuill {
    /// Whether the quill has been used on this floor.
    pub closed spec fn used(self) -> bool {
        self.used_this_floor
    }

    pub fn new() -> (q: Self)
        ensures
            !q.used(),
    {
        Self { used_this_floor: false }
    }

    /// Returns true, and marks the quill used, if it is still available on
    /// this floor.
    pub fn try_use(&mut self) -> (ok: bool)
        ensures
            ok == !old(self).used(),
            final(self).used(),
    {
        if self.used_this_floor {
            false
        } else {
            self.used_this_floor = true;
            true
        }
    }
}

impl Relic for EnchantedQuill {
    fn name(&self) -> (s: &str)
        ensures
            s@ == "Enchanted Quill"@,
    {
        "Enchanted Quill"
    }

    fn description(&self) -> (s: &str)
        ensures
            s@ == "Once per floor, the best category can be scored again even if already used."@,
    {
        "Once per floor, the best category can be scored again even if already used."
    }

    fn on_floor_start(&mut self)
        ensures
            !final(self).used(),
    {
        self.used_this_floor = false;
    }
}

/// Shield of the Ancients: the first HP loss of each floor is negated.
#[derive(Debug, Clone, Copy)]
pub struct ShieldOfTheAncients {
    used_this_floor: bool,
}

impl ShieldOfTheAncients {
    /// Whether the shield has already absorbed a loss on this floor.
    pub closed spec fn used(self) -> bool {
        self.used_this_floor
    }

    pub fn new() -> (s: Self)
        ensures
            !s.used(),
    {
        Self { used_this_floor: false }
    }
}

impl Relic for ShieldOfTheAncients {
    fn name(&self) -> (s: &str)
        ensures
            s@ == "Shield of the Ancients"@,
    {
        "Shield of the Ancients"
    }

    fn description(&self) -> (s: &str)
        ensures
            s@ == "The first time you would lose HP each floor, negate the damage."@,
    {
        "The first time you would lose HP each floor, negate the damage."
    }

    fn on_hp_loss(&mut self, hp: u32) -> (lost: u32)
        ensures
            lost == if old(self).used() {
                hp
            } else {
                0
            },
            final(self).used(),
    {
        if self.used_this_floor {
            hp
        } else {
            self.used_this_floor = true;
            0
        }
    }

    fn on_floor_start(&mut self)
        ensures
            !final(self).used(),
    {
        self.used_this_floor = false;
    }
}

/// Wizard's Grimoire: once per floor, preview the next roll before
/// committing.
#[derive(Debug, Clone, Copy)]
pub struct WizardsGrimoire {
    used_this_floor: bool,
}

impl WizardsGrimoire {
    /// Whether the preview has been used on this floor.
    pub closed spec fn used(self) -> bool {
        self.used_this_floor
    }

    pub fn new() -> (g: Self)
        ensures
            !g.used(),
    {
        Self { used_this_floor: false }
    }

    /// Returns true, and marks the grimoire used, if the preview is still
    /// available on this floor.
    pub fn try_use(&mut self) -> (ok: bool)
        ensures
            ok == !old(self).used(),
            final(self).used(),
    {
        if self.used_this_floor {
            false
        } else {
            self.used_this_floor = true;
            true
        }
    }
}

impl Relic for WizardsGrimoire {
    fn name(&self) -> (s: &str)
        ensures
            s@ == "Wizard's Grimoire"@,
    {
        "Wizard's Grimoire"
    }

    fn description(&self) -> (s: &str)
        ensures
            s@ == "Once per floor, preview what your next roll will be before committing."@,
    {
        "Once per floor, preview what your next roll will be before committing."
    }

    fn on_floor_start(&mut self)
        ensures
            !final(self).used(),
    {
        self.used_this_floor = false;
    }
}

// ─── AnyRelic ─────────────────────────────────────────────────────────────────

/// One relic of any kind, as the run state and the shop hold it.
#[derive(Debug, Clone, Copy)]
pub enum AnyRelic {
    LoadedDice(LoadedDice),
    ExtraDieSlot(ExtraDieSlot),
    OneMoreRoll(OneMoreRoll),
    LuckyHorseshoe(LuckyHorseshoe),
    GoblinsHoard(GoblinsHoard),
    CursedChalice(CursedChalice),
    EnchantedQuill(EnchantedQuill),
    ShieldOfTheAncients(ShieldOfTheAncients),
    WizardsGrimoire(WizardsGrimoire),
}

/// The position of a relic's kind in the registry (0 to 8).
pub open spec fn kind_id(r: AnyRelic) -> nat {
    match r {
        AnyRelic::LoadedDice(_) => 0,
        AnyRelic::ExtraDieSlot(_) => 1,
        AnyRelic::OneMoreRoll(_) => 2,
        AnyRelic::LuckyHorseshoe(_) => 3,
        AnyRelic::GoblinsHoard(_) => 4,
        AnyRelic::CursedChalice(_) => 5,
        AnyRelic::EnchantedQuill(_) => 6,
        AnyRelic::ShieldOfTheAncients(_) => 7,
        AnyRelic::WizardsGrimoire(_) => 8,
    }
}

/// The description of the relic of kind `id`.
pub open spec fn relic_description(id: nat) -> Seq<char> {
    if id == 0 {
        "Your first roll each room rerolls any die showing 1 once for free."@
    } else if id == 1 {
        "Adds a 6th die slot to your pool."@
    } else if id == 2 {
        "Gain one extra roll per room."@
    } else if id == 3 {
        "Failing a target costs 5 HP instead of 10."@
    } else if id == 4 {
        "Earn +15 bonus gold when you beat the target by 150% or more."@
    } else if id == 5 {
        "-10 max HP, but all shop prices are 20% cheaper."@
    } else if id == 6 {
        "Once per floor, the best category can be scored again even if already used."@
    } else if id == 7 {
        "The first time you would lose HP each floor, negate the damage."@
    } else {
        "Once per floor, preview what your next roll will be before committing."@
    }
}

/// The name of each kind of relic, by registry position.
pub open spec fn relic_name(id: nat) -> Seq<char> {
    if id == 0 {
        "Loaded Dice"@
    } else if id == 1 {
        "Extra Die Slot"@
    } else if id == 2 {
        "One More Roll"@
    } else if id == 3 {
        "Lucky Horseshoe"@
    } else if id == 4 {
        "Goblin's Hoard"@
    } else if id == 5 {
        "Cursed Chalice"@
    } else if id == 6 {
        "Enchanted Quill"@
    } else if id == 7 {
        "Shield of the Ancients"@
    } else {
        "Wizard's Grimoire"@
    }
}

/// Whether a stateful relic has been used on this floor (false for the
/// others).
pub open spec fn used_on_floor(r: AnyRelic) -> bool {
    match r {
        AnyRelic::EnchantedQuill(q) => q.used(),
        AnyRelic::ShieldOfTheAncients(s) => s.used(),
        AnyRelic::WizardsGrimoire(g) => g.used(),
        _ => false,
    }
}

/// The relic is as `all_relics` makes it: no per-floor flag set.
pub open spec fn is_fresh_relic(r: AnyRelic) -> bool {
    !used_on_floor(r)
}

/// The HP actually lost when `r` sees a loss of `hp`.
pub open spec fn hp_loss_of(r: AnyRelic, hp: u32) -> u32 {
    match r {
        AnyRelic::LuckyHorseshoe(_) => if hp < 5 {
            hp
        } else {
            5
        },
        AnyRelic::ShieldOfTheAncients(s) => if s.used() {
            hp
        } else {
            0
        },
        _ => hp,
    }
}

/// `after` is `before` once it has seen an HP loss: a Shield is marked used,
/// every other relic is unchanged.
pub open spec fn after_hp_loss(before: AnyRelic, after: AnyRelic) -> bool {
    match before {
        AnyRelic::ShieldOfTheAncients(_) => after matches AnyRelic::ShieldOfTheAncients(s)
            && s.used(),
        _ => after == before,
    }
}

/// `after` is `before` at the start of a new floor: a stateful relic has its
/// flag cleared, every other relic is unchanged.
pub open spec fn after_floor_start(before: AnyRelic, after: AnyRelic) -> bool {
    &&& kind_id(after) == kind_id(before)
    &&& !used_on_floor(after)
    &&& match before {
        AnyRelic::EnchantedQuill(_) => true,
        AnyRelic::ShieldOfTheAncients(_) => true,
        AnyRelic::WizardsGrimoire(_) => true,
        _ => after == before,
    }
}

/// Extra rolls per room a relic grants.
pub open spec fn extra_rolls_of(r: AnyRelic) -> nat {
    match r {
        AnyRelic::OneMoreRoll(_) => 1,
        _ => 0,
    }
}

/// Change of the maximum HP a relic applies when acquired.
pub open spec fn max_hp_modifier_of(r: AnyRelic) -> int {
    match r {
        AnyRelic::CursedChalice(_) => -10,
        _ => 0,
    }
}

/// Percentage a relic applies to shop prices.
pub open spec fn price_percent_of(r: AnyRelic) -> nat {
    match r {
        AnyRelic::CursedChalice(_) => 80,
        _ => 100,
    }
}

/// Bonus gold a relic pays after a score of `score` against `target`.
pub open spec fn score_bonus_of(r: AnyRelic, score: usize, target: usize) -> u32 {
    match r {
        AnyRelic::GoblinsHoard(_) => if 2 * score >= 3 * target {
            15
        } else {
            0
        },
        _ => 0,
    }
}

impl AnyRelic {
    /// Whether two relics are of the same kind (and so carry the same name).
    pub fn same_kind(&self, other: &AnyRelic) -> (r: bool)
        ensures
            r == (kind_id(*self) == kind_id(*other)),
    {
        self.kind_number() == other.kind_number()
    }

    fn kind_number(&self) -> (n: u8)
        ensures
            n == kind_id(*self),
    {
        match self {
            AnyRelic::LoadedDice(_) => 0,
            AnyRelic::ExtraDieSlot(_) => 1,
            AnyRelic::OneMoreRoll(_) => 2,
            AnyRelic::LuckyHorseshoe(_) => 3,
            AnyRelic::GoblinsHoard(_) => 4,
            AnyRelic::CursedChalice(_) => 5,
            AnyRelic::EnchantedQuill(_) => 6,
            AnyRelic::ShieldOfTheAncients(_) => 7,
            AnyRelic::WizardsGrimoire(_) => 8,
        }
    }
}

impl Relic for AnyRelic {
    fn name(&self) -> (s: &str)
        ensures
            s@ == relic_name(kind_id(*self)),
    {
        match self {
            AnyRelic::LoadedDice(r) => r.name(),
            AnyRelic::ExtraDieSlot(r) => r.name(),
            AnyRelic::OneMoreRoll(r) => r.name(),
            AnyRelic::LuckyHorseshoe(r) => r.name(),
            AnyRelic::GoblinsHoard(r) => r.name(),
            AnyRelic::CursedChalice(r) => r.name(),
            AnyRelic::EnchantedQuill(r) => r.name(),
            AnyRelic::ShieldOfTheAncients(r) => r.name(),
            AnyRelic::WizardsGrimoire(r) => r.name(),
        }
    }

    fn description(&self) -> (s: &str)
        ensures
            s@ == relic_description(kind_id(*self)),
    {
        match self {
            AnyRelic::LoadedDice(r) => r.description(),
            AnyRelic::ExtraDieSlot(r) => r.description(),
            AnyRelic::OneMoreRoll(r) => r.description(),
            AnyRelic::LuckyHorseshoe(r) => r.description(),
            AnyRelic::GoblinsHoard(r) => r.description(),
            AnyRelic::CursedChalice(r) => r.description(),
            AnyRelic::EnchantedQuill(r) => r.description(),
            AnyRelic::ShieldOfTheAncients(r) => r.description(),
            AnyRelic::WizardsGrimoire(r) => r.description(),
        }
    }

    fn on_roll_start(&mut self, pool: &mut DicePool, first_roll: bool)
        ensures
            match *old(self) {
                AnyRelic::LoadedDice(_) => loaded_dice_reroll(
                    old(pool).dice@,
                    final(pool).dice@,
                    first_roll,
                ),
                _ => final(pool).dice@ == old(pool).dice@,
            },
            final(pool).rolls_remaining == old(pool).rolls_remaining,
            final(pool).max_rolls == old(pool).max_rolls,
            *final(self) == *old(self),
    {
        match self {
            AnyRelic::LoadedDice(r) => r.on_roll_start(pool, first_roll),
            _ => {},
        }
    }

    fn on_hp_loss(&mut self, hp: u32) -> (lost: u32)
        ensures
            lost == hp_loss_of(*old(self), hp),
            after_hp_loss(*old(self), *final(self)),
    {
        match self {
            AnyRelic::LuckyHorseshoe(r) => r.on_hp_loss(hp),
            AnyRelic::ShieldOfTheAncients(r) => r.on_hp_loss(hp),
            _ => hp,
        }
    }

    fn on_score(&self, score: usize, target: usize) -> (gold: u32)
        ensures
            gold == score_bonus_of(*self, score, target),
    {
        match self {
            AnyRelic::GoblinsHoard(r) => r.on_score(score, target),
            _ => 0,
        }
    }

    fn on_floor_start(&mut self)
        ensures
            after_floor_start(*old(self), *final(self)),
    {
        match self {
            AnyRelic::EnchantedQuill(r) => r.on_floor_start(),
            AnyRelic::ShieldOfTheAncients(r) => r.on_floor_start(),
            AnyRelic::WizardsGrimoire(r) => r.on_floor_start(),
            _ => {},
        }
    }

    fn max_hp_modifier(&self) -> (m: i32)
        ensures
            m == max_hp_modifier_of(*self),
    {
        match self {
            AnyRelic::CursedChalice(r) => r.max_hp_modifier(),
            _ => 0,
        }
    }

    fn shop_price_percent(&self) -> (p: u32)
        ensures
            p == price_percent_of(*self),
    {
        match self {
            AnyRelic::CursedChalice(r) => r.shop_price_percent(),
            _ => 100,
        }
    }

    fn extra_rolls(&self) -> (n: u8)
        ensures
            n == extra_rolls_of(*self),
    {
        match self {
            AnyRelic::OneMoreRoll(r) => r.extra_rolls(),
            _ => 0,
        }
    }

    fn on_acquire(&self, pool: &mut DicePool)
        ensures
            match *self {
                AnyRelic::ExtraDieSlot(_) => {
                    &&& final(pool).dice@.len() == old(pool).dice@.len() + 1
                    &&& final(pool).dice@.drop_last() == old(pool).dice@
                    &&& final(pool).dice@.last().is_fresh(
                        DieType::Standard,
                        seq![1u8, 2, 3, 4, 5, 6],
                    )
                },
                _ => final(pool).dice@ == old(pool).dice@,
            },
            final(pool).rolls_remaining == old(pool).rolls_remaining,
            final(pool).max_rolls == old(pool).max_rolls,
    {
        match self {
            AnyRelic::ExtraDieSlot(r) => r.on_acquire(pool),
            _ => {},
        }
    }
}

/// Two fresh relics of the same kind are the same relic.
pub proof fn lemma_fresh_same_kind(a: AnyRelic, b: AnyRelic)
    requires
        is_fresh_relic(a),
        is_fresh_relic(b),
        kind_id(a) == kind_id(b),
    ensures
        a == b,
{
    match (a, b) {
        (AnyRelic::LoadedDice(x), AnyRelic::LoadedDice(y)) => {
            assert(x == y);
        },
        (AnyRelic::ExtraDieSlot(x), AnyRelic::ExtraDieSlot(y)) => {
            assert(x == y);
        },
        (AnyRelic::OneMoreRoll(x), AnyRelic::OneMoreRoll(y)) => {
            assert(x == y);
        },
        (AnyRelic::LuckyHorseshoe(x), AnyRelic::LuckyHorseshoe(y)) => {
            assert(x == y);
        },
        (AnyRelic::GoblinsHoard(x), AnyRelic::GoblinsHoard(y)) => {
            assert(x == y);
        },
        (AnyRelic::CursedChalice(x), AnyRelic::CursedChalice(y)) => {
            assert(x == y);
        },
        (AnyRelic::EnchantedQuill(x), AnyRelic::EnchantedQuill(y)) => {
            assert(x.used_this_floor == y.used_this_floor);
        },
        (AnyRelic::ShieldOfTheAncients(x), AnyRelic::ShieldOfTheAncients(y)) => {
            assert(x.used_this_floor == y.used_this_floor);
        },
        (AnyRelic::WizardsGrimoire(x), AnyRelic::WizardsGrimoire(y)) => {
            assert(x.used_this_floor == y.used_this_floor);
        },
        _ => {},
    }
}

/// The Shield of the Ancients negates the first HP loss after the start of
/// a floor and lets every later loss of that floor through.
pub proof fn law_shield_once_per_floor(
    start: AnyRelic,
    fresh: AnyRelic,
    hit: AnyRelic,
    first: u32,
    second: u32,
)
    requires
        start is ShieldOfTheAncients,
        after_floor_start(start, fresh),
        after_hp_loss(fresh, hit),
    ensures
        hp_loss_of(fresh, first) == 0,
        hp_loss_of(hit, second) == second,
{
}

/// The Lucky Horseshoe caps any HP loss at 5: a failed room's 10 HP cost
/// becomes 5, smaller losses pass unchanged.
pub proof fn law_horseshoe_cap(r: AnyRelic, hp: u32)
    requires
        r is LuckyHorseshoe,
    ensures
        hp_loss_of(r, hp) <= 5,
        hp_loss_of(r, hp) <= hp,
        hp <= 5 ==> hp_loss_of(r, hp) == hp,
        hp_loss_of(r, 10) == 5,
{
}

/// Every kind of relic has its own name, so telling relics apart by kind
/// is telling them apart by name.
pub proof fn law_relic_names_distinct(i: nat, j: nat)
    requires
        i < RELIC_KINDS,
        j < RELIC_KINDS,
        i != j,
    ensures
        relic_name(i) != relic_name(j),
{
    reveal_strlit("Loaded Dice");
    reveal_strlit("Extra Die Slot");
    reveal_strlit("One More Roll");
    reveal_strlit("Lucky Horseshoe");
    reveal_strlit("Goblin's Hoard");
    reveal_strlit("Cursed Chalice");
    reveal_strlit("Enchanted Quill");
    reveal_strlit("Shield of the Ancients");
    reveal_strlit("Wizard's Grimoire");
    if relic_name(i) == relic_name(j) {
        assert(relic_name(i).len() == relic_name(j).len());
        assert(relic_name(i)[0] == relic_name(j)[0]);
    }
}

// ─── Registry ─────────────────────────────────────────────────────────────────

/// The number of kinds of relic.
pub const RELIC_KINDS: usize = 9;

/// One fresh relic of every kind, in registry order. Callers filter out
/// the relics already held before sampling.
pub fn all_relics() -> (v: Vec<AnyRelic>)
    ensures
        v@.len() == RELIC_KINDS,
        forall|i: int| 0 <= i < RELIC_KINDS ==> kind_id(#[trigger] v@[i]) == i,
        forall|i: int| 0 <= i < RELIC_KINDS ==> is_fresh_relic(#[trigger] v@[i]),
{
    let mut v: Vec<AnyRelic> = Vec::new();
    v.push(AnyRelic::LoadedDice(LoadedDice));
    v.push(AnyRelic::ExtraDieSlot(ExtraDieSlot));
    v.push(AnyRelic::OneMoreRoll(OneMoreRoll));
    v.push(AnyRelic::LuckyHorseshoe(LuckyHorseshoe));
    v.push(AnyRelic::GoblinsHoard(GoblinsHoard));
    v.push(AnyRelic::CursedChalice(CursedChalice));
    v.push(AnyRelic::EnchantedQuill(EnchantedQuill::new()));
    v.push(AnyRelic::ShieldOfTheAncients(ShieldOfTheAncients::new()));
    v.push(AnyRelic::WizardsGrimoire(WizardsGrimoire::new()));
    v
}

} // verus!
