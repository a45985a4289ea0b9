//! Shop item catalog and generation.
//!
//! A shop is offered after every successful Challenge or Elite room. Its
//! items are drawn from the relic registry (without the relics already
//! held), a random special die (only if a Standard die can be replaced), an
//! HP potion (only if HP is missing) and one die upgrade.
//!
//! Prices are computed at generation time from the base prices and the
//! price percentages of the relics the player holds (Cursed Chalice: 80%).

use vstd::prelude::*;
use rand::rngs::ThreadRng;

use crate::dice::{Die, DieType, has_standard};
use crate::game::{GameState, UpgradeKind};
use crate::random::{random_in_range, shuffle};
use crate::relics::{
    AnyRelic,
    Relic,
    all_relics,
    is_fresh_relic,
    kind_id,
    lemma_fresh_same_kind,
    price_percent_of,
    relic_description,
    relic_name,
    RELIC_KINDS,
};
use crate::text::{decimal, decimal_string};

verus! {

/// Base price of a relic.
pub const RELIC_BASE_PRICE: u32 = 75;

/// Base price of a special die.
pub const SPECIAL_DIE_BASE_PRICE: u32 = 50;

/// Base price of an HP potion.
pub const HP_POTION_BASE_PRICE: u32 = 40;

/// HP an HP potion restores.
pub const HP_POTION_HEAL: u32 = 15;

/// Base price of a die upgrade.
pub const DIE_UPGRADE_BASE_PRICE: u32 = 60;

// ─── SpecialDieKind ───────────────────────────────────────────────────────────

#[derive(Debug, Clone, Copy, PartialEq, Eq, Structural)]
pub enum SpecialDieKind {
    Wild,
    Cursed,
    Bones,
}

/// The name of a special die in the shop.
pub open spec fn special_die_name(k: SpecialDieKind) -> Seq<char> {
    match k {
        SpecialDieKind::Wild => "Wild Die"@,
        SpecialDieKind::Cursed => "Cursed Die"@,
        SpecialDieKind::Bones => "Dragon Bones"@,
    }
}

/// The description of a special die in the shop.
pub open spec fn special_die_description(k: SpecialDieKind) -> Seq<char> {
    match k {
        SpecialDieKind::Wild => "One face is WILD: scores as any value"@,
        SpecialDieKind::Cursed => "Three faces show 1; powerful if held carefully"@,
        SpecialDieKind::Bones => "D8 die: faces 1-8, values >6 cap at 6 for combos"@,
    }
}

/// The die a special die purchase gives.
pub open spec fn special_die_made(k: SpecialDieKind, d: Die) -> bool {
    match k {
        SpecialDieKind::Wild => d.is_fresh(DieType::Wild, seq![1u8, 2, 3, 4, 5, 0]),
        SpecialDieKind::Cursed => d.is_fresh(DieType::Cursed, seq![1u8, 1, 1, 2, 5, 6]),
        SpecialDieKind::Bones => d.is_fresh(DieType::Bones, seq![1u8, 2, 3, 4, 5, 6, 7, 8]),
    }
}

impl SpecialDieKind {
    pub fn name(&self) -> (s: &str)
        ensures
            s@ == special_die_name(*self),
    {
        match self {
            SpecialDieKind::Wild => "Wild Die",
            SpecialDieKind::Cursed => "Cursed Die",
            SpecialDieKind::Bones => "Dragon Bones",
        }
    }

    pub fn description(&self) -> (s: &str)
        ensures
            s@ == special_die_description(*self),
    {
        match self {
            SpecialDieKind::Wild => "One face is WILD: scores as any value",
            SpecialDieKind::Cursed => "Three faces show 1; powerful if held carefully",
            SpecialDieKind::Bones => "D8 die: faces 1-8, values >6 cap at 6 for combos",
        }
    }

    pub fn create_die(&self) -> (d: Die)
        ensures
            special_die_made(*self, d),
            d.wf(),
    {
        let d = match self {
            SpecialDieKind::Wild => Die::wild(),
            SpecialDieKind::Cursed => Die::cursed(),
            SpecialDieKind::Bones => Die::bones(),
        };
        assert(crate::dice::values_of(d.faces_view()).len() > 0);
        d
    }
}

// ─── ShopItem ─────────────────────────────────────────────────────────────────

#[derive(Debug, Clone, Copy)]
pub struct ShopItem {
    pub kind: ShopItemKind,
    pub price: u32,
}

#[derive(Debug, Clone, Copy)]
pub enum ShopItemKind {
    Relic(AnyRelic),
    SpecialDie(SpecialDieKind),
    /// Heal amount.
    HpPotion(u32),
    DieUpgrade(UpgradeKind),
}

/// The name of a shop item.
pub open spec fn item_name(kind: ShopItemKind) -> Seq<char> {
    match kind {
        ShopItemKind::Relic(r) => relic_name(kind_id(r)),
        ShopItemKind::SpecialDie(k) => special_die_name(k),
        ShopItemKind::HpPotion(_) => "HP Potion"@,
        ShopItemKind::DieUpgrade(UpgradeKind::Augment) => "Augment"@,
        ShopItemKind::DieUpgrade(UpgradeKind::Enchant) => "Enchant"@,
    }
}

/// The description of a shop item.
pub open spec fn item_description(kind: ShopItemKind) -> Seq<char> {
    match kind {
        ShopItemKind::Relic(r) => relic_description(kind_id(r)),
        ShopItemKind::SpecialDie(k) => special_die_description(k),
        ShopItemKind::HpPotion(amt) => "Restore "@ + decimal(amt as nat) + " HP"@,
        ShopItemKind::DieUpgrade(UpgradeKind::Augment) => "Pick a die face: raise its value by 1"@,
        ShopItemKind::DieUpgrade(UpgradeKind::Enchant) => "Pick a die face: add +5 bonus score on roll"@,
    }
}

impl ShopItem {
    pub fn name(&self) -> (s: &str)
        ensures
            s@ == item_name(self.kind),
    {
        match &self.kind {
            ShopItemKind::Relic(r) => r.name(),
            ShopItemKind::SpecialDie(k) => k.name(),
            ShopItemKind::HpPotion(_) => "HP Potion",
            ShopItemKind::DieUpgrade(UpgradeKind::Augment) => "Augment",
            ShopItemKind::DieUpgrade(UpgradeKind::Enchant) => "Enchant",
        }
    }

    pub fn description(&self) -> (s: String)
        ensures
            s@ == item_description(self.kind),
    {
        match &self.kind {
            ShopItemKind::Relic(r) => String::from_str(r.description()),
            ShopItemKind::SpecialDie(k) => String::from_str(k.description()),
            ShopItemKind::HpPotion(amt) => {
                let mut s = String::from_str("Restore ");
                let n = decimal_string(*amt as usize);
                s.append(n.as_str());
                s.append(" HP");
                s
            },
            ShopItemKind::DieUpgrade(UpgradeKind::Augment) => String::from_str(
                "Pick a die face: raise its value by 1",
            ),
            ShopItemKind::DieUpgrade(UpgradeKind::Enchant) => String::from_str(
                "Pick a die face: add +5 bonus score on roll",
            ),
        }
    }
}

// ─── Generation ───────────────────────────────────────────────────────────────

/// The price percentage from all the relics held: each relic's percentage
/// applied in turn, rounded down to a whole percent.
pub open spec fn price_percent_total(relics: Seq<AnyRelic>) -> nat
    decreases relics.len(),
{
    if relics.len() == 0 {
        100
    } else {
        price_percent_total(relics.drop_last()) * price_percent_of(relics.last()) / 100
    }
}

/// Holding the Cursed Chalice alone makes every price 80% of its base
/// price (rounded half up); holding no relic leaves the base prices.
pub proof fn law_chalice_discount(chalice: AnyRelic, base: u32)
    requires
        chalice is CursedChalice,
    ensures
        price_percent_total(seq![chalice]) == 80,
        price_percent_total(Seq::<AnyRelic>::empty()) == 100,
        scaled_price(base, 100) == base,
{
    let one = seq![chalice];
    assert(one.drop_last() =~= Seq::<AnyRelic>::empty());
    assert(one.last() == chalice);
    assert(price_percent_total(one.drop_last()) == 100);
    assert(price_percent_of(chalice) == 80);
    assert(price_percent_total(one) == 100 * 80 / 100);
}

/// Without a Cursed Chalice every price is its base price.
proof fn lemma_no_chalice_full_price(relics: Seq<AnyRelic>)
    requires
        forall|j: int| 0 <= j < relics.len() ==> !(#[trigger] relics[j] is CursedChalice),
    ensures
        price_percent_total(relics) == 100,
    decreases relics.len(),
{
    if relics.len() > 0 {
        let init = relics.drop_last();
        assert forall|j: int| 0 <= j < init.len() implies !(#[trigger] init[j] is CursedChalice) by {
            assert(init[j] == relics[j]);
        }
        lemma_no_chalice_full_price(init);
        assert(!(relics[relics.len() - 1] is CursedChalice));
    }
}

/// A relic other than the Cursed Chalice changes no price: adding one
/// anywhere among the relics held leaves the price percentage as it was.
pub proof fn law_other_relic_keeps_prices(relics: Seq<AnyRelic>, k: int, r: AnyRelic)
    requires
        0 <= k <= relics.len(),
        !(r is CursedChalice),
    ensures
        price_percent_total(relics.insert(k, r)) == price_percent_total(relics),
    decreases relics.len(),
{
    let s = relics.insert(k, r);
    if k == relics.len() {
        assert(s.drop_last() =~= relics);
        assert(s.last() == r);
    } else {
        let init = relics.drop_last();
        law_other_relic_keeps_prices(init, k, r);
        assert(s.drop_last() =~= init.insert(k, r));
        assert(s.last() == relics.last());
    }
}

/// The Cursed Chalice takes 20% off every price wherever it stands among
/// the relics held, the others changing no price: the percentage is the
/// product of all the relics' percentages, not that of one of them.
pub proof fn law_chalice_discount_anywhere(relics: Seq<AnyRelic>, k: int)
    requires
        0 <= k < relics.len(),
        relics[k] is CursedChalice,
        forall|j: int|
            0 <= j < relics.len() && j != k ==> !(#[trigger] relics[j] is CursedChalice),
    ensures
        price_percent_total(relics) == 80,
    decreases relics.len(),
{
    let init = relics.drop_last();
    if k == relics.len() - 1 {
        assert forall|j: int| 0 <= j < init.len() implies !(#[trigger] init[j] is CursedChalice) by {
            assert(init[j] == relics[j]);
        }
        lemma_no_chalice_full_price(init);
    } else {
        assert(init[k] == relics[k]);
        assert forall|j: int| 0 <= j < init.len() && j != k implies !(
        #[trigger] init[j] is CursedChalice) by {
            assert(init[j] == relics[j]);
        }
        law_chalice_discount_anywhere(init, k);
        assert(!(relics[relics.len() - 1] is CursedChalice));
    }
}

/// A base price scaled by a percentage, rounded half up.
pub open spec fn scaled_price(base: u32, percent: nat) -> nat {
    ((base as nat) * percent + 50) / 100
}

/// Whether a relic of kind `id` is among `relics`.
pub open spec fn owns_kind(relics: Seq<AnyRelic>, id: nat) -> bool {
    exists|i: int| 0 <= i < relics.len() && kind_id(#[trigger] relics[i]) == id
}

/// How many kinds below `n` are not among `relics`.
pub open spec fn unowned_count(relics: Seq<AnyRelic>, n: nat) -> nat
    decreases n,
{
    if n == 0 {
        0
    } else {
        unowned_count(relics, (n - 1) as nat) + if owns_kind(relics, (n - 1) as nat) {
            0nat
        } else {
            1nat
        }
    }
}

/// How many relics a shop offers: two, or fewer when fewer kinds are left.
pub open spec fn relic_offer_count(owned: Seq<AnyRelic>) -> nat {
    if unowned_count(owned, RELIC_KINDS as nat) < 2 {
        unowned_count(owned, RELIC_KINDS as nat)
    } else {
        2
    }
}

/// `items` is a shop for a player holding `owned`, with a Standard die to
/// replace or not, missing HP or not: first up to two relics the player does
/// not hold (fresh, of different kinds), then a special die if a Standard
/// die can be replaced (the one a draw in `0..3` picks), an HP potion if HP
/// is missing, and a die upgrade (the one a draw in `0..2` picks);
/// each at its base price scaled by the relics' price percentage.
pub open spec fn is_shop_for(
    items: Seq<ShopItem>,
    owned: Seq<AnyRelic>,
    has_std: bool,
    hp_missing: bool,
) -> bool {
    let pct = price_percent_total(owned);
    let n = relic_offer_count(owned);
    let special: nat = if has_std {
        1
    } else {
        0
    };
    let potion: nat = if hp_missing {
        1
    } else {
        0
    };
    &&& items.len() == n + special + potion + 1
    &&& forall|i: int|
        0 <= i < n ==> {
            &&& (#[trigger] items[i]).kind matches ShopItemKind::Relic(r) && is_fresh_relic(r)
                && !owns_kind(owned, kind_id(r))
            &&& items[i].price == scaled_price(RELIC_BASE_PRICE, pct)
        }
    &&& n == 2 ==> (items[0].kind matches ShopItemKind::Relic(a) && items[1].kind matches ShopItemKind::Relic(b)
        && kind_id(a) != kind_id(b))
    &&& has_std ==> (exists|d: usize|
        d < 3 && items[n as int].kind == ShopItemKind::SpecialDie(#[trigger] special_die_of_draw(d)))
        && items[n as int].price == scaled_price(SPECIAL_DIE_BASE_PRICE, pct)
    &&& hp_missing ==> items[(n + special) as int].kind == ShopItemKind::HpPotion(HP_POTION_HEAL)
        && items[(n + special) as int].price == scaled_price(HP_POTION_BASE_PRICE, pct)
    &&& (exists|d: usize|
        d < 2 && items.last().kind == ShopItemKind::DieUpgrade(#[trigger] upgrade_of_draw(d)))
    &&& items.last().price == scaled_price(DIE_UPGRADE_BASE_PRICE, pct)
}

proof fn lemma_price_percent_le(relics: Seq<AnyRelic>)
    ensures
        price_percent_total(relics) <= 100,
    decreases relics.len(),
{
    if relics.len() > 0 {
        lemma_price_percent_le(relics.drop_last());
        let p = price_percent_total(relics.drop_last());
        let q = price_percent_of(relics.last());
        assert(p * q <= 100 * 100) by (nonlinear_arith)
            requires
                p <= 100,
                q <= 100,
        ;
        assert(p * q / 100 <= 100) by (nonlinear_arith)
            requires
                p * q <= 100 * 100,
        ;
    }
}

/// The price percentage from all the relics held.
fn price_percent(relics: &Vec<AnyRelic>) -> (pct: u32)
    ensures
        pct == price_percent_total(relics@),
        pct <= 100,
{
    let mut pct: u32 = 100;
    let mut i: usize = 0;
    while i < relics.len()
        invariant
            i <= relics@.len(),
            pct == price_percent_total(relics@.take(i as int)),
            pct <= 100,
        decreases relics@.len() - i,
    {
        proof {
            assert(relics@.take(i + 1).drop_last() =~= relics@.take(i as int));
            lemma_price_percent_le(relics@.take(i + 1));
        }
        let p = relics[i].shop_price_percent();
        assert(pct * p <= 100 * 100) by (nonlinear_arith)
            requires
                pct <= 100,
                p <= 100,
        ;
        pct = pct * p / 100;
        i = i + 1;
    }
    assert(relics@.take(relics@.len() as int) =~= relics@);
    pct
}

/// A base price scaled by a percentage, rounded half up.
fn price(base: u32, pct: u32) -> (p: u32)
    requires
        base <= 100,
        pct <= 100,
    ensures
        p == scaled_price(base, pct as nat),
{
    assert(base * pct <= 100 * 100) by (nonlinear_arith)
        requires
            base <= 100,
            pct <= 100,
    ;
    (base * pct + 50) / 100
}

/// Whether a relic of the same kind as `r` is among `owned`.
fn owns_same_kind(owned: &Vec<AnyRelic>, r: &AnyRelic) -> (b: bool)
    ensures
        b == owns_kind(owned@, kind_id(*r)),
{
    let mut i: usize = 0;
    while i < owned.len()
        invariant
            i <= owned@.len(),
            forall|j: int| 0 <= j < i ==> kind_id(#[trigger] owned@[j]) != kind_id(*r),
        decreases owned@.len() - i,
    {
        if owned[i].same_kind(r) {
            return true;
        }
        i = i + 1;
    }
    false
}

/// The relics of the registry that the player does not hold, in registry
/// order.
fn unowned_relics(owned: &Vec<AnyRelic>) -> (c: Vec<AnyRelic>)
    ensures
        c@.len() == unowned_count(owned@, RELIC_KINDS as nat),
        forall|i: int|
            0 <= i < c@.len() ==> is_fresh_relic(#[trigger] c@[i]) && !owns_kind(
                owned@,
                kind_id(c@[i]),
            ),
        forall|i: int, j: int| 0 <= i < j < c@.len() ==> kind_id(c@[i]) < kind_id(c@[j]),
{
    let all = all_relics();
    let mut c: Vec<AnyRelic> = Vec::new();
    let mut rest = all;
    let mut i: usize = 0;
    while i < RELIC_KINDS
        invariant
            i <= RELIC_KINDS,
            rest@.len() == RELIC_KINDS - i,
            forall|k: int| 0 <= k < rest@.len() ==> kind_id(#[trigger] rest@[k]) == i + k,
            forall|k: int| 0 <= k < rest@.len() ==> is_fresh_relic(#[trigger] rest@[k]),
            c@.len() == unowned_count(owned@, i as nat),
            forall|k: int|
                0 <= k < c@.len() ==> is_fresh_relic(#[trigger] c@[k]) && !owns_kind(
                    owned@,
                    kind_id(c@[k]),
                ) && kind_id(c@[k]) < i,
            forall|a: int, b: int| 0 <= a < b < c@.len() ==> kind_id(c@[a]) < kind_id(c@[b]),
        decreases RELIC_KINDS - i,
    {
        let r = rest.remove(0);
        assert(kind_id(r) == i);
        if !owns_same_kind(owned, &r) {
            c.push(r);
        }
        i = i + 1;
    }
    c
}

/// The special die a draw in `0..3` offers: 0 a Wild die, 1 a Cursed die,
/// 2 Dragon Bones.
pub open spec fn special_die_of_draw(draw: usize) -> SpecialDieKind {
    if draw == 0 {
        SpecialDieKind::Wild
    } else if draw == 1 {
        SpecialDieKind::Cursed
    } else {
        SpecialDieKind::Bones
    }
}

/// The upgrade a draw in `0..2` offers: 0 Augment, 1 Enchant.
pub open spec fn upgrade_of_draw(draw: usize) -> UpgradeKind {
    if draw == 0 {
        UpgradeKind::Augment
    } else {
        UpgradeKind::Enchant
    }
}

/// The special die offered for a draw.
pub fn special_die_for_draw(draw: usize) -> (k: SpecialDieKind)
    ensures
        k == special_die_of_draw(draw),
{
    if draw == 0 {
        SpecialDieKind::Wild
    } else if draw == 1 {
        SpecialDieKind::Cursed
    } else {
        SpecialDieKind::Bones
    }
}

/// The upgrade offered for a draw.
pub fn upgrade_for_draw(draw: usize) -> (k: UpgradeKind)
    ensures
        k == upgrade_of_draw(draw),
{
    if draw == 0 {
        UpgradeKind::Augment
    } else {
        UpgradeKind::Enchant
    }
}

/// Generate the items of a shop for the current run state.
pub fn generate_shop_items(state: &GameState, rng: &mut ThreadRng) -> (items: Vec<ShopItem>)
    ensures
        is_shop_for(
            items@,
            state.relics@,
            has_standard(state.dice_pool.dice@),
            state.hp < state.max_hp,
        ),
{
    let pct = price_percent(&state.relics);
    let mut candidates = unowned_relics(&state.relics);
    let ghost before = candidates@;
    proof {
        assert(before.no_duplicates()) by {
            assert forall|i: int, j: int|
                0 <= i < before.len() && 0 <= j < before.len() && i != j implies before[i]
                != before[j] by {
                if i < j {
                    assert(kind_id(before[i]) < kind_id(before[j]));
                } else {
                    assert(kind_id(before[j]) < kind_id(before[i]));
                }
            }
        }
        before.lemma_multiset_has_no_duplicates();
    }
    shuffle(&mut candidates, rng);
    proof {
        broadcast use vstd::seq_lib::group_to_multiset_ensures;
        assert forall|x: AnyRelic| candidates@.to_multiset().contains(x) implies candidates@.to_multiset().count(x) == 1 by {
            assert(before.to_multiset().contains(x));
        }
        candidates@.lemma_multiset_has_no_duplicates_conv();
        assert forall|i: int| 0 <= i < candidates@.len() implies before.contains(#[trigger] candidates@[i]) by {
            assert(candidates@.to_multiset().count(candidates@[i]) > 0);
        }
    }
    let ghost shuffled = candidates@;
    let mut items: Vec<ShopItem> = Vec::new();
    let mut k: usize = 0;
    let take = if candidates.len() < 2 {
        candidates.len()
    } else {
        2
    };
    while k < take
        invariant
            k <= take,
            take == relic_offer_count(state.relics@),
            take <= candidates@.len() + k,
            candidates@ == shuffled.skip(k as int),
            shuffled.len() == before.len(),
            before.len() == unowned_count(state.relics@, RELIC_KINDS as nat),
            pct == price_percent_total(state.relics@),
            pct <= 100,
            items@.len() == k,
            forall|i: int|
                0 <= i < k ==> (#[trigger] items@[i]).kind == ShopItemKind::Relic(shuffled[i])
                    && items@[i].price == scaled_price(RELIC_BASE_PRICE, pct as nat),
        decreases take - k,
    {
        let r = candidates.remove(0);
        assert(candidates@ =~= shuffled.skip(k + 1));
        items.push(ShopItem { kind: ShopItemKind::Relic(r), price: price(RELIC_BASE_PRICE, pct) });
        k = k + 1;
    }
    proof {
        assert forall|i: int| 0 <= i < take implies {
            &&& (#[trigger] items@[i]).kind matches ShopItemKind::Relic(r) && is_fresh_relic(r)
                && !owns_kind(state.relics@, kind_id(r))
        } by {
            let j = choose|j: int| 0 <= j < before.len() && before[j] == shuffled[i];
            assert(before[j] == shuffled[i]);
        }
        if take == 2 {
            let j0 = choose|j: int| 0 <= j < before.len() && before[j] == shuffled[0];
            let j1 = choose|j: int| 0 <= j < before.len() && before[j] == shuffled[1];
            assert(before[j0] == shuffled[0]);
            assert(before[j1] == shuffled[1]);
            if kind_id(shuffled[0]) == kind_id(shuffled[1]) {
                lemma_fresh_same_kind(shuffled[0], shuffled[1]);
            }
        }
    }
    let has_std = state.dice_pool.has_standard_die();
    if has_std {
        let kind = special_die_for_draw(random_in_range(rng, 0, 3));
        items.push(
            ShopItem { kind: ShopItemKind::SpecialDie(kind), price: price(SPECIAL_DIE_BASE_PRICE, pct) },
        );
    }
    if state.hp < state.max_hp {
        items.push(
            ShopItem {
                kind: ShopItemKind::HpPotion(HP_POTION_HEAL),
                price: price(HP_POTION_BASE_PRICE, pct),
            },
        );
    }
    let upgrade_kind = upgrade_for_draw(random_in_range(rng, 0, 2));
    items.push(
        ShopItem { kind: ShopItemKind::DieUpgrade(upgrade_kind), price: price(DIE_UPGRADE_BASE_PRICE, pct) },
    );
    items
}

} // verus!
