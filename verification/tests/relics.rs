use dungeon_dice::dice::DicePool;
use dungeon_dice::relics::{
    all_relics, AnyRelic, CursedChalice, EnchantedQuill, ExtraDieSlot, GoblinsHoard, LoadedDice,
    LuckyHorseshoe, OneMoreRoll, Relic, ShieldOfTheAncients, WizardsGrimoire,
};

// Minimal relic overriding nothing but the required name()/description(),
// used to exercise the trait's default hook implementations.
struct DummyRelic;

impl Relic for DummyRelic {
    fn name(&self) -> &str {
        "Dummy"
    }
    fn description(&self) -> &str {
        "does nothing"
    }
}

// Default hooks: HP loss passes through, no score/HP/price/roll modifiers,
// and the no-op hooks don't panic.
#[test]
fn test_relic_trait_defaults() {
    let mut relic = DummyRelic;
    assert_eq!(relic.on_hp_loss(7), 7);
    assert_eq!(relic.on_score(10, 20), 0);
    assert_eq!(relic.max_hp_modifier(), 0);
    assert_eq!(relic.shop_price_percent(), 100);
    assert_eq!(relic.extra_rolls(), 0);

    relic.on_floor_start();
    let mut pool = DicePool::new();
    relic.on_roll_start(&mut pool, true);
    relic.on_acquire(&mut pool);
}

// OneMoreRoll: flat +1 roll per room
#[test]
fn test_one_more_roll() {
    assert_eq!(OneMoreRoll.extra_rolls(), 1);
}

// CursedChalice: -10 max HP, 20% cheaper shop prices
#[test]
fn test_cursed_chalice() {
    assert_eq!(CursedChalice.max_hp_modifier(), -10);
    assert_eq!(CursedChalice.shop_price_percent(), 80);
}

// LoadedDice: on the first roll, dice showing 1 are rerolled to a valid face;
// dice not showing 1 are untouched. On a later roll, nothing is rerolled.
#[test]
fn test_loaded_dice() {
    let mut relic = LoadedDice;
    let mut pool = DicePool::new();
    // Standard die faces are [1,2,3,4,5,6]; index 0 shows 1, index 3 shows 4.
    pool.dice[0].current_value = pool.dice[0].faces()[0];
    pool.dice[1].current_value = pool.dice[1].faces()[3];

    relic.on_roll_start(&mut pool, true);
    assert!((1..=6).contains(&pool.dice[0].current_value.get_value()));
    assert_eq!(pool.dice[1].current_value.get_value(), 4);

    pool.dice[0].current_value = pool.dice[0].faces()[0];
    relic.on_roll_start(&mut pool, false);
    assert_eq!(pool.dice[0].current_value.get_value(), 1);
}

// ExtraDieSlot: adds one Standard d6 to the pool on acquire
#[test]
fn test_extra_die_slot() {
    let relic = ExtraDieSlot;
    let mut pool = DicePool::new();
    let before = pool.dice.len();

    relic.on_acquire(&mut pool);

    assert_eq!(pool.dice.len(), before + 1);
    assert_eq!(pool.dice.last().unwrap().label(), "D6");
}

// LuckyHorseshoe: HP loss capped at 5
#[test]
fn test_lucky_horseshoe() {
    let mut relic = LuckyHorseshoe;
    assert_eq!(relic.on_hp_loss(10), 5);
    assert_eq!(relic.on_hp_loss(3), 3);
}

// GoblinsHoard: +15 gold at 150%+ of target, 0 below, boundary is inclusive
#[test]
fn test_goblins_hoard() {
    let relic = GoblinsHoard;
    assert_eq!(relic.on_score(29, 20), 0);
    assert_eq!(relic.on_score(30, 20), 15);
    assert_eq!(relic.on_score(31, 20), 15);
}

// Shield of the Ancients: the first loss of a floor is negated, the next
// passes; a new floor restores the shield.
#[test]
fn shield_negates_first_loss_per_floor() {
    let mut shield = ShieldOfTheAncients::new();
    assert_eq!(shield.on_hp_loss(10), 0);
    assert_eq!(shield.on_hp_loss(10), 10);
    shield.on_floor_start();
    assert_eq!(shield.on_hp_loss(7), 0);
}

// Quill and Grimoire can be used once per floor.
#[test]
fn once_per_floor_relics() {
    let mut quill = EnchantedQuill::new();
    assert!(quill.try_use());
    assert!(!quill.try_use());
    quill.on_floor_start();
    assert!(quill.try_use());

    let mut grimoire = WizardsGrimoire::new();
    assert!(grimoire.try_use());
    assert!(!grimoire.try_use());
    grimoire.on_floor_start();
    assert!(grimoire.try_use());
}

// The registry holds one relic of each kind, with distinct names.
#[test]
fn registry_lists_every_relic_once() {
    let relics = all_relics();
    let names: Vec<&str> = relics.iter().map(|r| r.name()).collect();
    assert_eq!(
        names,
        vec![
            "Loaded Dice",
            "Extra Die Slot",
            "One More Roll",
            "Lucky Horseshoe",
            "Goblin's Hoard",
            "Cursed Chalice",
            "Enchanted Quill",
            "Shield of the Ancients",
            "Wizard's Grimoire",
        ]
    );
    for (i, a) in relics.iter().enumerate() {
        for (j, b) in relics.iter().enumerate() {
            assert_eq!(a.same_kind(b), i == j);
        }
    }
}

// A relic held as AnyRelic behaves as its kind does.
#[test]
fn any_relic_dispatches() {
    let mut horseshoe = AnyRelic::LuckyHorseshoe(LuckyHorseshoe);
    assert_eq!(horseshoe.on_hp_loss(10), 5);
    let chalice = AnyRelic::CursedChalice(CursedChalice);
    assert_eq!(chalice.max_hp_modifier(), -10);
    assert_eq!(chalice.shop_price_percent(), 80);
    let hoard = AnyRelic::GoblinsHoard(GoblinsHoard);
    assert_eq!(hoard.on_score(30, 20), 15);
    let more = AnyRelic::OneMoreRoll(OneMoreRoll);
    assert_eq!(more.extra_rolls(), 1);
    assert_eq!(more.description(), "Gain one extra roll per room.");
}

#[test]
fn goblins_hoard_needs_a_full_half_more() {
    let relic = GoblinsHoard;
    // 31 is below 150% of 21 (31.5).
    assert_eq!(relic.on_score(31, 21), 0);
    assert_eq!(relic.on_score(32, 21), 15);
    assert_eq!(relic.on_score(usize::MAX, usize::MAX / 2), 15);
    assert_eq!(relic.on_score(usize::MAX, usize::MAX), 0);
}
