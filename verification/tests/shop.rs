use dungeon_dice::dice::{Die, DicePool};
use dungeon_dice::game::{GameState, UpgradeKind};
use dungeon_dice::random::thread_rng;
use dungeon_dice::relics::{AnyRelic, CursedChalice, Relic};
use dungeon_dice::shop::{
    generate_shop_items, special_die_for_draw, upgrade_for_draw, ShopItem, ShopItemKind,
    SpecialDieKind,
};

#[test]
fn special_dice() {
    assert_eq!(SpecialDieKind::Wild.name(), "Wild Die");
    assert_eq!(SpecialDieKind::Bones.name(), "Dragon Bones");
    assert_eq!(SpecialDieKind::Cursed.create_die().label(), "C6");
    assert_eq!(SpecialDieKind::Bones.create_die().label(), "D8");
    assert_eq!(
        SpecialDieKind::Wild.description(),
        "One face is WILD: scores as any value"
    );
}

#[test]
fn item_names_and_descriptions() {
    let potion = ShopItem { kind: ShopItemKind::HpPotion(15), price: 40 };
    assert_eq!(potion.name(), "HP Potion");
    assert_eq!(potion.description(), "Restore 15 HP");
    let up = ShopItem { kind: ShopItemKind::DieUpgrade(UpgradeKind::Enchant), price: 60 };
    assert_eq!(up.name(), "Enchant");
    assert_eq!(up.description(), "Pick a die face: add +5 bonus score on roll");
}

#[test]
fn full_health_shop() {
    let mut rng = thread_rng();
    let state = GameState::new(&mut rng);
    let items = generate_shop_items(&state, &mut rng);
    // two relics, a special die, no potion at full HP, one upgrade
    assert_eq!(items.len(), 4);
    assert!(matches!(items[0].kind, ShopItemKind::Relic(_)));
    assert!(matches!(items[1].kind, ShopItemKind::Relic(_)));
    assert_eq!(items[0].price, 75);
    assert_ne!(items[0].name(), items[1].name());
    assert!(matches!(items[2].kind, ShopItemKind::SpecialDie(_)));
    assert_eq!(items[2].price, 50);
    assert!(matches!(items[3].kind, ShopItemKind::DieUpgrade(_)));
    assert_eq!(items[3].price, 60);
}

#[test]
fn chalice_discounts_and_is_not_offered_again() {
    let mut rng = thread_rng();
    let mut state = GameState::new(&mut rng);
    state.acquire_relic(AnyRelic::CursedChalice(CursedChalice));
    state.dice_pool = DicePool::with_dice(vec![Die::wild()], 3);
    for _ in 0..20 {
        let items = generate_shop_items(&state, &mut rng);
        // two relics and an upgrade: no special die without a standard die,
        // and no potion, since HP was capped to the lowered maximum
        assert_eq!(items.len(), 3);
        for item in &items[..2] {
            match &item.kind {
                ShopItemKind::Relic(r) => assert_ne!(r.name(), "Cursed Chalice"),
                _ => panic!("expected a relic"),
            }
            assert_eq!(item.price, 60);
        }
        assert_eq!(items[2].price, 48);
    }
}

#[test]
fn potion_when_hurt() {
    let mut rng = thread_rng();
    let mut state = GameState::new(&mut rng);
    state.take_damage(5);
    let items = generate_shop_items(&state, &mut rng);
    assert_eq!(items.len(), 5);
    assert!(matches!(items[3].kind, ShopItemKind::HpPotion(15)));
    assert_eq!(items[3].price, 40);
}

#[test]
fn draws_pick_the_offered_kinds() {
    assert_eq!(special_die_for_draw(0), SpecialDieKind::Wild);
    assert_eq!(special_die_for_draw(1), SpecialDieKind::Cursed);
    assert_eq!(special_die_for_draw(2), SpecialDieKind::Bones);
    assert_eq!(upgrade_for_draw(0), UpgradeKind::Augment);
    assert_eq!(upgrade_for_draw(1), UpgradeKind::Enchant);
}
