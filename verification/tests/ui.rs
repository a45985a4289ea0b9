use dungeon_dice::dice::Die;
use dungeon_dice::dungeon::room::{Room, ScoreTarget};
use dungeon_dice::game::{wrap_cursor, GamePhase, GameState, UpgradeKind};
use dungeon_dice::random::thread_rng;
use dungeon_dice::scoring::ScoreCategory;
use dungeon_dice::shop::{ShopItem, ShopItemKind};
use dungeon_dice::ui::dice_view::DiceView;
use dungeon_dice::ui::dungeon_view::{bar, room_nav, DungeonView};
use dungeon_dice::ui::main_menu::menu_lines;
use dungeon_dice::ui::path_view::PathView;
use dungeon_dice::ui::rest::RestView;
use dungeon_dice::ui::rolling::roll_hint;
use dungeon_dice::ui::selecting::{category_under_cursor, row_under_cursor};
use dungeon_dice::ui::shop::step_cursor;
use dungeon_dice::ui::shop_view::ShopView;
use dungeon_dice::ui::upgrade::{replacing_text, select_die_hint, FaceSelectView, UpgradeDiePrompt};
use dungeon_dice::ui::{is_quit, App, Key, Tone};

fn new_app() -> App {
    let mut rng = thread_rng();
    let mut app = App::new(GameState::new(&mut rng));
    app.open_menu();
    app
}

fn challenge(required: u32, reward: u32) -> Room {
    Room::Challenge(ScoreTarget { required, reward_gold: reward, current: required })
}

/// A run on the room choice of its first step, with the given options.
fn at_room_choice(options: [Room; 2]) -> App {
    let mut app = new_app();
    app.state.dungeon.current_floor_mut().room_choices[0] = options;
    app.state.phase = GamePhase::ChoosingRoom { cursor: 0 };
    app
}

fn press(app: &mut App, key: Key) -> bool {
    assert!(app.within_limits());
    app.handle_key(key)
}

#[test]
fn quit_keys() {
    assert!(is_quit(Key::Char('q')));
    assert!(is_quit(Key::Char('Q')));
    assert!(!is_quit(Key::Char('r')));
    assert!(!is_quit(Key::Esc));
}

#[test]
fn menu_moves_and_starts_a_run() {
    let mut app = new_app();
    assert!(press(&mut app, Key::Down));
    assert!(matches!(app.state.phase, GamePhase::MainMenu { cursor: 1 }));
    assert!(press(&mut app, Key::Down));
    assert!(matches!(app.state.phase, GamePhase::MainMenu { cursor: 0 }));
    assert!(press(&mut app, Key::Up));
    assert!(matches!(app.state.phase, GamePhase::MainMenu { cursor: 1 }));
    assert!(!press(&mut app, Key::Enter));
    assert!(press(&mut app, Key::Up));
    assert!(press(&mut app, Key::Enter));
    assert!(matches!(app.state.phase, GamePhase::ChoosingRoom { cursor: 0 }));
}

#[test]
fn menu_lines_mark_the_cursor() {
    assert_eq!(menu_lines(0), vec!["> New Run".to_string(), "  Quit".to_string()]);
    assert_eq!(menu_lines(1), vec!["  New Run".to_string(), "> Quit".to_string()]);
}

#[test]
fn choosing_a_challenge_begins_the_room() {
    let mut app = at_room_choice([Room::Rest, challenge(11, 25)]);
    assert!(press(&mut app, Key::Right));
    assert!(matches!(app.state.phase, GamePhase::ChoosingRoom { cursor: 1 }));
    assert!(press(&mut app, Key::Enter));
    assert!(matches!(app.state.phase, GamePhase::Rolling));
    assert_eq!(app.state.dungeon.current_floor().rooms_taken, vec![1]);
    assert_eq!(app.state.dice_pool.rolls_remaining, 3);
    assert_eq!(app.state.dungeon.current_floor().current_room(), Some(&challenge(11, 25)));
}

#[test]
fn choosing_a_rest_site_opens_it() {
    let mut app = at_room_choice([Room::Rest, challenge(11, 25)]);
    assert!(press(&mut app, Key::Enter));
    assert!(matches!(app.state.phase, GamePhase::Rest { cursor: 0 }));
}

#[test]
fn rolling_keys() {
    let mut app = at_room_choice([challenge(11, 25), Room::Rest]);
    press(&mut app, Key::Enter);
    // Before the first roll only R does something.
    assert!(press(&mut app, Key::Right));
    assert!(app.state.dice_pool.dice.iter().all(|d| !d.selected));
    assert!(press(&mut app, Key::Char('s')));
    assert!(matches!(app.state.phase, GamePhase::Rolling));
    assert_eq!(roll_hint(&app), "[R] Roll  [Q] Quit");

    assert!(press(&mut app, Key::Char('r')));
    assert_eq!(app.state.dice_pool.rolls_remaining, 2);
    let anim = app.roll_animation.as_ref().expect("the roll animates");
    assert_eq!(anim.frames_remaining, 18);
    assert_eq!(anim.display.len(), 5);
    assert!(anim.display.iter().all(|v| matches!(v, Some(1..=6))));

    // While the animation runs, other keys are ignored.
    assert!(press(&mut app, Key::Char('r')));
    assert_eq!(app.state.dice_pool.rolls_remaining, 2);
    for _ in 0..17 {
        app.tick_animation();
        assert!(app.roll_animation.is_some());
    }
    app.tick_animation();
    assert!(app.roll_animation.is_none());

    assert_eq!(
        roll_hint(&app),
        "[<Arrow Keys>] Select Die  [<Space>] Hold  [R] Roll  [S] Score  [Q] Quit"
    );
    assert!(press(&mut app, Key::Right));
    assert!(app.state.dice_pool.dice[0].selected);
    assert!(press(&mut app, Key::Left));
    assert!(app.state.dice_pool.dice[4].selected);
    assert!(press(&mut app, Key::Char(' ')));
    assert!(app.state.dice_pool.dice[4].held);
    assert!(press(&mut app, Key::Enter));
    assert!(matches!(
        app.state.phase,
        GamePhase::SelectingCategory { cursor: 0, from_boss: false }
    ));
    assert!(!press(&mut app, Key::Char('q')));
}

#[test]
fn selecting_moves_scores_and_goes_back() {
    let mut app = at_room_choice([challenge(3, 25), Room::Rest]);
    press(&mut app, Key::Enter);
    app.state.phase = GamePhase::SelectingCategory { cursor: 0, from_boss: false };
    assert_eq!(category_under_cursor(&app.state), Some(ScoreCategory::HighDie));
    assert!(press(&mut app, Key::Up));
    assert!(matches!(app.state.phase, GamePhase::SelectingCategory { cursor: 1, .. }));
    assert_eq!(category_under_cursor(&app.state), Some(ScoreCategory::Chance));
    assert_eq!(row_under_cursor(&app.state), Some(1));
    assert!(press(&mut app, Key::Esc));
    assert_eq!(row_under_cursor(&app.state), None);
    assert!(matches!(app.state.phase, GamePhase::Rolling));

    app.state.phase = GamePhase::SelectingCategory { cursor: 7, from_boss: false };
    // A cursor past the end is taken as the last category: Chance, on five 1s.
    assert!(press(&mut app, Key::Char('S')));
    match app.state.phase {
        GamePhase::Scored { score, target, success } => {
            assert_eq!(score, 5);
            assert_eq!(target, 3);
            assert!(success);
        }
        _ => panic!("expected a result"),
    }
    assert_eq!(app.state.used_this_room, vec![ScoreCategory::Chance]);
}

#[test]
fn winning_a_room_pays_and_opens_the_shop() {
    let mut app = at_room_choice([challenge(3, 25), Room::Rest]);
    press(&mut app, Key::Enter);
    press(&mut app, Key::Char('r'));
    app.roll_animation = None;
    app.state.phase = GamePhase::Scored { score: 5, target: 3, success: true };
    assert_eq!(app.scored_message(), "\n+25g earned");
    assert!(press(&mut app, Key::Other));
    assert_eq!(app.state.gold, 25);
    assert_eq!(app.state.dice_pool.rolls_remaining, 3);
    match &app.state.phase {
        GamePhase::Shop { items, cursor } => {
            assert_eq!(*cursor, 0);
            // two relics, a special die, an upgrade (HP is full)
            assert_eq!(items.len(), 4);
        }
        _ => panic!("expected the shop"),
    }
}

#[test]
fn losing_a_room_costs_hp_and_restarts_it() {
    let mut app = at_room_choice([challenge(30, 25), Room::Rest]);
    press(&mut app, Key::Enter);
    app.state.phase = GamePhase::Scored { score: 5, target: 30, success: false };
    assert_eq!(app.scored_message(), "\n-10 HP");
    assert!(press(&mut app, Key::Enter));
    assert_eq!(app.state.hp, 20);
    assert!(matches!(app.state.phase, GamePhase::Rolling));
    assert_eq!(app.state.gold, 0);
}

#[test]
fn losing_the_last_hp_ends_the_run() {
    let mut app = at_room_choice([challenge(30, 25), Room::Rest]);
    press(&mut app, Key::Enter);
    app.state.hp = 4;
    app.state.phase = GamePhase::Scored { score: 5, target: 30, success: false };
    assert!(press(&mut app, Key::Enter));
    assert_eq!(app.state.hp, 0);
    assert!(matches!(app.state.phase, GamePhase::GameOver));
    assert_eq!(app.game_over_text(), "GAME OVER\n\nFloor 1\nHP: 0/30\n\n[Q] or [Enter] to quit");
    assert!(press(&mut app, Key::Char('x')));
    assert!(!press(&mut app, Key::Enter));
}

#[test]
fn beating_the_boss_offers_two_categories() {
    let mut app = new_app();
    let step = app.state.dungeon.current_floor().room_choices.len();
    app.state.dungeon.current_floor_mut().step = step;
    app.state.phase = GamePhase::Scored { score: 50, target: 30, success: true };
    assert_eq!(app.scored_message(), "\nBoss defeated! Choose a new category.");
    assert!(press(&mut app, Key::Enter));
    assert!(matches!(app.state.phase, GamePhase::CategoryUnlock));
    let options = app.unlock_options.expect("two categories are offered");
    assert_ne!(options[0], options[1]);
    for c in options {
        assert!(!app.state.unlocked.contains(&c));
    }
    assert_eq!(
        app.unlock_text(),
        format!(
            "BOSS DEFEATED! Choose a new scoring category:\n\n[1] {}\n[2] {}",
            options[0].display_name(),
            options[1].display_name()
        )
    );
    // Other keys wait.
    assert!(press(&mut app, Key::Char('3')));
    assert!(matches!(app.state.phase, GamePhase::CategoryUnlock));
    assert!(press(&mut app, Key::Char('2')));
    assert_eq!(
        app.state.unlocked,
        vec![ScoreCategory::HighDie, ScoreCategory::Chance, options[1]]
    );
    assert!(app.unlock_options.is_none());
    assert_eq!(app.state.dungeon.floor_count(), 2);
    assert_eq!(app.state.dungeon.current_floor().floor_num, 2);
    assert!(matches!(app.state.phase, GamePhase::ChoosingRoom { cursor: 0 }));
}

#[test]
fn losing_to_the_boss_costs_twenty() {
    let mut app = new_app();
    let step = app.state.dungeon.current_floor().room_choices.len();
    app.state.dungeon.current_floor_mut().step = step;
    app.state.phase = GamePhase::Scored { score: 5, target: 30, success: false };
    assert_eq!(app.scored_message(), "\n-20 HP");
    assert!(press(&mut app, Key::Enter));
    assert_eq!(app.state.hp, 10);
    assert!(matches!(app.state.phase, GamePhase::Boss));
}

#[test]
fn no_offer_when_everything_is_unlocked() {
    let mut app = new_app();
    app.state.unlocked = vec![
        ScoreCategory::HighDie,
        ScoreCategory::Chance,
        ScoreCategory::Ones,
        ScoreCategory::Twos,
        ScoreCategory::Threes,
        ScoreCategory::Fours,
        ScoreCategory::Fives,
        ScoreCategory::Sixes,
        ScoreCategory::FullHouse,
        ScoreCategory::SmallStraight,
        ScoreCategory::LargeStraight,
    ];
    let offer = app.pick_unlock_options();
    assert!(offer.is_none());
    app.state.unlocked.push(ScoreCategory::Yahtzee);
    assert!(app.pick_unlock_options().is_none());
    app.state.unlocked.pop();
    app.state.unlocked.pop();
    let offer = app.pick_unlock_options().expect("two left");
    assert!(offer.contains(&ScoreCategory::Yahtzee));
    assert!(offer.contains(&ScoreCategory::LargeStraight));

    app.unlock_options = None;
    app.state.phase = GamePhase::CategoryUnlock;
    assert_eq!(app.unlock_text(), "All categories unlocked! Press any key to continue.");
    assert!(press(&mut app, Key::Char('z')));
    assert_eq!(app.state.dungeon.floor_count(), 2);
    assert!(matches!(app.state.phase, GamePhase::ChoosingRoom { cursor: 0 }));
}

fn shop_app(items: Vec<ShopItem>, gold: u32) -> App {
    let mut app = at_room_choice([challenge(3, 25), Room::Rest]);
    press(&mut app, Key::Enter);
    app.state.gold = gold;
    app.state.phase = GamePhase::Shop { items, cursor: 0 };
    app
}

fn potion(price: u32) -> ShopItem {
    ShopItem { kind: ShopItemKind::HpPotion(15), price }
}

#[test]
fn shop_cursor_wraps() {
    let mut app = shop_app(vec![potion(40), potion(30), potion(20)], 0);
    assert!(press(&mut app, Key::Up));
    assert!(matches!(app.state.phase, GamePhase::Shop { cursor: 2, .. }));
    assert!(press(&mut app, Key::Down));
    assert!(matches!(app.state.phase, GamePhase::Shop { cursor: 0, .. }));
}

#[test]
fn buying_a_potion_heals_and_clamps_the_cursor() {
    let mut app = shop_app(vec![potion(40), potion(30)], 100);
    app.state.hp = 10;
    press(&mut app, Key::Down);
    assert!(press(&mut app, Key::Enter));
    assert_eq!(app.state.gold, 70);
    assert_eq!(app.state.hp, 25);
    match &app.state.phase {
        GamePhase::Shop { items, cursor } => {
            assert_eq!(items.len(), 1);
            assert_eq!(items[0].price, 40);
            assert_eq!(*cursor, 0);
        }
        _ => panic!("expected the shop"),
    }
}

#[test]
fn an_item_too_dear_stays() {
    let mut app = shop_app(vec![potion(40)], 39);
    assert!(press(&mut app, Key::Enter));
    assert_eq!(app.state.gold, 39);
    match &app.state.phase {
        GamePhase::Shop { items, .. } => assert_eq!(items.len(), 1),
        _ => panic!("expected the shop"),
    }
}

#[test]
fn buying_an_upgrade_picks_a_face_then_returns() {
    let upgrade = ShopItem { kind: ShopItemKind::DieUpgrade(UpgradeKind::Augment), price: 60 };
    let mut app = shop_app(vec![potion(40), upgrade], 100);
    press(&mut app, Key::Down);
    assert!(press(&mut app, Key::Enter));
    assert_eq!(app.state.gold, 40);
    assert!(matches!(
        app.state.phase,
        GamePhase::UpgradeSelectDie { die_cursor: 0, kind: UpgradeKind::Augment, from_shop: true, pending_die: None }
    ));
    // Esc does not leave an upgrade bought in the shop.
    assert!(press(&mut app, Key::Esc));
    assert!(matches!(app.state.phase, GamePhase::UpgradeSelectDie { .. }));
    assert!(press(&mut app, Key::Left));
    assert!(matches!(app.state.phase, GamePhase::UpgradeSelectDie { die_cursor: 4, .. }));
    assert!(press(&mut app, Key::Enter));
    assert!(matches!(
        app.state.phase,
        GamePhase::UpgradeSelectFace { die_index: 4, face_cursor: 0, .. }
    ));
    assert!(press(&mut app, Key::Right));
    assert!(press(&mut app, Key::Enter));
    assert_eq!(app.state.dice_pool.dice[4].faces()[1].get_value(), 3);
    match &app.state.phase {
        GamePhase::Shop { items, cursor } => {
            assert_eq!(items.len(), 1);
            assert_eq!(*cursor, 1);
        }
        _ => panic!("expected the shop"),
    }
    assert!(app.stashed_shop.is_none());
}

#[test]
fn buying_a_special_die_replaces_the_chosen_die() {
    let wild = ShopItem {
        kind: ShopItemKind::SpecialDie(dungeon_dice::shop::SpecialDieKind::Wild),
        price: 50,
    };
    let mut app = shop_app(vec![wild], 50);
    assert!(press(&mut app, Key::Enter));
    assert_eq!(app.state.gold, 0);
    match &app.state.phase {
        GamePhase::UpgradeSelectDie { pending_die: Some(d), kind: UpgradeKind::Augment, .. } => {
            assert_eq!(d.label(), "W6");
            assert_eq!(replacing_text(d), "Replacing with\nW6");
        }
        _ => panic!("expected the die screen"),
    }
    assert!(press(&mut app, Key::Right));
    assert!(press(&mut app, Key::Char('s')));
    assert_eq!(app.state.dice_pool.dice[1].label(), "W6");
    assert_eq!(app.state.dice_pool.dice[0].label(), "D6");
    match &app.state.phase {
        GamePhase::Shop { items, cursor } => {
            assert!(items.is_empty());
            assert_eq!(*cursor, 0);
        }
        _ => panic!("expected the shop"),
    }
}

#[test]
fn leaving_the_shop_steps_the_floor() {
    let mut app = shop_app(vec![potion(40)], 0);
    assert!(press(&mut app, Key::Char('l')));
    assert_eq!(app.state.dungeon.current_floor().step, 1);
    assert!(matches!(app.state.phase, GamePhase::ChoosingRoom { cursor: 0 }));
}

#[test]
fn leaving_before_the_boss_starts_the_fight() {
    let mut app = shop_app(vec![potion(40)], 0);
    let last = app.state.dungeon.current_floor().room_choices.len() - 1;
    app.state.dungeon.current_floor_mut().step = last;
    assert!(press(&mut app, Key::Esc));
    assert!(matches!(app.state.phase, GamePhase::Boss));
    assert_eq!(app.state.dice_pool.rolls_remaining, app.state.dice_pool.max_rolls);
}

#[test]
fn resting_heals_and_moves_on() {
    let mut app = at_room_choice([Room::Rest, challenge(3, 25)]);
    press(&mut app, Key::Enter);
    app.state.hp = 20;
    assert!(press(&mut app, Key::Enter));
    assert_eq!(app.state.hp, 30);
    assert_eq!(app.state.dungeon.current_floor().step, 1);
    assert!(matches!(app.state.phase, GamePhase::ChoosingRoom { cursor: 0 }));
}

#[test]
fn resting_upgrade_flow_and_back() {
    let mut app = at_room_choice([Room::Rest, challenge(3, 25)]);
    press(&mut app, Key::Enter);
    assert!(press(&mut app, Key::Up));
    assert!(matches!(app.state.phase, GamePhase::Rest { cursor: 2 }));
    assert!(press(&mut app, Key::Enter));
    assert!(matches!(
        app.state.phase,
        GamePhase::UpgradeSelectDie { kind: UpgradeKind::Enchant, from_shop: false, .. }
    ));
    assert!(press(&mut app, Key::Esc));
    assert!(matches!(app.state.phase, GamePhase::Rest { cursor: 0 }));
    press(&mut app, Key::Down);
    assert!(press(&mut app, Key::Enter));
    assert!(press(&mut app, Key::Enter));
    assert!(matches!(app.state.phase, GamePhase::UpgradeSelectFace { die_index: 0, .. }));
    // Esc goes back to the die, keeping the index.
    assert!(press(&mut app, Key::Esc));
    assert!(matches!(
        app.state.phase,
        GamePhase::UpgradeSelectDie { die_cursor: 0, kind: UpgradeKind::Augment, .. }
    ));
    assert!(press(&mut app, Key::Enter));
    assert!(press(&mut app, Key::Left));
    assert!(matches!(app.state.phase, GamePhase::UpgradeSelectFace { face_cursor: 5, .. }));
    assert!(press(&mut app, Key::Enter));
    assert_eq!(app.state.dice_pool.dice[0].faces()[5].get_value(), 7);
    assert_eq!(app.state.dungeon.current_floor().step, 1);
    assert!(matches!(app.state.phase, GamePhase::ChoosingRoom { cursor: 0 }));
}

#[test]
fn limits_catch_an_overflowing_reward() {
    let mut app = at_room_choice([challenge(3, 25), Room::Rest]);
    press(&mut app, Key::Enter);
    app.state.gold = u32::MAX - 10;
    app.state.phase = GamePhase::Scored { score: 5, target: 3, success: true };
    assert!(!app.within_limits());
    app.state.gold = u32::MAX - 25;
    assert!(app.within_limits());
}

#[test]
fn limits_need_dice() {
    let mut app = new_app();
    assert!(app.within_limits());
    app.state.dice_pool.dice.clear();
    assert!(!app.within_limits());
}

#[test]
fn progress_bars() {
    assert_eq!(bar(&30, &15), "[=======--------] 15 / 30");
    assert_eq!(bar(&30, &30), "[===============] 30 / 30");
    assert_eq!(bar(&10, &40), "[===============] 40 / 10");
    assert_eq!(bar(&0, &5), "[---------------] 5 / 0");
}

#[test]
fn header_texts() {
    let mut app = at_room_choice([challenge(11, 25), Room::Rest]);
    {
        let view = DungeonView::new(&app.state);
        assert_eq!(view.title(), "DUNGEON DICE");
        assert_eq!(view.hp_line(), "[===============] 30 / 30");
        assert_eq!(view.target_line(), None);
        let status: Vec<String> = view.status().into_iter().map(|c| c.text).collect();
        assert_eq!(status[0], "Floor 1 |");
        assert_eq!(status[1], " [");
        assert_eq!(status[2], "?");
        assert_eq!(status[3], "-");
        assert_eq!(status.last().unwrap(), "| Gold 0g");
    }
    press(&mut app, Key::Enter);
    let view = DungeonView::new(&app.state);
    assert_eq!(view.target_line(), Some("Target: [===============] 11 / 11".to_string()));
    let status = view.status();
    assert_eq!(status[2].text, "C");
    assert_eq!(status[2].tone, Tone::Cursor);

    app.state.phase = GamePhase::Boss;
    let view = DungeonView::new(&app.state);
    let boss = app.state.dungeon.current_floor().boss;
    assert_eq!(view.title(), format!("BOSS: {}", boss.name));
    let status = view.status();
    assert_eq!(status.len(), 1);
    assert_eq!(
        status[0].text,
        format!("Floor 1 | Weak: {} | Gold: 0g", boss.weakness.display_name())
    );
}

#[test]
fn room_path_marks_taken_rooms() {
    let mut app = at_room_choice([challenge(11, 25), Room::Rest]);
    press(&mut app, Key::Enter);
    app.state.dungeon.current_floor_mut().step = 1;
    let nav = room_nav(app.state.dungeon.current_floor());
    let total = app.state.dungeon.current_floor().room_choices.len();
    assert_eq!(nav.len(), 2 * total + 1);
    assert_eq!(nav[1].text, "C");
    assert_eq!(nav[1].tone, Tone::Dimmed);
    assert_eq!(nav[3].text, "?");
    assert_eq!(nav[3].tone, Tone::Cursor);
    assert_eq!(nav[nav.len() - 1].text, "] ");
    app.state.dungeon.current_floor_mut().step = total;
    let nav = room_nav(app.state.dungeon.current_floor());
    assert_eq!(nav.len(), 1);
    assert_eq!(nav[0].text, "Boss");
}

#[test]
fn dice_and_rolls_views() {
    let app = new_app();
    let view = DiceView::new(&app.state.dice_pool);
    let boxes = view.boxes();
    assert_eq!(boxes.len(), 5);
    assert_eq!(boxes[0].label, "D6");
    assert_eq!(boxes[0].value, " 1");
    assert!(!boxes[0].held);
    assert_eq!(boxes[0].tone, Tone::Plain);
    assert_eq!(view.rolls_line(), "Rolls: [---]   3 / 3");

    let shown = vec![Some(4u8), None, Some(6), None, None];
    let view = DiceView::animated(&app.state.dice_pool, &shown);
    let boxes = view.boxes();
    assert_eq!(boxes[0].value, " 4");
    assert_eq!(boxes[1].value, " 1");
    assert_eq!(boxes[2].value, " 6");

    let view = DiceView::with_upgrade_cursor(&app.state.dice_pool, 3);
    assert_eq!(view.boxes()[3].tone, Tone::Best);
}

#[test]
fn spent_rolls_show_in_the_bar() {
    let mut app = at_room_choice([challenge(11, 25), Room::Rest]);
    press(&mut app, Key::Enter);
    press(&mut app, Key::Char('r'));
    assert_eq!(app.dice_view().rolls_line(), "Rolls: [#--]   2 / 3");
    assert!(app.dice_view().animated_values.is_some());
}

#[test]
fn scoring_panel_rows() {
    let app = new_app();
    let rows = app.score_view().rows();
    assert_eq!(rows.len(), 2);
    assert_eq!(rows[0].text, "Highest Die             1  ");
    assert_eq!(rows[0].tone, Tone::Plain);
    assert_eq!(rows[1].text, "Chance                  5 *");
    assert_eq!(rows[1].tone, Tone::Best);
    assert_eq!(app.score_view().best(), Some(ScoreCategory::Chance));
}

#[test]
fn scoring_panel_dims_used_and_shows_impossible() {
    let mut app = new_app();
    app.state.unlocked.push(ScoreCategory::FullHouse);
    app.state.used_this_room.push(ScoreCategory::Chance);
    let rows = app.score_view().rows();
    assert_eq!(rows[1].tone, Tone::Dimmed);
    assert_eq!(rows[1].text, "Chance                  5  ");
    assert_eq!(rows[2].text, "Full house             --  ");
    // Highest Die (1) beats an impossible Full House.
    assert_eq!(rows[0].text, "Highest Die             1 *");
    assert_eq!(rows[0].tone, Tone::Best);
}

#[test]
fn shop_boxes() {
    let items = vec![potion(40), potion(90)];
    let boxes = ShopView::new(&items, 50, 1).boxes();
    assert_eq!(boxes[0].top, "  HP Potion      40g");
    assert_eq!(boxes[0].bottom, "  Restore 15 HP  ");
    assert_eq!(boxes[0].tone, Tone::Plain);
    assert_eq!(boxes[1].tone, Tone::Cursor);
    let boxes = ShopView::new(&items, 50, 0).boxes();
    assert_eq!(boxes[1].tone, Tone::Warning);
}

#[test]
fn rest_boxes() {
    let view = RestView::new(1);
    assert_eq!(view.cursor, 1);
    let boxes = view.boxes();
    assert_eq!(boxes.len(), 3);
    assert_eq!(boxes[0].top, "  Heal");
    assert_eq!(boxes[0].bottom, "  Restore 15 HP");
    assert_eq!(boxes[1].top, "  Augment");
    assert_eq!(boxes[1].tone, Tone::Cursor);
    assert_eq!(boxes[2].bottom, "  Upgrade a face (+5 score)");
}

#[test]
fn path_panels() {
    let app = at_room_choice([challenge(11, 25), Room::Rest]);
    let (left, right) = PathView::new(&app.state, 1).panels().expect("two options");
    assert_eq!(left.title, "CHALLENGE");
    assert_eq!(left.top, "Target: 11 pts");
    assert_eq!(left.bottom, "Reward: 25g");
    assert_eq!(left.tone, Tone::Plain);
    assert_eq!(right.title, "REST SITE");
    assert_eq!(right.top, "Heal 15 HP");
    assert_eq!(right.tone, Tone::Cursor);
}

#[test]
fn upgrade_prompts_and_faces() {
    assert_eq!(UpgradeDiePrompt::new(UpgradeKind::Augment).text(), "Pick a die to\nAugment\n(+1 value)");
    assert_eq!(UpgradeDiePrompt::new(UpgradeKind::Enchant).text(), "Pick a die to\nEnchant\n(+5 score)");
    assert_eq!(select_die_hint(true), "[Left/Right] Select  [Enter] Replace  [Q] Quit");
    assert_eq!(
        select_die_hint(false),
        "[Left/Right] Select  [Enter] Confirm  [Esc] Back  [Q] Quit"
    );
    let die = Die::wild();
    let view = FaceSelectView::new(&die, 1, 5, UpgradeKind::Enchant);
    assert_eq!(view.title(), "Die 2 (W6) -- Enchant (+5 score):");
    let cells = view.cells();
    assert_eq!(cells.len(), 6);
    assert_eq!(cells[0].text, " 1");
    assert_eq!(cells[5].text, " W");
    assert_eq!(cells[5].tone, Tone::Cursor);
    assert_eq!(cells[0].tone, Tone::Plain);
}

#[test]
fn cursor_steps_undo_each_other() {
    for len in 1..6usize {
        for c in 0..len {
            assert_eq!(step_cursor(step_cursor(c, len, true), len, false), c);
            assert_eq!(step_cursor(step_cursor(c, len, false), len, true), c);
            assert_eq!(wrap_cursor(wrap_cursor(c, len, true), len, false), c);
            assert_eq!(wrap_cursor(wrap_cursor(c, len, false), len, true), c);
        }
    }
    assert_eq!(step_cursor(7, 3, true), 2);
    assert_eq!(step_cursor(7, 3, false), 0);
}

#[test]
fn a_used_category_cannot_be_picked_again() {
    let mut app = at_room_choice([challenge(3, 25), Room::Rest]);
    press(&mut app, Key::Enter);
    app.state.used_this_room.push(ScoreCategory::Chance);
    for cursor in 0..4 {
        app.state.phase = GamePhase::SelectingCategory { cursor, from_boss: false };
        assert_eq!(category_under_cursor(&app.state), Some(ScoreCategory::HighDie));
    }
    assert!(press(&mut app, Key::Enter));
    // Highest Die is never marked used.
    assert_eq!(app.state.used_this_room, vec![ScoreCategory::Chance]);
}

#[test]
fn nothing_left_to_score_ignores_keys() {
    let mut app = at_room_choice([challenge(3, 25), Room::Rest]);
    press(&mut app, Key::Enter);
    app.state.unlocked = vec![ScoreCategory::Chance];
    app.state.used_this_room = vec![ScoreCategory::Chance];
    app.state.phase = GamePhase::SelectingCategory { cursor: 0, from_boss: true };
    assert_eq!(category_under_cursor(&app.state), None);
    assert!(press(&mut app, Key::Char('q')));
    assert!(press(&mut app, Key::Esc));
    assert!(matches!(app.state.phase, GamePhase::SelectingCategory { cursor: 0, from_boss: true }));
}
