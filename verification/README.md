# Dungeon Dice

A Yahtzee-based roguelite for the terminal: roll five dice, hold what you
want, re-roll, and score in a category to beat each room's target. Winning
pays gold to spend in a shop; losing costs HP. Bosses unlock new scoring
categories; relics and die upgrades bend the rules.

## Layout

- `src/` — the library, verified with Verus:
  - `dice.rs` — dice, faces, upgrades and the dice pool;
  - `scoring.rs` — the scoring categories (best score, Wild faces counted
    as any value);
  - `relics.rs` — the relics and their hooks;
  - `dungeon/` — rooms, floors, targets and floor generation;
  - `shop.rs` — shop items, prices and shop generation;
  - `game.rs` — the run state and its transitions;
  - `ui/` — each screen's key handling (`App::handle_key`) and the text it
    shows;
  - `text.rs` — decimal numbers, padding and repeated characters;
  - `random.rs` — the only trusted code: thin wrappers around `rand`.
- `app/` — the terminal front end (crossterm and ratatui): event loop,
  key conversion, layout and drawing.
- `tests/` — tests of the library.
