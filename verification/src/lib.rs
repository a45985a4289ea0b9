//! Dungeon Dice: the rules of a Yahtzee-style roguelite, verified with Verus.
//!
//! The library holds the dice engine, the scoring categories, relics, the
//! dungeon layout, the shop, the run state, and the screens of the game
//! without the terminal: what each key does on each screen and the text
//! each screen shows (`ui`). Everything that draws on chance goes through
//! the small set of trusted wrappers in `random`.

pub mod random;
pub mod text;
pub mod dice;
pub mod scoring;
pub mod dungeon;
pub mod relics;
pub mod shop;
pub mod game;
pub mod ui;
