//! Simulation engine of an incremental management game: the player harvests
//! the souls of a simulated population, spends them on items and upgrades,
//! and remits them to two customers.
//!
//! Every amount is an integer and every rate a fixed-point number in
//! thousandths, so that each rule of the game is an exact statement over the
//! integers. The rules are written once as functions on a mathematical
//! state (`state`), the controller (`model`, `commands`) refines them on
//! machine integers, and `laws` holds what is proved of the rules on every
//! state.

pub mod arith;
pub mod catalog;
pub mod commands;
pub mod events;
pub mod growth;
pub mod idgen;
pub mod items;
pub mod laws;
pub mod model;
pub mod permille;
pub mod registry;
pub mod screen;
pub mod state;
pub mod units;
pub mod upgrades;
