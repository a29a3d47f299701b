//! A single-player, turn-based narrative and combat interpreter.
//!
//! A campaign is a graph of narrative, combat and ending nodes. A session
//! steps through it one player choice at a time; every dice-driven outcome
//! comes from a seeded generator, so a session is a function of the campaign,
//! the character sheet, the seed and the choices made.

pub mod battle;
pub mod campaign;
pub mod combat;
pub mod dice;
pub mod engine;
pub mod laws;
pub mod narrative;
pub mod rules;
pub mod search;
pub mod session;
pub mod text;
