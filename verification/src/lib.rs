//! The verified core of a small community chat bot: the three tables it
//! keeps (quotes, an append-only tally, suggestion records tied to their
//! announcement messages), the suggestion lifecycle with its reaction-driven
//! withdrawal, the moderation pipeline's text and image-word classification,
//! the autoresponder's decision table, the dice-cascade mini-game, and the
//! rendering of every reply the bot sends. The gateway, the SQLite file, and
//! the optical recognizer live outside; the library speaks to them through
//! plain values and a handful of trusted calls.

use vstd::prelude::*;

pub mod autoresponder;
pub mod cans;
pub mod colors;
pub mod clock;
pub mod dice;
pub mod moderation;
pub mod misc;
pub mod models;
pub mod quotes;
pub mod random;
pub mod suggestions;
pub mod times;
pub mod table;
pub mod text;

verus! {

} // verus!
