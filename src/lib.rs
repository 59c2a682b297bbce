//! Combat resolution for a tabletop role-playing game: dice, ability and
//! proficiency arithmetic, and an action resolver that mutates a roster of
//! characters.

pub mod actions;
pub mod dice;
pub mod effect;
pub mod lemmas;
pub mod models;
pub mod state;
