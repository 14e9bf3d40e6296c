//! What drives the body of a player or a bot.

pub mod upper_body;
