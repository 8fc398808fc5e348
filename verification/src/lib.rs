//! Decision logic of a voice-channel music bot: member counting for the
//! channel the bot sits in, command replies, track metadata and query parsing.

pub mod commands;
pub mod errors;
pub mod handlers;
pub mod messaging;
pub mod model;
pub mod sources;
pub mod text;
