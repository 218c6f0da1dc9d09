//! A chat bot's verified core: the per-pixel image transforms behind its
//! image commands (rotate, invert, overlay blend with a fixed asset), the
//! byte-to-byte PNG pipelines around them, one rock-paper-scissors round
//! resolved from the bot's drawn move and the observed reaction event, and
//! the decisions of the command dispatch.

pub mod bitmap;
pub mod codec;
pub mod commands;
pub mod error;
pub mod game;
pub mod pipeline;
