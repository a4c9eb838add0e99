//! A chat bot's core: command dispatch, the region store, and the lookup
//! pipeline that turns a player's name into a formatted statistics reply.
pub mod bot;
pub mod commands;
pub mod handler;
pub mod model;
pub mod pipeline;
pub mod text;
