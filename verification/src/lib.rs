//! notebot: an event-driven runtime for Misskey bots. Write a handler, and the bot runs.
//!
//! The library holds what a bot decides: which stream messages are events, which of them reach
//! the handler, what is sent in answer, and whose credentials are used. Sockets, files and the
//! Misskey client are left to the program around it, which performs the steps and the calls
//! that the library hands out.

pub mod bot;
pub mod context;
pub mod credentials;
pub mod echo;
pub mod error;
pub mod event;
pub mod json;
pub mod models;
pub mod resolution;
pub mod text;

pub use bot::{Bot, BotBuilder};
pub use context::Ctx;
pub use error::NotebotError;
pub use event::BotEvent;
