//! The decisions, indices and message texts of a Telegram community bot:
//! command arguments, the users' names index, roles, callback data and its
//! routing, pagination of the reputation table, and the replies it sends.
pub mod bot;
pub mod command;
pub mod config;
pub mod oknoid;
pub mod session;
pub mod support;
pub mod text;
pub mod utils;
