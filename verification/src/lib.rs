//! The decision-making core of a Mudae sniper: reading the bot's texts, choosing which
//! buttons to press, and keeping the statistics that steer the rolling tasks.
pub mod text;
pub mod utils;
pub mod settings;
pub mod entities;
pub mod commands;
pub mod snipers;
pub mod tasks;
pub mod handler;
pub mod logger;
