//! One sniper per channel: its state and the decisions it takes on the bot's messages.
pub mod errors;
pub mod sniper;

pub use sniper::Sniper;
