//! The things the sniper keeps track of.
pub mod badge;
pub mod instance;
pub mod kakera;
pub mod message;
pub mod statistics;
