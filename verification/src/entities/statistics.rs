//! What the bot's `$tu` answer says of a player's timers and resources.
use vstd::prelude::*;

verus! {

/// A player's timers and resources. Instants are milliseconds since the Unix epoch.
#[derive(Debug, Clone, Copy, PartialEq, Eq, Structural)]
pub struct Statistics {
    pub claim_time: i64,
    pub rolls_remaining: u8,
    pub next_rolls: i64,
    pub next_daily: i64,
    pub next_kakera_react: i64,
    pub kakera_power: u8,
    pub kakera_cost: u8,
    pub kakera_cost_half: u8,
    pub kakera_stock: u32,
    pub next_rt: Option<i64>,
    pub next_dk: i64,
    pub rolls_reset_stock: u16,
    pub can_claim: bool,
}

} // verus!
