//! Sniper settings with one list of named channels and one rolling strategy for all
//! of them.
use vstd::prelude::*;

verus! {

/// One channel the sniper plays in.
pub struct ChannelConfig {
    pub name: String,
    pub id: u64,
}

/// The guild, the channels, the roll command, and the kakera values from which a card
/// (or, with `$rt`, a second card) is claimed.
pub struct SniperSettings {
    pub guild_id: u64,
    pub channels: Vec<ChannelConfig>,
    pub roll_command: String,
    pub capture_threshold: u32,
    pub roll_after_claim: bool,
    pub rt_capture_threshold: u32,
}

} // verus!
