//! Settings of the sniper: the guild, and the channels ("instances") it plays in.
use vstd::prelude::*;

verus! {

/// Whether an instance keeps rolling after its claim is spent, when not configured.
pub fn default_roll_after_claim() -> (r: bool)
    ensures
        r == false,
{
    false
}

/// One channel the sniper plays in.
pub struct InstanceConfig {
    pub name: String,
    pub id: u64,
    pub roll_after_claim: bool,
}

/// The guild, the channels, the roll command and the kakera value from which a card
/// is claimed.
pub struct SniperSettings {
    pub guild_id: u64,
    pub instances: Vec<InstanceConfig>,
    pub roll_command: String,
    pub capture_threshold: u32,
}

} // verus!
