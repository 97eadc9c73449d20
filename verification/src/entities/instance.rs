//! A channel that the sniper plays in.
use vstd::prelude::*;

use crate::settings::sniper_config::InstanceConfig;

verus! {

/// A channel the sniper plays in, with its name and rolling strategy.
#[derive(Debug)]
pub struct Instance {
    pub name: String,
    pub channel_id: u64,
    pub roll_after_claim: bool,
}

impl Instance {
    /// The channel's id.
    pub fn id_as_u64(&self) -> (r: u64)
        ensures
            r == self.channel_id,
    {
        self.channel_id
    }

    /// The instance that a configured channel describes.
    pub fn from_config(config: &InstanceConfig) -> (r: Instance)
        ensures
            r.name@ == config.name@,
            r.channel_id == config.id,
            r.roll_after_claim == config.roll_after_claim,
    {
        Instance {
            name: config.name.clone(),
            channel_id: config.id,
            roll_after_claim: config.roll_after_claim,
        }
    }
}

impl Clone for Instance {
    fn clone(&self) -> (r: Self)
        ensures
            r == *self,
    {
        Instance {
            name: self.name.clone(),
            channel_id: self.channel_id,
            roll_after_claim: self.roll_after_claim,
        }
    }
}

} // verus!
