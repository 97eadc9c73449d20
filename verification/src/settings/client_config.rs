//! Settings of the Discord account that runs the sniper.
use vstd::prelude::*;

verus! {

/// The account's token and its user id.
pub struct ClientSettings {
    pub token: String,
    pub client_id: u64,
}

} // verus!
