//! Commands sent to the bot and the answers collected for them.
pub mod types;

use vstd::prelude::*;

verus! {

/// The user id of the Mudae bot, whose messages the sniper reads.
pub const MUDAE_BOT_ID: u64 = 432610292342587392;

/// How long, in seconds, the answer to a command is waited for.
pub const COLLECTOR_TIMEOUT_SECS: u64 = 30;

/// How long, in milliseconds, the scheduler pauses between two commands.
pub const COMMAND_INTERVAL_MILLIS: u64 = 200;

} // verus!
