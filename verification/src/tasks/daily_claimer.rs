//! Claiming `$daily`: the bot confirms it with a check mark.
use vstd::prelude::*;
use vstd::string::StringExecFns;

use crate::entities::message::EmojiData;
use crate::tasks::{claim_step, spec_claim_step, ClaimKind, TaskAction, TaskEvent, TaskState};

verus! {

/// The bot confirmed the claim: the reaction is the check-mark emoji.
pub open spec fn spec_is_daily_confirmation(emoji: EmojiData) -> bool {
    match emoji {
        EmojiData::Unicode(text) => text@ == "✅"@,
        EmojiData::Custom(_) => false,
    }
}

/// Whether a reaction with `emoji` confirms the `$daily` claim.
pub fn is_daily_confirmation(emoji: &EmojiData) -> (b: bool)
    ensures
        b == spec_is_daily_confirmation(*emoji),
{
    match emoji {
        EmojiData::Unicode(text) => *text == String::from_str("✅"),
        EmojiData::Custom(_) => false,
    }
}

/// One step of the `$daily` task: `$daily` is sent once `next_daily` is reached, and a
/// reaction to it is taken as the confirmation (see `spec_claim_step`).
pub fn daily_claimer_step(state: TaskState, event: TaskEvent) -> (r: (TaskState, TaskAction))
    ensures
        r == spec_claim_step(ClaimKind::Daily, state, event),
{
    claim_step(ClaimKind::Daily, state, event)
}

} // verus!
