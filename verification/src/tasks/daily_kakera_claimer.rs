//! Claiming `$dk`: the bot answers with the kakera gained.
use vstd::prelude::*;

use crate::tasks::{claim_step, spec_claim_step, ClaimKind, TaskAction, TaskEvent, TaskState};
use crate::utils::{first_number, has_number, spec_first_number, spec_has_number};

verus! {

/// Whether the message `content` can be the answer to `$dk`: it holds a number.
pub fn is_daily_kakera_answer(content: &str) -> (b: bool)
    ensures
        b == spec_has_number(content@),
{
    has_number(content)
}

/// The kakera that the answer `content` to `$dk` reports: its first number.
pub fn claimed_kakera(content: &str) -> (r: Option<u32>)
    ensures
        r == spec_first_number(content@),
{
    first_number(content)
}

/// One step of the `$dk` task: `$dk` is sent once `next_dk` is reached, and a message
/// answering it is taken as the confirmation (see `spec_claim_step`).
pub fn daily_kakera_claimer_step(state: TaskState, event: TaskEvent) -> (r: (TaskState, TaskAction))
    ensures
        r == spec_claim_step(ClaimKind::DailyKakera, state, event),
{
    claim_step(ClaimKind::DailyKakera, state, event)
}

} // verus!
