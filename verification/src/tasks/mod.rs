//! The timed tasks of a sniper: rolling cards, and claiming `$daily` and `$dk`.
pub mod autoroll;
pub mod daily_claimer;
pub mod daily_kakera_claimer;

use vstd::prelude::*;

use crate::commands::types::{CommandFeedback, CommandType};
use crate::entities::statistics::Statistics;

verus! {

/// How often, in milliseconds, a stopped task looks again whether it may run.
pub const CHECK_INTERVAL_MILLIS: u64 = 60_000;

/// How long, in milliseconds, after a claim `$daily` and `$dk` come back: 20 hours.
pub const DAILY_COOLDOWN_MILLIS: i64 = 72_000_000;

/// The largest instant magnitude, in milliseconds, that waits are computed for.
pub const MAX_WAIT_INSTANT: i64 = 2_305_843_009_213_693_952;

/// How long to wait from `now` until `target`: the difference, or nothing once `target`
/// has passed.
pub open spec fn spec_wait_millis(target: int, now: int) -> int {
    if target > now {
        target - now
    } else {
        0
    }
}

/// How long, in milliseconds, to wait from `now` until `target` (see `spec_wait_millis`).
pub fn wait_millis(target: i64, now: i64) -> (r: u64)
    ensures
        r as int == spec_wait_millis(target as int, now as int),
{
    if target > now {
        let d: i128 = (target as i128) - (now as i128);
        d as u64
    } else {
        0
    }
}

/// The statistics after `$daily` was claimed at `now`: it comes back 20 hours later.
pub fn record_daily_claim(statistics: &Statistics, now: i64) -> (r: Statistics)
    requires
        -MAX_WAIT_INSTANT <= now <= MAX_WAIT_INSTANT,
    ensures
        r == (Statistics { next_daily: (now + DAILY_COOLDOWN_MILLIS) as i64, ..*statistics }),
{
    Statistics { next_daily: now + DAILY_COOLDOWN_MILLIS, ..*statistics }
}

/// The statistics after `$dk` was claimed at `now`: the stock becomes the amount the
/// answer showed, when it showed one, and `$dk` comes back 20 hours later.
pub fn record_daily_kakera_claim(statistics: &Statistics, stock: Option<u32>, now: i64) -> (r:
    Statistics)
    requires
        -MAX_WAIT_INSTANT <= now <= MAX_WAIT_INSTANT,
    ensures
        r == (Statistics {
            kakera_stock: match stock {
                Some(v) => v,
                None => statistics.kakera_stock,
            },
            next_dk: (now + DAILY_COOLDOWN_MILLIS) as i64,
            ..*statistics
        }),
{
    let kakera_stock = match stock {
        Some(v) => v,
        None => statistics.kakera_stock,
    };
    Statistics { kakera_stock, next_dk: now + DAILY_COOLDOWN_MILLIS, ..*statistics }
}

/// Waiting is needed exactly while the target lies ahead, and waiting that long
/// reaches it.
pub proof fn lemma_wait_reaches_target(target: int, now: int)
    ensures
        spec_wait_millis(target, now) >= 0,
        spec_wait_millis(target, now) == 0 <==> target <= now,
        now + spec_wait_millis(target, now) >= target,
{
}

/// Where a timed task stands in its cycle.
#[derive(Debug, Clone, Copy, PartialEq, Eq, Structural)]
pub enum TaskState {
    /// About to look whether the sniper runs and what its statistics say.
    Start,
    /// Sleeping until this instant before acting.
    Waiting(i64),
    /// A claim command was sent; its answer is awaited.
    Answering,
    /// Rolls were sent; the rolls come back at this instant.
    Rolling(i64),
}

/// What the task learnt after its last action.
pub enum TaskEvent {
    /// Whether the sniper runs, its statistics and the instant, read at the start.
    Checked { running: bool, statistics: Statistics, now: i64 },
    /// The statistics and the instant, read on waking.
    Woke { statistics: Statistics, now: i64 },
    /// The answer to the command sent, if one came.
    Answered(Option<CommandFeedback>),
    /// The rolls were sent; the instant after sending them.
    Rolled { now: i64 },
}

/// What the task does next, and which event it then reports.
#[derive(Debug, Clone, Copy, PartialEq, Eq, Structural)]
pub enum TaskAction {
    /// Sleep this many milliseconds, then report `Checked`.
    CheckAfter(u64),
    /// Sleep this many milliseconds, then report `Woke`.
    WakeAfter(u64),
    /// Send this command, then report `Answered`.
    Send(CommandType),
    /// Send this many roll commands, then report `Rolled`.
    Roll(u8),
    /// The claim made with this command was confirmed: record it, refresh the
    /// statistics, then report `Checked`.
    Confirmed(CommandType),
    /// Refresh the statistics, sleep this many milliseconds, then report `Checked`.
    RefreshThenCheck(u64),
}

/// Which daily claim a claiming task makes.
#[derive(Debug, Clone, Copy, PartialEq, Eq, Structural)]
pub enum ClaimKind {
    /// `$daily`.
    Daily,
    /// `$dk`.
    DailyKakera,
}

/// The command of a claim.
pub open spec fn claim_command(kind: ClaimKind) -> CommandType {
    match kind {
        ClaimKind::Daily => CommandType::Daily,
        ClaimKind::DailyKakera => CommandType::DailyKakera,
    }
}

/// When a claim comes back, by the statistics.
pub open spec fn claim_target(kind: ClaimKind, st: Statistics) -> i64 {
    match kind {
        ClaimKind::Daily => st.next_daily,
        ClaimKind::DailyKakera => st.next_dk,
    }
}

/// The answer confirms the claim: a reaction for `$daily`, a message for `$dk`.
pub open spec fn claim_confirmed(kind: ClaimKind, feedback: Option<CommandFeedback>) -> bool {
    match kind {
        ClaimKind::Daily => feedback matches Some(CommandFeedback::React(_)),
        ClaimKind::DailyKakera => feedback matches Some(CommandFeedback::Msg(_)),
    }
}

/// One step of a claiming task: while the sniper is stopped it looks again after the
/// check interval; otherwise it sleeps until the claim comes back and then sends the
/// claim's command; a confirmed answer is recorded, anything else starts a new cycle.
/// An event that does not fit the state starts a new cycle.
pub open spec fn spec_claim_step(kind: ClaimKind, state: TaskState, event: TaskEvent) -> (
    TaskState,
    TaskAction,
) {
    match (state, event) {
        (TaskState::Start, TaskEvent::Checked { running, statistics, now }) => {
            if !running {
                (TaskState::Start, TaskAction::CheckAfter(CHECK_INTERVAL_MILLIS))
            } else if claim_target(kind, statistics) <= now {
                (TaskState::Answering, TaskAction::Send(claim_command(kind)))
            } else {
                let t = claim_target(kind, statistics);
                (TaskState::Waiting(t), TaskAction::WakeAfter(spec_wait_millis(t as int, now as int) as u64))
            }
        },
        (TaskState::Waiting(t), TaskEvent::Woke { statistics: _, now }) => {
            if t <= now {
                (TaskState::Answering, TaskAction::Send(claim_command(kind)))
            } else {
                (TaskState::Waiting(t), TaskAction::WakeAfter(spec_wait_millis(t as int, now as int) as u64))
            }
        },
        (TaskState::Answering, TaskEvent::Answered(feedback)) => {
            if claim_confirmed(kind, feedback) {
                (TaskState::Start, TaskAction::Confirmed(claim_command(kind)))
            } else {
                (TaskState::Start, TaskAction::CheckAfter(0))
            }
        },
        _ => (TaskState::Start, TaskAction::CheckAfter(0)),
    }
}

/// One step of a claiming task (see `spec_claim_step`).
pub fn claim_step(kind: ClaimKind, state: TaskState, event: TaskEvent) -> (r: (TaskState, TaskAction))
    ensures
        r == spec_claim_step(kind, state, event),
{
    let command = match kind {
        ClaimKind::Daily => CommandType::Daily,
        ClaimKind::DailyKakera => CommandType::DailyKakera,
    };
    match (state, event) {
        (TaskState::Start, TaskEvent::Checked { running, statistics, now }) => {
            let t = match kind {
                ClaimKind::Daily => statistics.next_daily,
                ClaimKind::DailyKakera => statistics.next_dk,
            };
            if !running {
                (TaskState::Start, TaskAction::CheckAfter(CHECK_INTERVAL_MILLIS))
            } else if t <= now {
                (TaskState::Answering, TaskAction::Send(command))
            } else {
                (TaskState::Waiting(t), TaskAction::WakeAfter(wait_millis(t, now)))
            }
        },
        (TaskState::Waiting(t), TaskEvent::Woke { statistics: _, now }) => {
            if t <= now {
                (TaskState::Answering, TaskAction::Send(command))
            } else {
                (TaskState::Waiting(t), TaskAction::WakeAfter(wait_millis(t, now)))
            }
        },
        (TaskState::Answering, TaskEvent::Answered(feedback)) => {
            let confirmed = match kind {
                ClaimKind::Daily => match feedback {
                    Some(CommandFeedback::React(_)) => true,
                    _ => false,
                },
                ClaimKind::DailyKakera => match feedback {
                    Some(CommandFeedback::Msg(_)) => true,
                    _ => false,
                },
            };
            if confirmed {
                (TaskState::Start, TaskAction::Confirmed(command))
            } else {
                (TaskState::Start, TaskAction::CheckAfter(0))
            }
        },
        _ => (TaskState::Start, TaskAction::CheckAfter(0)),
    }
}

/// A claiming task sends its command only once the claim is due: either at the start of
/// a cycle, with the sniper running and the claim's instant reached, or on waking at or
/// after the instant it waits for. It waits only for the claim's instant read while
/// running, and only while that instant lies ahead; a wait reaches its instant; and a
/// stopped sniper sends nothing: the task only looks again (after the check interval
/// when it was at the start of a cycle).
pub proof fn lemma_claim_sends_only_when_due(kind: ClaimKind, state: TaskState, event: TaskEvent)
    ensures
        ({
            let (next, action) = spec_claim_step(kind, state, event);
            &&& match action {
                TaskAction::Send(c) => c == claim_command(kind) && match (state, event) {
                    (TaskState::Start, TaskEvent::Checked { running, statistics, now }) => running
                        && claim_target(kind, statistics) <= now,
                    (TaskState::Waiting(t), TaskEvent::Woke { statistics: _, now }) => t <= now,
                    _ => false,
                },
                _ => true,
            }
            &&& match next {
                TaskState::Waiting(t) => match (state, event, action) {
                    (
                        TaskState::Start,
                        TaskEvent::Checked { running, statistics, now },
                        TaskAction::WakeAfter(w),
                    ) => running && t == claim_target(kind, statistics) && now < t && now + w >= t,
                    (TaskState::Waiting(t0), TaskEvent::Woke { statistics: _, now }, TaskAction::WakeAfter(w)) => t0
                        == t && now < t && now + w >= t,
                    _ => false,
                },
                _ => true,
            }
            &&& match event {
                TaskEvent::Checked { running, statistics: _, now: _ } => !running ==> action
                    == TaskAction::CheckAfter(0) || (next, action) == (
                    TaskState::Start,
                    TaskAction::CheckAfter(CHECK_INTERVAL_MILLIS),
                ),
                _ => true,
            }
        }),
{
    match (state, event) {
        (TaskState::Start, TaskEvent::Checked { running: _, statistics, now }) => {
            let t = claim_target(kind, statistics);
            if now < t {
                assert(0 < t - now <= u64::MAX);
                assert((spec_wait_millis(t as int, now as int) as u64) as int == t - now);
            }
        },
        (TaskState::Waiting(t), TaskEvent::Woke { statistics: _, now }) => {
            if now < t {
                assert(0 < t - now <= u64::MAX);
                assert((spec_wait_millis(t as int, now as int) as u64) as int == t - now);
            }
        },
        _ => {},
    }
}

} // verus!
