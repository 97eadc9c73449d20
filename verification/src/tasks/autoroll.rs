//! When a sniper rolls, and how many rolls it sends.
use vstd::prelude::*;

use crate::commands::types::{CommandType, RollType};
use crate::entities::instance::Instance;
use crate::entities::message::MessageData;
use crate::entities::statistics::Statistics;
use crate::tasks::{spec_wait_millis, wait_millis, TaskAction, TaskEvent, TaskState, CHECK_INTERVAL_MILLIS};

verus! {

/// Whether the rolling task must wait before it rolls: with the "stop after claim"
/// strategy, while the claim is spent or no roll is left; with "roll after claim", while
/// no roll is left.
pub open spec fn spec_should_wait(roll_after_claim: bool, st: Statistics) -> bool {
    if !roll_after_claim {
        !st.can_claim || st.rolls_remaining == 0
    } else {
        st.rolls_remaining == 0
    }
}

/// Until when the rolling task waits, if it must: the claim's return when the claim is
/// what is missing under "stop after claim", the rolls' return otherwise.
pub open spec fn spec_roll_wait_target(roll_after_claim: bool, st: Statistics) -> Option<i64> {
    if spec_should_wait(roll_after_claim, st) {
        if !roll_after_claim && !st.can_claim {
            Some(st.claim_time)
        } else {
            Some(st.next_rolls)
        }
    } else {
        None
    }
}

/// Until when the rolling task waits, by strategy. Under "stop after claim", a spent
/// claim makes it wait until the claim comes back, however many rolls are left; with
/// the claim available it waits for the rolls' return only when none is left. Under
/// "roll after claim" the claim plays no part: it waits for the rolls' return exactly
/// when none is left. With rolls left and nothing else missing it does not wait.
pub proof fn lemma_roll_wait_target_by_strategy(roll_after_claim: bool, st: Statistics)
    ensures
        !roll_after_claim && !st.can_claim ==> spec_roll_wait_target(roll_after_claim, st) == Some(
            st.claim_time,
        ),
        !roll_after_claim && st.can_claim && st.rolls_remaining == 0 ==> spec_roll_wait_target(
            roll_after_claim,
            st,
        ) == Some(st.next_rolls),
        roll_after_claim && st.rolls_remaining == 0 ==> spec_roll_wait_target(roll_after_claim, st)
            == Some(st.next_rolls),
        st.rolls_remaining > 0 && (roll_after_claim || st.can_claim) ==> spec_roll_wait_target(
            roll_after_claim,
            st,
        ) is None,
{
}

/// Until when the rolling task of `instance` waits before rolling, or `None` when it
/// rolls at once (see `spec_roll_wait_target`).
pub fn roll_wait_target(instance: &Instance, statistics: &Statistics) -> (r: Option<i64>)
    ensures
        r == spec_roll_wait_target(instance.roll_after_claim, *statistics),
        !instance.roll_after_claim && !statistics.can_claim ==> r == Some(statistics.claim_time),
        !instance.roll_after_claim && statistics.can_claim && statistics.rolls_remaining == 0 ==> r
            == Some(statistics.next_rolls),
        instance.roll_after_claim && statistics.rolls_remaining == 0 ==> r == Some(
            statistics.next_rolls,
        ),
        statistics.rolls_remaining > 0 && (instance.roll_after_claim || statistics.can_claim) ==> r
            is None,
{
    proof {
        lemma_roll_wait_target_by_strategy(instance.roll_after_claim, *statistics);
    }
    let should_wait = if !instance.roll_after_claim {
        !statistics.can_claim || statistics.rolls_remaining == 0
    } else {
        statistics.rolls_remaining == 0
    };
    if should_wait {
        if !instance.roll_after_claim && !statistics.can_claim {
            Some(statistics.claim_time)
        } else {
            Some(statistics.next_rolls)
        }
    } else {
        None
    }
}

/// A message can answer a roll: it carries an embed, as a rolled card does.
pub fn is_roll_answer(message: &MessageData) -> (b: bool)
    ensures
        b == (message.embeds@.len() > 0),
{
    message.embeds.len() > 0
}

/// The roll commands a round sends: `count` times the command of `roll`.
pub fn roll_commands(count: u8, roll: RollType) -> (r: Vec<CommandType>)
    ensures
        r@.len() == count as nat,
        forall|i: int| 0 <= i < r@.len() ==> #[trigger] r@[i] == CommandType::Roll(roll),
{
    let mut r: Vec<CommandType> = Vec::new();
    let mut i: u8 = 0;
    while i < count
        invariant
            i <= count,
            r@.len() == i as nat,
            forall|k: int| 0 <= k < r@.len() ==> #[trigger] r@[k] == CommandType::Roll(roll),
        decreases count - i,
    {
        r.push(CommandType::Roll(roll));
        i = i + 1;
    }
    r
}

/// With "roll after claim", the task waits only when no roll is left, and then for
/// the rolls' return; with either strategy it never waits while it has rolls and a claim.
pub proof fn lemma_roll_wait_strategy(roll_after_claim: bool, st: Statistics)
    ensures
        roll_after_claim ==> (spec_roll_wait_target(roll_after_claim, st) is Some <==> st.rolls_remaining
            == 0),
        roll_after_claim && spec_roll_wait_target(roll_after_claim, st) is Some ==> spec_roll_wait_target(
            roll_after_claim,
            st,
        ) == Some(st.next_rolls),
        st.can_claim && st.rolls_remaining > 0 ==> spec_roll_wait_target(roll_after_claim, st) is None,
{
}

/// One step of the rolling task: while the sniper is stopped it looks again after the
/// check interval; otherwise it rolls at once when it need not wait, or sleeps until the
/// roll target and then rolls as many times as the statistics read on waking leave; after
/// rolling it refreshes the statistics and sleeps until the rolls come back. An event that
/// does not fit the state starts a new cycle.
pub open spec fn spec_roll_cards_step(roll_after_claim: bool, state: TaskState, event: TaskEvent) -> (
    TaskState,
    TaskAction,
) {
    match (state, event) {
        (TaskState::Start, TaskEvent::Checked { running, statistics, now }) => {
            if !running {
                (TaskState::Start, TaskAction::CheckAfter(CHECK_INTERVAL_MILLIS))
            } else {
                match spec_roll_wait_target(roll_after_claim, statistics) {
                    None => (TaskState::Rolling(statistics.next_rolls), TaskAction::Roll(statistics.rolls_remaining)),
                    Some(t) => (
                        TaskState::Waiting(t),
                        TaskAction::WakeAfter(spec_wait_millis(t as int, now as int) as u64),
                    ),
                }
            }
        },
        (TaskState::Waiting(t), TaskEvent::Woke { statistics, now }) => {
            if t <= now {
                (TaskState::Rolling(statistics.next_rolls), TaskAction::Roll(statistics.rolls_remaining))
            } else {
                (TaskState::Waiting(t), TaskAction::WakeAfter(spec_wait_millis(t as int, now as int) as u64))
            }
        },
        (TaskState::Rolling(next), TaskEvent::Rolled { now }) => (
            TaskState::Start,
            TaskAction::RefreshThenCheck(spec_wait_millis(next as int, now as int) as u64),
        ),
        _ => (TaskState::Start, TaskAction::CheckAfter(0)),
    }
}

/// One step of the rolling task of `instance` (see `spec_roll_cards_step`).
pub fn roll_cards_step(instance: &Instance, state: TaskState, event: TaskEvent) -> (r: (
    TaskState,
    TaskAction,
))
    ensures
        r == spec_roll_cards_step(instance.roll_after_claim, state, event),
{
    match (state, event) {
        (TaskState::Start, TaskEvent::Checked { running, statistics, now }) => {
            if !running {
                (TaskState::Start, TaskAction::CheckAfter(CHECK_INTERVAL_MILLIS))
            } else {
                match roll_wait_target(instance, &statistics) {
                    None => (TaskState::Rolling(statistics.next_rolls), TaskAction::Roll(statistics.rolls_remaining)),
                    Some(t) => (TaskState::Waiting(t), TaskAction::WakeAfter(wait_millis(t, now))),
                }
            }
        },
        (TaskState::Waiting(t), TaskEvent::Woke { statistics, now }) => {
            if t <= now {
                (TaskState::Rolling(statistics.next_rolls), TaskAction::Roll(statistics.rolls_remaining))
            } else {
                (TaskState::Waiting(t), TaskAction::WakeAfter(wait_millis(t, now)))
            }
        },
        (TaskState::Rolling(next), TaskEvent::Rolled { now }) => (
            TaskState::Start,
            TaskAction::RefreshThenCheck(wait_millis(next, now)),
        ),
        _ => (TaskState::Start, TaskAction::CheckAfter(0)),
    }
}

/// The rolling task rolls only when it may: at the start of a cycle with the sniper
/// running and no roll target, or on waking at or after the target it waits for; it rolls
/// as many times as the statistics then read leave, and remembers their `next_rolls`. It
/// waits only for the roll target read while running (the claim's return when the claim
/// is missing under "stop after claim", the rolls' return otherwise), and a wait reaches
/// its instant. After rolling, the next cycle starts no earlier than the `next_rolls` of
/// the statistics used for rolling. A stopped sniper rolls nothing.
pub proof fn lemma_roll_only_when_due(roll_after_claim: bool, state: TaskState, event: TaskEvent)
    ensures
        ({
            let (next, action) = spec_roll_cards_step(roll_after_claim, state, event);
            &&& match action {
                TaskAction::Roll(n) => match (state, event) {
                    (TaskState::Start, TaskEvent::Checked { running, statistics, now: _ }) => running
                        && spec_roll_wait_target(roll_after_claim, statistics) is None
                        && n == statistics.rolls_remaining
                        && next == TaskState::Rolling(statistics.next_rolls),
                    (TaskState::Waiting(t), TaskEvent::Woke { statistics, now }) => t <= now
                        && n == statistics.rolls_remaining
                        && next == TaskState::Rolling(statistics.next_rolls),
                    _ => false,
                },
                _ => true,
            }
            &&& match next {
                TaskState::Waiting(t) => match (state, event, action) {
                    (
                        TaskState::Start,
                        TaskEvent::Checked { running, statistics, now },
                        TaskAction::WakeAfter(w),
                    ) => running && spec_roll_wait_target(roll_after_claim, statistics) == Some(t)
                        && now + w >= t,
                    (TaskState::Waiting(t0), TaskEvent::Woke { statistics: _, now }, TaskAction::WakeAfter(w)) => t0
                        == t && now < t && now + w >= t,
                    _ => false,
                },
                _ => true,
            }
            &&& match (state, event) {
                (TaskState::Rolling(rolls_back), TaskEvent::Rolled { now }) => action matches TaskAction::RefreshThenCheck(w)
                    && now + w >= rolls_back && next == TaskState::Start,
                _ => true,
            }
            &&& match event {
                TaskEvent::Checked { running, statistics: _, now: _ } => !running ==> action
                    == TaskAction::CheckAfter(0) || (next, action) == (
                    TaskState::Start,
                    TaskAction::CheckAfter(CHECK_INTERVAL_MILLIS),
                ),
                _ => true,
            }
        }),
{
    match (state, event) {
        (TaskState::Start, TaskEvent::Checked { running: _, statistics, now }) => {
            match spec_roll_wait_target(roll_after_claim, statistics) {
                Some(t) => {
                    if now < t {
                        assert(0 < t - now <= u64::MAX);
                        assert((spec_wait_millis(t as int, now as int) as u64) as int == t - now);
                    }
                },
                None => {},
            }
        },
        (TaskState::Waiting(t), TaskEvent::Woke { statistics: _, now }) => {
            if now < t {
                assert(0 < t - now <= u64::MAX);
                assert((spec_wait_millis(t as int, now as int) as u64) as int == t - now);
            }
        },
        (TaskState::Rolling(t), TaskEvent::Rolled { now }) => {
            if now < t {
                assert(0 < t - now <= u64::MAX);
                assert((spec_wait_millis(t as int, now as int) as u64) as int == t - now);
            }
        },
        _ => {},
    }
}

} // verus!
