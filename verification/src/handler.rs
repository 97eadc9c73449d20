//! What the sniper does with each message it sees, and how it sets itself up.
use vstd::prelude::*;
use vstd::string::StringExecFns;

use crate::commands::types::{CommandFeedback, CommandType};
use crate::commands::MUDAE_BOT_ID;

use crate::entities::instance::Instance;
use crate::entities::message::MessageData;
use crate::entities::statistics::Statistics;
use crate::snipers::Sniper;
use crate::utils::{
    badges_are_readable, extract_badges, extract_kakera_value, extract_statistics_at, spec_extract_badges,
    spec_extract_kakera_value, spec_extract_statistics, InvalidStatisticsData, MAX_TIME_MILLIS,
};

verus! {

/// The handler of the account's incoming messages.
pub struct Handler {}

/// What to do with one incoming message: set the snipers up, snipe its kakera, claim
/// its card.
#[derive(Debug, Clone, Copy, PartialEq, Eq, Structural)]
pub struct MessagePlan {
    pub start_setup: bool,
    pub snipe: bool,
    pub capture: bool,
}

/// The account's owner asked to start: the message is `!start`, written by `client_id`.
pub open spec fn spec_is_start_command(msg: MessageData, client_id: u64) -> bool {
    msg.author_id == client_id && msg.content@ == "!start"@
}

/// The message can be a rolled card: the bot wrote it, its first embed has a
/// description, and it has a row of components.
pub open spec fn spec_is_card_candidate(msg: MessageData) -> bool {
    &&& msg.author_id == MUDAE_BOT_ID
    &&& msg.embeds@.len() > 0
    &&& msg.embeds@[0].description is Some
    &&& msg.rows@.len() > 0
}

/// What to do with `msg`, given the statistics of the sniper of its channel (if there
/// is one), the instant `now` and the kakera value from which cards are claimed.
pub open spec fn spec_plan_message(
    msg: MessageData,
    client_id: u64,
    statistics: Option<Statistics>,
    now: i64,
    capture_threshold: u32,
) -> MessagePlan {
    let candidate = spec_is_card_candidate(msg) && statistics is Some;
    let st = statistics->0;
    MessagePlan {
        start_setup: spec_is_start_command(msg, client_id),
        snipe: candidate && st.next_kakera_react <= now,
        capture: candidate && match spec_extract_kakera_value(msg.embeds@[0]) {
            Some(v) => v >= capture_threshold && st.can_claim,
            None => false,
        },
    }
}

impl Handler {
    /// What to do with `msg` (see `spec_plan_message`). Sniping comes before claiming, and
    /// both use the statistics as they were when the message came.
    pub fn plan_message(
        &self,
        msg: &MessageData,
        client_id: u64,
        statistics: Option<Statistics>,
        now: i64,
        capture_threshold: u32,
    ) -> (r: MessagePlan)
        ensures
            r == spec_plan_message(*msg, client_id, statistics, now, capture_threshold),
    {
        let start_setup = msg.author_id == client_id && msg.content == String::from_str("!start");
        let mut plan = MessagePlan { start_setup, snipe: false, capture: false };
        if msg.author_id != MUDAE_BOT_ID || msg.embeds.len() == 0 || msg.rows.len() == 0 {
            return plan;
        }
        if msg.embeds[0].description.is_none() {
            return plan;
        }
        let st = match statistics {
            Some(s) => s,
            None => return plan,
        };
        plan.snipe = st.next_kakera_react <= now;
        match extract_kakera_value(&msg.embeds[0]) {
            Some(v) => {
                plan.capture = v >= capture_threshold && st.can_claim;
            },
            None => {},
        }
        plan
    }
}

/// Where the setting up of one instance stands.
#[derive(Debug, Clone, Copy, PartialEq, Eq, Structural)]
pub enum SetupState {
    /// `$tu` was sent; its answer is awaited.
    AwaitingStatistics,
    /// `$k` was sent after `$tu` gave these statistics; its answer is awaited.
    AwaitingBadges(Statistics),
}

/// Why setting up stopped; none of these lets the setting up go on.
#[derive(Debug, Clone, Copy, PartialEq, Eq, Structural)]
pub enum SetupFailure {
    /// The answer to `$tu` could not be read.
    Statistics(InvalidStatisticsData),
    /// The answer to `$k` has no embed with a description.
    MissingDescription,
    /// The answer to `$k` lists a badge that cannot be read.
    InvalidBadges,
}

/// What to do after an answer came, or did not.
pub enum SetupOutcome {
    /// Send this command and wait in this state.
    Ask(CommandType, SetupState),
    /// The instance is set up: keep this sniper for its channel.
    Register(Sniper),
    /// No answer came: leave this instance out.
    Skip,
    /// Stop setting up.
    Failed(SetupFailure),
}

/// The first step of setting up an instance: ask for its statistics.
pub fn setup_start() -> (r: (CommandType, SetupState))
    ensures
        r == (CommandType::Tu, SetupState::AwaitingStatistics),
{
    (CommandType::Tu, SetupState::AwaitingStatistics)
}

/// What the answer `feedback` in state `state` leads to, for `instance` in the guild
/// `guild_id`, read at the instant `now`: a `$tu` message gives statistics and the `$k`
/// command (or a failure when it cannot be read); then a `$k` message gives the badges
/// listed in its first embed and a running sniper; any other answer skips the instance.
pub fn setup_step(
    guild_id: u64,
    instance: Instance,
    state: SetupState,
    feedback: Option<CommandFeedback>,
    now: i64,
) -> (r: SetupOutcome)
    requires
        -MAX_TIME_MILLIS <= now <= MAX_TIME_MILLIS,
    ensures
        match (state, feedback) {
            (SetupState::AwaitingStatistics, Some(CommandFeedback::Msg(m))) => match spec_extract_statistics(
                m.content@,
                now as int,
            ) {
                Ok(st) => r == SetupOutcome::Ask(CommandType::Kakera, SetupState::AwaitingBadges(st)),
                Err(e) => r == SetupOutcome::Failed(SetupFailure::Statistics(e)),
            },
            (SetupState::AwaitingBadges(st), Some(CommandFeedback::Msg(m))) => {
                if m.embeds@.len() == 0 || m.embeds@[0].description is None {
                    r == SetupOutcome::Failed(SetupFailure::MissingDescription)
                } else {
                    match spec_extract_badges(m.embeds@[0].description->0@) {
                        Some(bs) => r matches SetupOutcome::Register(s) && s.spec_statistics() == st
                            && s.spec_badges() == bs && s.spec_instance() == instance
                            && s.spec_guild_id() == guild_id && s.spec_running(),
                        None => r == SetupOutcome::Failed(SetupFailure::InvalidBadges),
                    }
                }
            },
            _ => r is Skip,
        },
{
    match (state, feedback) {
        (SetupState::AwaitingStatistics, Some(CommandFeedback::Msg(m))) => match extract_statistics_at(
            m.content.as_str(),
            now,
        ) {
            Ok(st) => SetupOutcome::Ask(CommandType::Kakera, SetupState::AwaitingBadges(st)),
            Err(e) => SetupOutcome::Failed(SetupFailure::Statistics(e)),
        },
        (SetupState::AwaitingBadges(st), Some(CommandFeedback::Msg(m))) => {
            if m.embeds.len() == 0 {
                return SetupOutcome::Failed(SetupFailure::MissingDescription);
            }
            match &m.embeds[0].description {
                None => SetupOutcome::Failed(SetupFailure::MissingDescription),
                Some(d) => if badges_are_readable(d.as_str()) {
                    let badges = extract_badges(d.as_str());
                    SetupOutcome::Register(Sniper::new(guild_id, st, badges, instance))
                } else {
                    SetupOutcome::Failed(SetupFailure::InvalidBadges)
                },
            }
        },
        _ => SetupOutcome::Skip,
    }
}

} // verus!
