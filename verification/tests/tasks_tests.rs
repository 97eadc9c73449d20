use mudae_sniper::commands::types::{CommandType, RollType};
use mudae_sniper::entities::instance::Instance;
use mudae_sniper::entities::message::EmojiData;
use mudae_sniper::entities::statistics::Statistics;
use mudae_sniper::logger::{record_line, LogLevel, Logger};
use mudae_sniper::tasks::autoroll::{roll_cards_step, roll_commands, roll_wait_target};
use mudae_sniper::tasks::daily_claimer::{daily_claimer_step, is_daily_confirmation};
use mudae_sniper::tasks::daily_kakera_claimer::{claimed_kakera, daily_kakera_claimer_step, is_daily_kakera_answer};
use mudae_sniper::tasks::{TaskAction, TaskEvent, TaskState};
use mudae_sniper::commands::types::CommandFeedback;
use mudae_sniper::entities::message::MessageData;
use mudae_sniper::tasks::{record_daily_claim, record_daily_kakera_claim, wait_millis};

fn stats(rolls: u8, can_claim: bool) -> Statistics {
    Statistics {
        claim_time: 100,
        rolls_remaining: rolls,
        next_rolls: 200,
        next_daily: 0,
        next_kakera_react: 0,
        kakera_power: 0,
        kakera_cost: 0,
        kakera_cost_half: 0,
        kakera_stock: 10,
        next_rt: None,
        next_dk: 0,
        rolls_reset_stock: 0,
        can_claim,
    }
}

fn instance(roll_after_claim: bool) -> Instance {
    Instance { name: "i".to_string(), channel_id: 1, roll_after_claim }
}

#[test]
fn waits() {
    assert_eq!(wait_millis(1500, 1000), 500);
    assert_eq!(wait_millis(1000, 1000), 0);
    assert_eq!(wait_millis(900, 1000), 0);
}

#[test]
fn roll_strategy() {
    let stop = instance(false);
    let go = instance(true);
    assert_eq!(roll_wait_target(&stop, &stats(5, true)), None);
    assert_eq!(roll_wait_target(&stop, &stats(5, false)), Some(100));
    assert_eq!(roll_wait_target(&stop, &stats(0, true)), Some(200));
    assert_eq!(roll_wait_target(&go, &stats(5, false)), None);
    assert_eq!(roll_wait_target(&go, &stats(0, false)), Some(200));
    let cmds = roll_commands(3, RollType::Wa);
    assert_eq!(cmds, vec![CommandType::Roll(RollType::Wa); 3]);
    assert!(roll_commands(0, RollType::Wa).is_empty());
}

#[test]
fn daily_claims() {
    let s = record_daily_claim(&stats(1, true), 1000);
    assert_eq!(s.next_daily, 1000 + 72_000_000);
    assert_eq!(s.kakera_stock, 10);
    let k = record_daily_kakera_claim(&stats(1, true), Some(777), 5);
    assert_eq!(k.kakera_stock, 777);
    assert_eq!(k.next_dk, 5 + 72_000_000);
    let unchanged = record_daily_kakera_claim(&stats(1, true), None, 5);
    assert_eq!(unchanged.kakera_stock, 10);
    assert!(is_daily_confirmation(&EmojiData::Unicode("✅".to_string())));
    assert!(!is_daily_confirmation(&EmojiData::Unicode("❌".to_string())));
    assert!(!is_daily_confirmation(&EmojiData::Custom(1)));
    assert_eq!(claimed_kakera("**allma_** +**1.250**:kakera:"), Some(1250));
    assert!(is_daily_kakera_answer("+**300**"));
    assert!(!is_daily_kakera_answer("not yet"));
}

#[test]
fn logger_filter() {
    let l = Logger;
    assert!(l.enabled(LogLevel::Error, LogLevel::Info));
    assert!(!l.enabled(LogLevel::Debug, LogLevel::Info));
    assert!(l.shows(LogLevel::Info, LogLevel::Trace, "mudae_sniper"));
    assert!(!l.shows(LogLevel::Info, LogLevel::Trace, "serenity"));
    assert!(!l.shows(LogLevel::Trace, LogLevel::Warn, "mudae_sniper"));
    assert_eq!(LogLevel::Error.color(), "\x1b[38;2;243;139;168m");
    assert_eq!(LogLevel::Trace.rank(), 5);
}

fn checked(running: bool, st: Statistics, now: i64) -> TaskEvent {
    TaskEvent::Checked { running, statistics: st, now }
}

#[test]
fn daily_step_cycle() {
    let mut st = stats(1, true);
    st.next_daily = 5_000;
    assert_eq!(
        daily_claimer_step(TaskState::Start, checked(false, st, 0)),
        (TaskState::Start, TaskAction::CheckAfter(60_000))
    );
    assert_eq!(
        daily_claimer_step(TaskState::Start, checked(true, st, 1_000)),
        (TaskState::Waiting(5_000), TaskAction::WakeAfter(4_000))
    );
    assert_eq!(
        daily_claimer_step(TaskState::Waiting(5_000), TaskEvent::Woke { statistics: st, now: 4_999 }),
        (TaskState::Waiting(5_000), TaskAction::WakeAfter(1))
    );
    assert_eq!(
        daily_claimer_step(TaskState::Waiting(5_000), TaskEvent::Woke { statistics: st, now: 5_000 }),
        (TaskState::Answering, TaskAction::Send(CommandType::Daily))
    );
    assert_eq!(
        daily_claimer_step(TaskState::Start, checked(true, st, 9_000)),
        (TaskState::Answering, TaskAction::Send(CommandType::Daily))
    );
    assert_eq!(
        daily_claimer_step(TaskState::Answering, TaskEvent::Answered(Some(CommandFeedback::React(EmojiData::Unicode("✅".to_string()))))),
        (TaskState::Start, TaskAction::Confirmed(CommandType::Daily))
    );
    assert_eq!(
        daily_claimer_step(TaskState::Answering, TaskEvent::Answered(None)),
        (TaskState::Start, TaskAction::CheckAfter(0))
    );
}

#[test]
fn daily_kakera_step_cycle() {
    let mut st = stats(1, true);
    st.next_dk = 100;
    assert_eq!(
        daily_kakera_claimer_step(TaskState::Start, checked(true, st, 40)),
        (TaskState::Waiting(100), TaskAction::WakeAfter(60))
    );
    assert_eq!(
        daily_kakera_claimer_step(TaskState::Waiting(100), TaskEvent::Woke { statistics: st, now: 100 }),
        (TaskState::Answering, TaskAction::Send(CommandType::DailyKakera))
    );
    let answer = MessageData {
        id: 1, author_id: 2, channel_id: 3, content: "+**300**".to_string(), embeds: vec![], rows: vec![],
    };
    assert_eq!(
        daily_kakera_claimer_step(TaskState::Answering, TaskEvent::Answered(Some(CommandFeedback::Msg(answer)))),
        (TaskState::Start, TaskAction::Confirmed(CommandType::DailyKakera))
    );
    assert_eq!(
        daily_kakera_claimer_step(TaskState::Answering, TaskEvent::Answered(Some(CommandFeedback::React(EmojiData::Custom(1))))),
        (TaskState::Start, TaskAction::CheckAfter(0))
    );
}

#[test]
fn roll_step_cycle() {
    let stop = instance(false);
    // claim missing under "stop after claim": wait for the claim's return
    assert_eq!(
        roll_cards_step(&stop, TaskState::Start, checked(true, stats(5, false), 40)),
        (TaskState::Waiting(100), TaskAction::WakeAfter(60))
    );
    // on waking, roll as many times as the statistics then read leave
    assert_eq!(
        roll_cards_step(&stop, TaskState::Waiting(100), TaskEvent::Woke { statistics: stats(7, true), now: 100 }),
        (TaskState::Rolling(200), TaskAction::Roll(7))
    );
    assert_eq!(
        roll_cards_step(&stop, TaskState::Waiting(100), TaskEvent::Woke { statistics: stats(7, true), now: 99 }),
        (TaskState::Waiting(100), TaskAction::WakeAfter(1))
    );
    assert_eq!(
        roll_cards_step(&stop, TaskState::Start, checked(true, stats(3, true), 0)),
        (TaskState::Rolling(200), TaskAction::Roll(3))
    );
    assert_eq!(
        roll_cards_step(&stop, TaskState::Rolling(200), TaskEvent::Rolled { now: 50 }),
        (TaskState::Start, TaskAction::RefreshThenCheck(150))
    );
    assert_eq!(
        roll_cards_step(&stop, TaskState::Start, checked(false, stats(3, true), 0)),
        (TaskState::Start, TaskAction::CheckAfter(60_000))
    );
}

#[test]
fn logger_record_line() {
    let pairs = vec![("id".to_string(), "7".to_string())];
    let line = record_line(LogLevel::Info, "2024-01-01 12:00:00 UTC", "sniped", &pairs);
    assert_eq!(
        line,
        "\x1b[38;2;89;180;250m[\x1b[1mINFO] [2024-01-01 12:00:00 UTC]: \x1b[0msniped \x1b[3m\x1b[38;2;89;180;250mid=7\x1b[0m\x1b[0m"
    );
    assert_eq!(
        record_line(LogLevel::Warn, "t", "m", &Vec::new()),
        "\x1b[38;2;249;226;175m[\x1b[1mWARN] [t]: \x1b[0mm"
    );
    for (ours, theirs) in [
        (LogLevel::Error, log::Level::Error),
        (LogLevel::Warn, log::Level::Warn),
        (LogLevel::Info, log::Level::Info),
        (LogLevel::Debug, log::Level::Debug),
        (LogLevel::Trace, log::Level::Trace),
    ] {
        assert_eq!(ours.name(), theirs.to_string());
    }
}
