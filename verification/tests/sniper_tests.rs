use mudae_sniper::commands::types::{CommandFeedback, CommandType};
use mudae_sniper::commands::MUDAE_BOT_ID;
use mudae_sniper::entities::badge::{Badge, BadgeLevel, BadgeType};
use mudae_sniper::entities::instance::Instance;
use mudae_sniper::entities::kakera::Kakera;
use mudae_sniper::entities::message::{ButtonKindData, ComponentData, EmbedData, EmojiData, MessageData};
use mudae_sniper::entities::statistics::Statistics;
use mudae_sniper::handler::{setup_start, setup_step, Handler, MessagePlan, SetupFailure, SetupOutcome, SetupState};
use mudae_sniper::snipers::errors::{CaptureError, UpdateStatisticsError};
use mudae_sniper::snipers::sniper::last_line_value;
use mudae_sniper::snipers::Sniper;
use mudae_sniper::utils::{InvalidStatisticsData, StatisticsFault};

const BLUE: u64 = 1097914834244337784;
const RED: u64 = 1097914903915925716;
const CHANNEL: u64 = 77;

fn stats(power: u8, cost: u8, stock: u32) -> Statistics {
    Statistics {
        claim_time: 10,
        rolls_remaining: 3,
        next_rolls: 20,
        next_daily: 30,
        next_kakera_react: 40,
        kakera_power: power,
        kakera_cost: cost,
        kakera_cost_half: cost / 2,
        kakera_stock: stock,
        next_rt: Some(50),
        next_dk: 60,
        rolls_reset_stock: 0,
        can_claim: true,
    }
}

fn instance() -> Instance {
    Instance { name: "main".to_string(), channel_id: CHANNEL, roll_after_claim: false }
}

fn sniper(st: Statistics) -> Sniper {
    Sniper::new(5, st, vec![], instance())
}

fn button(id: &str, emoji: Option<EmojiData>) -> ComponentData {
    ComponentData::Button {
        data: ButtonKindData::NonLink { custom_id: id.to_string(), style: 2 },
        emoji,
    }
}

fn message(description: Option<&str>, row: Vec<ComponentData>) -> MessageData {
    MessageData {
        id: 999,
        author_id: MUDAE_BOT_ID,
        channel_id: CHANNEL,
        content: String::new(),
        embeds: vec![EmbedData { description: description.map(|d| d.to_string()) }],
        rows: vec![row],
    }
}

#[test]
fn snipe_pays_and_stocks() {
    let mut s = sniper(stats(100, 40, 1000));
    let msg = message(
        Some("Someone's loot\n150"),
        vec![button("a", Some(EmojiData::Custom(BLUE))), button("b", Some(EmojiData::Custom(RED))), button("c", Some(EmojiData::Custom(BLUE)))],
    );
    let out = s.snipe_kakeras(&msg);
    assert_eq!(out.clicks, vec!["a".to_string(), "b".to_string()]);
    assert_eq!(out.kakeras, vec![Kakera::Blue(150), Kakera::Red(150)]);
    assert!(!out.halted);
    let st = s.statistics_copy();
    assert_eq!(st.kakera_power, 20);
    assert_eq!(st.kakera_stock, 1300);
}

#[test]
fn snipe_presses_but_gains_nothing_without_value() {
    let mut s = sniper(stats(100, 10, 0));
    let msg = message(Some("no number\n"), vec![button("a", Some(EmojiData::Custom(BLUE)))]);
    let out = s.snipe_kakeras(&msg);
    assert_eq!(out.clicks, vec!["a".to_string()]);
    assert!(out.kakeras.is_empty());
    assert_eq!(s.statistics_copy(), stats(100, 10, 0));
}

#[test]
fn snipe_skips_other_components_and_unknown_emoji() {
    let mut s = sniper(stats(100, 10, 0));
    let msg = message(
        Some("5"),
        vec![
            ComponentData::SelectMenu,
            ComponentData::Button { data: ButtonKindData::Link { url: "u".to_string() }, emoji: None },
            button("x", Some(EmojiData::Unicode("❤".to_string()))),
            button("y", Some(EmojiData::Custom(12345))),
        ],
    );
    let out = s.snipe_kakeras(&msg);
    assert_eq!(out.clicks, vec!["y".to_string()]);
    assert!(out.kakeras.is_empty());
    assert!(!out.halted);
}

#[test]
fn snipe_halts_on_button_without_emoji() {
    let mut s = sniper(stats(100, 10, 0));
    let msg = message(Some("5"), vec![button("a", Some(EmojiData::Custom(BLUE))), button("b", None), button("c", Some(EmojiData::Custom(BLUE)))]);
    let out = s.snipe_kakeras(&msg);
    assert_eq!(out.clicks, vec!["a".to_string()]);
    assert_eq!(out.kakeras, vec![Kakera::Blue(5)]);
    assert!(out.halted);
}

#[test]
fn snipe_halts_on_stock_overflow() {
    let mut s = sniper(stats(100, 10, u32::MAX - 3));
    let msg = message(Some("5"), vec![button("a", Some(EmojiData::Custom(BLUE)))]);
    let out = s.snipe_kakeras(&msg);
    assert!(out.halted);
    assert!(out.kakeras.is_empty());
    assert_eq!(s.statistics_copy().kakera_power, 90);
    assert_eq!(s.statistics_copy().kakera_stock, u32::MAX - 3);
}

#[test]
fn snipe_ignores_other_messages() {
    let mut s = sniper(stats(100, 10, 0));
    let mut msg = message(Some("5"), vec![button("a", Some(EmojiData::Custom(BLUE)))]);
    msg.channel_id = CHANNEL + 1;
    let out = s.snipe_kakeras(&msg);
    assert!(out.clicks.is_empty());
    let mut no_desc = message(None, vec![button("a", Some(EmojiData::Custom(BLUE)))]);
    no_desc.author_id = MUDAE_BOT_ID;
    assert!(s.snipe_kakeras(&no_desc).clicks.is_empty());
    let low = sniper(stats(5, 10, 0));
    let mut low = low;
    let msg = message(Some("5"), vec![button("a", Some(EmojiData::Custom(BLUE)))]);
    assert!(low.snipe_kakeras(&msg).clicks.is_empty());
}

#[test]
fn last_line_of_description() {
    assert_eq!(last_line_value(&"a\n12".to_string()), Some(12));
    assert_eq!(last_line_value(&"a\n12\n".to_string()), None);
    assert_eq!(last_line_value(&"70000".to_string()), None);
}

#[test]
fn capture_card_picks_first_button() {
    let s = sniper(stats(0, 0, 0));
    assert_eq!(s.capture_card(&message(Some(""), vec![button("claim", None)])).unwrap(), "claim");
    match s.capture_card(&message(Some(""), vec![])) {
        Err(CaptureError::MissingComponent) => {}
        _ => panic!("expected MissingComponent"),
    }
    let mut no_rows = message(Some(""), vec![]);
    no_rows.rows.clear();
    assert!(matches!(s.capture_card(&no_rows), Err(CaptureError::MissingComponent)));
    match s.capture_card(&message(Some(""), vec![ComponentData::SelectMenu])) {
        Err(CaptureError::NotAButton(ComponentData::SelectMenu)) => {}
        _ => panic!("expected NotAButton"),
    }
    let link = ComponentData::Button { data: ButtonKindData::Link { url: "https://x".to_string() }, emoji: None };
    match s.capture_card(&message(Some(""), vec![link])) {
        Err(CaptureError::InvalidButton(ButtonKindData::Link { url })) => assert_eq!(url, "https://x"),
        _ => panic!("expected InvalidButton"),
    }
}

#[test]
fn update_statistics_from_feedback() {
    let mut s = sniper(stats(1, 1, 1));
    let before = s.statistics_copy();
    assert!(matches!(s.update_statistics(None, 0), Err(UpdateStatisticsError::MissingCommandFeedback)));
    assert_eq!(s.statistics_copy(), before);
    let bad = message(Some(""), vec![]);
    let mut bad = bad;
    bad.content = "too short".to_string();
    match s.update_statistics(Some(CommandFeedback::Msg(bad)), 0) {
        Err(UpdateStatisticsError::InvalidStatistics(InvalidStatisticsData(StatisticsFault::InputFormat))) => {}
        other => panic!("unexpected {other:?}"),
    }
    assert_eq!(s.statistics_copy(), before);
    let mut good = message(Some(""), vec![]);
    good.content = "x\n7\n0\n0\n0\n0\n0\n0\n0\n0\n0".to_string();
    assert!(s.update_statistics(Some(CommandFeedback::Msg(good)), 1000).is_ok());
    assert_eq!(s.statistics_copy().rolls_remaining, 7);
    assert_eq!(s.statistics_copy().claim_time, 1000);
    assert!(!s.statistics_copy().can_claim);
    assert_eq!(s.instance_ref().channel_id, CHANNEL);
}

#[test]
fn click_payload_fields() {
    let s = sniper(stats(0, 0, 0));
    let p = s.click_payload("abc", 123456789012, 1700000000000);
    assert_eq!(p.kind, 3);
    assert_eq!(p.guild_id, "5");
    assert_eq!(p.channel_id, "77");
    assert_eq!(p.message_id, "123456789012");
    assert_eq!(p.application_id, "432610292342587392");
    assert_eq!(p.session_id, "1700000000000");
    assert_eq!(p.component_type, 2);
    assert_eq!(p.custom_id, "abc");
}

#[test]
fn plan_for_messages() {
    let st = stats(0, 0, 0);
    let card = message(Some("Naruto\n**300**<:kakera:1>\nReact"), vec![button("claim", None)]);
    assert_eq!(
        Handler {}.plan_message(&card, 1, Some(st), 40, 200),
        MessagePlan { start_setup: false, snipe: true, capture: true }
    );
    assert_eq!(
        Handler {}.plan_message(&card, 1, Some(st), 39, 301),
        MessagePlan { start_setup: false, snipe: false, capture: false }
    );
    let mut cannot = st;
    cannot.can_claim = false;
    assert_eq!(Handler {}.plan_message(&card, 1, Some(cannot), 100, 0).capture, false);
    assert_eq!(Handler {}.plan_message(&card, 1, None, 100, 0), MessagePlan { start_setup: false, snipe: false, capture: false });
    let mut start = message(None, vec![]);
    start.author_id = 1;
    start.content = "!start".to_string();
    assert_eq!(Handler {}.plan_message(&start, 1, Some(st), 100, 0), MessagePlan { start_setup: true, snipe: false, capture: false });
    assert!(!Handler {}.plan_message(&start, 2, Some(st), 100, 0).start_setup);
}

#[test]
fn setup_flow() {
    let (cmd, state) = setup_start();
    assert_eq!(cmd, CommandType::Tu);
    assert_eq!(state, SetupState::AwaitingStatistics);
    let mut tu = message(None, vec![]);
    tu.content = "x\n7\n0\n0\n0\n0\n0\n0\n0\n0\n0".to_string();
    let st = match setup_step(5, instance(), state, Some(CommandFeedback::Msg(tu)), 0) {
        SetupOutcome::Ask(CommandType::Kakera, SetupState::AwaitingBadges(st)) => st,
        _ => panic!("expected to ask for badges"),
    };
    assert_eq!(st.rolls_remaining, 7);
    let k = message(Some("Silver III · 6,000 :kakera:"), vec![]);
    match setup_step(5, instance(), SetupState::AwaitingBadges(st), Some(CommandFeedback::Msg(k)), 0) {
        SetupOutcome::Register(s) => {
            assert_eq!(s.badges, vec![Badge { level: BadgeLevel::Three, badge_type: BadgeType::Silver }]);
            assert_eq!(s.statistics_copy(), st);
            assert_eq!(s.guild_id, 5);
            assert!(s.running);
        }
        _ => panic!("expected a sniper"),
    }
    assert!(matches!(setup_step(5, instance(), SetupState::AwaitingStatistics, None, 0), SetupOutcome::Skip));
    assert!(matches!(
        setup_step(5, instance(), SetupState::AwaitingBadges(st), Some(CommandFeedback::React(EmojiData::Custom(1))), 0),
        SetupOutcome::Skip
    ));
    assert!(matches!(
        setup_step(5, instance(), SetupState::AwaitingBadges(st), Some(CommandFeedback::Msg(message(None, vec![]))), 0),
        SetupOutcome::Failed(SetupFailure::MissingDescription)
    ));
    assert!(matches!(
        setup_step(5, instance(), SetupState::AwaitingBadges(st), Some(CommandFeedback::Msg(message(Some("Tin II · 5 :kakera:"), vec![]))), 0),
        SetupOutcome::Failed(SetupFailure::InvalidBadges)
    ));
    let mut bad = message(None, vec![]);
    bad.content = "short".to_string();
    assert!(matches!(
        setup_step(5, instance(), SetupState::AwaitingStatistics, Some(CommandFeedback::Msg(bad)), 0),
        SetupOutcome::Failed(SetupFailure::Statistics(_))
    ));
}

#[test]
fn record_claims() {
    let mut s = sniper(stats(1, 1, 10));
    s.record_daily_claim(1_000);
    assert_eq!(s.statistics_copy().next_daily, 1_000 + 72_000_000);
    s.record_daily_kakera_claim(Some(42), 2_000);
    assert_eq!(s.statistics_copy().kakera_stock, 42);
    assert_eq!(s.statistics_copy().next_dk, 2_000 + 72_000_000);
    s.record_daily_kakera_claim(None, 3_000);
    assert_eq!(s.statistics_copy().kakera_stock, 42);
}
