use mudae_sniper::commands::types::{CommandType, RollType};
use mudae_sniper::settings::env_settings::{EnvSettingsError, Settings};

#[test]
fn command_texts() {
    assert_eq!(CommandType::Daily.command_text("$"), "$daily");
    assert_eq!(CommandType::DailyKakera.command_text("$"), "$dk");
    assert_eq!(CommandType::Tu.command_text("!"), "!tu");
    assert_eq!(CommandType::Kakera.command_text("$"), "$k");
    assert_eq!(CommandType::Roll(RollType::Wa).command_text("$"), "$wa");
    assert_eq!(CommandType::Roll(RollType::Husband).command_text("$$"), "$$h");
}

#[test]
fn roll_types_from_names() {
    for r in [RollType::Waifu, RollType::Wa, RollType::Wg, RollType::Husband, RollType::Ha, RollType::Hg] {
        assert_eq!(RollType::from_name(r.suffix()), Some(r));
    }
    assert_eq!(RollType::from_name("$wa"), None);
    assert_eq!(RollType::from_name(""), None);
}

#[test]
fn env_settings() {
    let s = Settings::from_values("tok".to_string(), "12", "1,2,x,3,", "99").unwrap();
    assert_eq!(s.token, "tok");
    assert_eq!(s.guild_id, 12);
    assert_eq!(s.channels_ids, vec![1, 2, 3]);
    assert_eq!(s.client_id, 99);
    assert_eq!(Settings::from_values(String::new(), "g", "", "x").err(), Some(EnvSettingsError::InvalidGuildId));
    assert_eq!(Settings::from_values(String::new(), "1", "", "x").err(), Some(EnvSettingsError::InvalidClientId));
}
