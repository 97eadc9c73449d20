use mudae_sniper::entities::badge::{base_badge_price, Badge, BadgeLevel, BadgeType};
use mudae_sniper::entities::instance::Instance;
use mudae_sniper::entities::kakera::Kakera;
use mudae_sniper::settings::mudae_config::{
    default_base_bronze_value, default_base_emerald_value, default_base_gold_value,
    default_base_ruby_value, default_base_sapphire_value, default_base_silver_value,
    default_prefix, MudaeSettings,
};
use mudae_sniper::settings::sniper_config::{default_roll_after_claim, InstanceConfig};

fn prices() -> MudaeSettings {
    MudaeSettings {
        prefix: default_prefix(),
        base_bronze_value: default_base_bronze_value(),
        base_silver_value: default_base_silver_value(),
        base_gold_value: default_base_gold_value(),
        base_sapphire_value: default_base_sapphire_value(),
        base_ruby_value: default_base_ruby_value(),
        base_emerald_value: default_base_emerald_value(),
    }
}

#[test]
fn defaults() {
    let p = prices();
    assert_eq!(p.prefix, "$");
    assert_eq!(
        [p.base_bronze_value, p.base_silver_value, p.base_gold_value, p.base_sapphire_value, p.base_ruby_value, p.base_emerald_value],
        [1000, 2000, 3000, 5000, 7000, 9000]
    );
    assert!(!default_roll_after_claim());
}

#[test]
fn badge_type_from_name() {
    assert_eq!(BadgeType::from_name("Bronze"), Some(BadgeType::Bronze));
    assert_eq!(BadgeType::from_name("SILVER"), Some(BadgeType::Silver));
    assert_eq!(BadgeType::from_name("gold"), Some(BadgeType::Gold));
    assert_eq!(BadgeType::from_name("Sapphire"), Some(BadgeType::Sapphire));
    assert_eq!(BadgeType::from_name("rUbY"), Some(BadgeType::Ruby));
    assert_eq!(BadgeType::from_name("Emerald"), Some(BadgeType::Emerald));
    assert_eq!(BadgeType::from_name("Platinum"), None);
    assert_eq!(BadgeType::from_name("Bronze "), None);
    assert_eq!(BadgeType::from_name(""), None);
}

#[test]
fn badge_levels() {
    assert_eq!(BadgeLevel::One.next_level(), Some(BadgeLevel::Two));
    assert_eq!(BadgeLevel::Three.next_level(), Some(BadgeLevel::Four));
    assert_eq!(BadgeLevel::Four.next_level(), None);
    assert_eq!(BadgeLevel::One.previous_level(), None);
    assert_eq!(BadgeLevel::Four.previous_level(), Some(BadgeLevel::Three));
    for n in 0u8..=6 {
        let level = BadgeLevel::from_number(n);
        assert_eq!(level.is_some(), (1..=4).contains(&n));
        if let Some(l) = level {
            assert_eq!(l.as_u8(), n);
        }
    }
    assert_eq!(BadgeLevel::from_roman_algarism("I"), Some(BadgeLevel::One));
    assert_eq!(BadgeLevel::from_roman_algarism("II"), Some(BadgeLevel::Two));
    assert_eq!(BadgeLevel::from_roman_algarism("III"), Some(BadgeLevel::Three));
    assert_eq!(BadgeLevel::from_roman_algarism("IV"), Some(BadgeLevel::Four));
    assert_eq!(BadgeLevel::from_roman_algarism("V"), None);
    assert_eq!(BadgeLevel::from_roman_algarism("iv"), None);
}

#[test]
fn badge_values_use_the_bronze_base_for_every_kind() {
    let p = prices();
    assert_eq!(base_badge_price(&p, BadgeType::Emerald), 1000);
    let ruby_three = Badge { level: BadgeLevel::Three, badge_type: BadgeType::Ruby };
    assert_eq!(ruby_three.value(&p), 3000);
    assert_eq!(ruby_three.upgrade_cost(&p), Some(4000));
    let gold_four = Badge { level: BadgeLevel::Four, badge_type: BadgeType::Gold };
    assert_eq!(gold_four.value(&p), 4000);
    assert_eq!(gold_four.upgrade_cost(&p), None);
}

#[test]
fn kakera() {
    let k = Kakera::from_emoji_id(1097914834244337784, 120).unwrap();
    assert_eq!(k, Kakera::Blue(120));
    assert_eq!(k.value(), 120);
    assert_eq!(k.to_string(), "Blue(120)");
    assert_eq!(Kakera::from_emoji_id(608192076286263297, 0).unwrap().to_string(), "Rainbow(0)");
    assert_eq!(Kakera::from_emoji_id(1097914945699581973, 65535), Some(Kakera::Light(65535)));
    assert_eq!(Kakera::from_emoji_id(1, 5), None);
    assert_eq!(Kakera::Purple(7).name(), "Purple");
}

#[test]
fn instance_from_config() {
    let cfg = InstanceConfig { name: "main".to_string(), id: 42, roll_after_claim: true };
    let inst = Instance::from_config(&cfg);
    assert_eq!(inst.name, "main");
    assert_eq!(inst.id_as_u64(), 42);
    assert!(inst.roll_after_claim);
}
