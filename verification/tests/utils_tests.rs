use mudae_sniper::utils::{
    badges_are_readable, extract_badges, extract_kakera_value, try_extract_badges, extract_statistics, extract_statistics_at, first_number,
    has_number, parse_num, InvalidStatisticsData, StatisticsFault,
};
use mudae_sniper::entities::badge::{Badge, BadgeLevel, BadgeType};
use mudae_sniper::entities::message::EmbedData;

const PTBR: &str = "**allma_**, você __pode__ se casar agora mesmo! A próxima reinicialização é em **2h 40** min.
Você tem **10** rolls restantes.
A próxima reinicialização é em **40** min.
Você __pode__ pegar kakera agora!
Power: **100%**
Cada reação de kakera consume 100% de seu reaction power.
Seus Personagens com 10+ chaves consome metade do power (50%)
Stock: **257**:kakera:
Próximo reset do $daily em **9h 49** min.
$dk está pronto!
A recarga do $rt ainda não acabou. Tempo restante: **34h 35** min. ($rtu)
Você tem **32** rolls reset no estoque";

const EN: &str = "**allma_**, you __can__ claim right now! The next claim reset is in **1h 29** min.
You have **17** rolls left. Next rolls reset in **29** min.
You __can__ react to kakera right now!
Power: **110%**
Each kakera reaction consumes 36% of your reaction power.
Your characters with 10+ keys consume half the power (18%)
Stock: **7,611**<:kakera:469835869059153940>
Next $daily reset in **9h 45** min.
Next $dk in **9h 45** min.
The cooldown of $rt is not over. Time left: **36h 00** min. ($rtu)
You have **35** rolls reset in stock.";

#[test]
fn test_get_status_ptbr() {
    let text = PTBR;
    let status = extract_statistics(text);
    assert!(status.is_ok());
}

#[test]
fn test_get_status_en() {
    let text = EN;
    let status = extract_statistics(text);
    assert!(status.is_ok());
}

#[test]
fn test_get_status_fr() {
    let text = "**allma_**, vous __pouvez__ vous marier dès maintenant ! Le prochain reset est dans **1h 29** min.
Vous avez **17** rolls restants.
Prochain rolls reset dans **29** min.
Vous __pouvez__ réagir aux kakera dès maintenant !
Power: **110%**
Chaque réaction à un kakera consomme 36% de votre pouvoir de réaction.
Vos personnages possédant 10+ keys consomment moitié moins de pouvoir (18%)
Stock: **7.611**<:kakera:469835869059153940>
Prochain $daily reset dans **9h 45** min.
Prochain $dk dans **9h 45** min.
$rt n'est pas encore disponible. Temps restant : **36h 00** min. ($rtu)
Vous avez **35** rolls reset en stock.";
    let status = extract_statistics(text);
    assert!(status.is_ok());
}

#[test]
fn test_get_status_es() {
    let text =
				  "**allma_**, __puedes__ reclamar ahora mismo. El siguiente reclamo será en **1h 28** min.
Tienes **17** rolls restantes.
El siguiente reinicio será en **28** min.
¡__Puedes__ reaccionar a kakera en este momento!
Poder: **110%**
Cada reacción de kakera consume 36% de su poder de reacción.
Tus personajes con 10+ llaves, consumen la mitad del poder (18%)
Capital: **7.611**<:kakera:469835869059153940>
Siguiente reinicio de $daily en **9h 44** min.
Siguiente $dk en **9h 44** min.
El enfriamiento de $rt no ha terminado. Tiempo restante: **35h 59** min. ($rtu)
Tienes **35** reinicios de rolls en el inventario.";
    let status = extract_statistics(text);
    assert!(status.is_ok());
}

const HOUR: i64 = 3_600_000;
const MINUTE: i64 = 60_000;

#[test]
fn statistics_ptbr_values_at_fixed_instant() {
    let now: i64 = 1_000_000;
    let s = extract_statistics_at(PTBR, now).unwrap();
    // "**2h 40** min": the second number counts hours, the first minutes.
    assert_eq!(s.claim_time, now + 40 * HOUR + 2 * MINUTE);
    assert_eq!(s.rolls_remaining, 10);
    assert_eq!(s.next_rolls, now + 40 * MINUTE);
    assert_eq!(s.next_kakera_react, now);
    assert_eq!(s.kakera_power, 100);
    assert_eq!(s.kakera_cost, 100);
    assert_eq!(s.kakera_cost_half, 50);
    assert_eq!(s.kakera_stock, 257);
    assert_eq!(s.next_daily, now + 49 * HOUR + 9 * MINUTE);
    assert_eq!(s.next_dk, now);
    assert_eq!(s.next_rt, Some(now + 35 * HOUR + 34 * MINUTE));
    assert_eq!(s.rolls_reset_stock, 32);
    assert!(s.can_claim);
}

#[test]
fn statistics_en_values_follow_line_positions() {
    let now: i64 = 0;
    let s = extract_statistics_at(EN, now).unwrap();
    assert_eq!(s.claim_time, 29 * HOUR + MINUTE);
    assert_eq!(s.rolls_remaining, 17);
    assert_eq!(s.next_rolls, 0);
    assert_eq!(s.next_kakera_react, 110 * MINUTE);
    assert_eq!(s.kakera_power, 36);
    assert_eq!(s.kakera_cost, 10);
    // "7,611" and the emoji id do not read as u32.
    assert_eq!(s.kakera_cost_half, 0);
    assert_eq!(s.kakera_stock, 9);
    assert_eq!(s.next_daily, 45 * HOUR + 9 * MINUTE);
    assert_eq!(s.next_dk, 36 * MINUTE);
    assert_eq!(s.next_rt, Some(35 * MINUTE));
    assert_eq!(s.rolls_reset_stock, 0);
    assert!(s.can_claim);
}

#[test]
fn statistics_refuse_wrong_line_counts() {
    assert_eq!(
        extract_statistics_at("one\ntwo\nthree", 0),
        Err(InvalidStatisticsData(StatisticsFault::InputFormat))
    );
    let thirteen = "a\nb\nc\nd\ne\nf\ng\nh\ni\nj\nk\nl\nm";
    assert_eq!(
        extract_statistics_at(thirteen, 0),
        Err(InvalidStatisticsData(StatisticsFault::InputFormat))
    );
    let eleven_with_final_newline = "a\nb\nc\nd\ne\nf\ng\nh\ni\nj\nk\n";
    assert!(extract_statistics_at(eleven_with_final_newline, 0).is_ok());
}

#[test]
fn statistics_without_underline_cannot_claim() {
    let text = "you can't claim for another **1h 05** min.\n1\n2\n3\n4\n5\n6\n7\n8\n9\n10";
    let s = extract_statistics_at(text, 0).unwrap();
    assert!(!s.can_claim);
    assert_eq!(s.claim_time, 5 * HOUR + MINUTE);
    assert_eq!(s.rolls_remaining, 1);
}

#[test]
fn statistics_counts_are_cut_like_casts() {
    let text = "x\n300\n0\n0\n513\n0\n0\n0\n0\n0\n0\n70000";
    let s = extract_statistics_at(text, 0).unwrap();
    assert_eq!(s.rolls_remaining, 44);
    assert_eq!(s.kakera_power, 1);
    assert_eq!(s.rolls_reset_stock, 4464);
}

#[test]
fn invalid_statistics_message() {
    let e = InvalidStatisticsData(StatisticsFault::InputFormat);
    assert_eq!(e.to_string(), "erro ao extrair estatísticas: invalid statistics input format");
    assert_eq!(InvalidStatisticsData(StatisticsFault::Clock).reason(), "clock unavailable");
}

#[test]
fn badges_are_read_from_kakera_answer() {
    let text = "Kakera: 1,234\n:bronze: Bronze IV · 4,000 :kakera:\nRuby II · 14,000:kakera:";
    assert!(badges_are_readable(text));
    let badges = extract_badges(text);
    assert_eq!(
        badges,
        vec![
            Badge { level: BadgeLevel::Four, badge_type: BadgeType::Bronze },
            Badge { level: BadgeLevel::Two, badge_type: BadgeType::Ruby },
        ]
    );
}

#[test]
fn badges_absent_gives_empty_list() {
    assert_eq!(extract_badges("no badges here"), vec![]);
    assert_eq!(try_extract_badges("no badges here"), Some(vec![]));
}

#[test]
fn badges_with_unknown_name_are_refused() {
    assert!(try_extract_badges("Platinum II · 1,000 :kakera:").is_none());
    assert!(!badges_are_readable("Platinum I · 100 :kakera:"));
}

#[test]
fn badges_with_unknown_level_are_refused() {
    assert!(try_extract_badges("Gold V · 1,000 :kakera:").is_none());
}

#[test]
fn numbers_in_text() {
    assert_eq!(parse_num("7,611"), Some(7611));
    assert_eq!(parse_num("1.234.567"), Some(1234567));
    assert_eq!(parse_num("abc"), None);
    assert_eq!(parse_num("4294967296"), None);
    assert_eq!(first_number("You got **1,250** kakera and 3 more"), Some(1250));
    assert_eq!(first_number("nothing"), None);
    assert!(has_number("a 5 b"));
    assert!(!has_number("none"));
}

#[test]
fn kakera_value_of_rolled_card() {
    let embed = EmbedData {
        description: Some("Jujutsu Kaisen\n**325**<:kakera:469835869059153940>\nReact to claim".to_string()),
    };
    assert_eq!(extract_kakera_value(&embed), Some(325));
    let plain = EmbedData { description: Some("no value".to_string()) };
    assert_eq!(extract_kakera_value(&plain), None);
    let none = EmbedData { description: None };
    assert_eq!(extract_kakera_value(&none), None);
}

#[test]
fn local_time_is_the_current_instant() {
    let before = std::time::SystemTime::now()
        .duration_since(std::time::UNIX_EPOCH)
        .unwrap()
        .as_millis() as i64;
    let t = mudae_sniper::utils::get_local_time().unwrap();
    let after = std::time::SystemTime::now()
        .duration_since(std::time::UNIX_EPOCH)
        .unwrap()
        .as_millis() as i64;
    assert!(before <= t && t <= after);
}

#[test]
fn extract_statistics_reads_at_the_current_instant() {
    let before = mudae_sniper::utils::get_local_time().unwrap();
    let s = extract_statistics(PTBR).unwrap();
    let after = mudae_sniper::utils::get_local_time().unwrap();
    assert!(before <= s.next_kakera_react && s.next_kakera_react <= after);
}

#[test]
fn extract_statistics_refuses_a_text_of_the_wrong_length() {
    assert_eq!(
        extract_statistics("one\ntwo\nthree"),
        Err(InvalidStatisticsData(StatisticsFault::InputFormat))
    );
}
