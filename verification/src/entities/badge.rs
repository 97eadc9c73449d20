//! Mudae badges: their kinds, their four levels, and what they are worth.
use vstd::prelude::*;
use vstd::string::StringExecFns;

use crate::settings::mudae_config::MudaeSettings;
use crate::text::{chars_of, eq_ignore_ascii_case, lowercase_spells};

verus! {

/// The level of a badge, from one to four.
#[derive(Debug, Clone, Copy, PartialEq, Eq, Hash, Structural)]
pub enum BadgeLevel {
    One,
    Two,
    Three,
    Four,
}

/// The kind of a badge.
#[derive(Debug, Clone, Copy, PartialEq, Eq, Hash, Structural)]
pub enum BadgeType {
    Bronze,
    Silver,
    Gold,
    Sapphire,
    Ruby,
    Emerald,
}

/// A badge that the player holds: its kind at some level.
#[derive(Debug, Clone, Copy, PartialEq, Eq, Structural)]
pub struct Badge {
    pub level: BadgeLevel,
    pub badge_type: BadgeType,
}

/// The kind that a badge name stands for, its letters compared without regard to case.
pub open spec fn spec_badge_type_from_name(name: Seq<char>) -> Option<BadgeType> {
    if lowercase_spells(name, "bronze"@) {
        Some(BadgeType::Bronze)
    } else if lowercase_spells(name, "silver"@) {
        Some(BadgeType::Silver)
    } else if lowercase_spells(name, "gold"@) {
        Some(BadgeType::Gold)
    } else if lowercase_spells(name, "sapphire"@) {
        Some(BadgeType::Sapphire)
    } else if lowercase_spells(name, "ruby"@) {
        Some(BadgeType::Ruby)
    } else if lowercase_spells(name, "emerald"@) {
        Some(BadgeType::Emerald)
    } else {
        None
    }
}

impl BadgeType {
    /// The kind named `name`, whatever the case of its letters (`"Bronze"`, `"RUBY"`);
    /// `None` for any other text. Lowercasing with `str::to_lowercase` and comparing
    /// gives the same answer for these six words, none of which holds a `k`.
    pub fn from_name(name: &str) -> (r: Option<Self>)
        ensures
            r == spec_badge_type_from_name(name@),
    {
        let cs = chars_of(name);
        if eq_ignore_ascii_case(&cs, "bronze") {
            Some(BadgeType::Bronze)
        } else if eq_ignore_ascii_case(&cs, "silver") {
            Some(BadgeType::Silver)
        } else if eq_ignore_ascii_case(&cs, "gold") {
            Some(BadgeType::Gold)
        } else if eq_ignore_ascii_case(&cs, "sapphire") {
            Some(BadgeType::Sapphire)
        } else if eq_ignore_ascii_case(&cs, "ruby") {
            Some(BadgeType::Ruby)
        } else if eq_ignore_ascii_case(&cs, "emerald") {
            Some(BadgeType::Emerald)
        } else {
            None
        }
    }
}

/// The number of a level, from 1 to 4.
pub open spec fn level_number(level: BadgeLevel) -> nat {
    match level {
        BadgeLevel::One => 1,
        BadgeLevel::Two => 2,
        BadgeLevel::Three => 3,
        BadgeLevel::Four => 4,
    }
}

/// The level whose number is `n`, if any.
pub open spec fn level_of_number(n: nat) -> Option<BadgeLevel> {
    if n == 1 {
        Some(BadgeLevel::One)
    } else if n == 2 {
        Some(BadgeLevel::Two)
    } else if n == 3 {
        Some(BadgeLevel::Three)
    } else if n == 4 {
        Some(BadgeLevel::Four)
    } else {
        None
    }
}

/// The level that a Roman numeral from `I` to `IV` stands for.
pub open spec fn spec_level_from_roman(numeral: Seq<char>) -> Option<BadgeLevel> {
    if numeral == "I"@ {
        Some(BadgeLevel::One)
    } else if numeral == "II"@ {
        Some(BadgeLevel::Two)
    } else if numeral == "III"@ {
        Some(BadgeLevel::Three)
    } else if numeral == "IV"@ {
        Some(BadgeLevel::Four)
    } else {
        None
    }
}

impl BadgeLevel {
    /// The level above this one; `None` for the fourth.
    pub fn next_level(&self) -> (r: Option<BadgeLevel>)
        ensures
            r == level_of_number(level_number(*self) + 1),
    {
        match self {
            BadgeLevel::One => Some(BadgeLevel::Two),
            BadgeLevel::Two => Some(BadgeLevel::Three),
            BadgeLevel::Three => Some(BadgeLevel::Four),
            BadgeLevel::Four => None,
        }
    }

    /// The level below this one; `None` for the first.
    pub fn previous_level(&self) -> (r: Option<BadgeLevel>)
        ensures
            r == level_of_number((level_number(*self) - 1) as nat),
    {
        match self {
            BadgeLevel::One => None,
            BadgeLevel::Two => Some(BadgeLevel::One),
            BadgeLevel::Three => Some(BadgeLevel::Two),
            BadgeLevel::Four => Some(BadgeLevel::Three),
        }
    }

    /// The level numbered `level`; `None` outside 1 to 4.
    pub fn from_number(level: u8) -> (r: Option<Self>)
        ensures
            r == level_of_number(level as nat),
    {
        match level {
            1 => Some(Self::One),
            2 => Some(Self::Two),
            3 => Some(Self::Three),
            4 => Some(Self::Four),
            _ => None,
        }
    }

    /// The number of this level.
    pub fn as_u8(&self) -> (r: u8)
        ensures
            r as nat == level_number(*self),
    {
        match self {
            BadgeLevel::One => 1,
            BadgeLevel::Two => 2,
            BadgeLevel::Three => 3,
            BadgeLevel::Four => 4,
        }
    }

    /// The level written as the Roman numeral `numeral` (`"I"`, `"II"`, `"III"` or
    /// `"IV"`), as the bot prints it after a badge's name; `None` for any other text.
    pub fn from_roman_algarism(numeral: &str) -> (r: Option<Self>)
        ensures
            r == spec_level_from_roman(numeral@),
    {
        let s = String::from_str(numeral);
        if s == String::from_str("I") {
            Some(BadgeLevel::One)
        } else if s == String::from_str("II") {
            Some(BadgeLevel::Two)
        } else if s == String::from_str("III") {
            Some(BadgeLevel::Three)
        } else if s == String::from_str("IV") {
            Some(BadgeLevel::Four)
        } else {
            None
        }
    }
}

/// The base value of a badge kind. The table is built from the bronze value alone:
/// every kind is priced at `base_bronze_value`.
pub open spec fn spec_base_badge_price(prices: &MudaeSettings, badge_type: BadgeType) -> nat {
    prices.base_bronze_value as nat
}

/// The base value of `badge_type` under `prices` (see `spec_base_badge_price`).
pub fn base_badge_price(prices: &MudaeSettings, badge_type: BadgeType) -> (r: u16)
    ensures
        r as nat == spec_base_badge_price(prices, badge_type),
{
    match badge_type {
        BadgeType::Bronze => prices.base_bronze_value,
        BadgeType::Silver => prices.base_bronze_value,
        BadgeType::Gold => prices.base_bronze_value,
        BadgeType::Sapphire => prices.base_bronze_value,
        BadgeType::Ruby => prices.base_bronze_value,
        BadgeType::Emerald => prices.base_bronze_value,
    }
}

/// What a badge is worth: its kind's base value times its level's number.
pub open spec fn spec_badge_value(prices: &MudaeSettings, badge: Badge) -> nat {
    spec_base_badge_price(prices, badge.badge_type) * level_number(badge.level)
}

impl Badge {
    /// What this badge is worth. The product must fit in a `u16`.
    pub fn value(&self, prices: &MudaeSettings) -> (r: u16)
        requires
            spec_badge_value(prices, *self) <= u16::MAX,
        ensures
            r as nat == spec_badge_value(prices, *self),
    {
        let base = base_badge_price(prices, self.badge_type);
        let level = self.level.as_u8() as u16;
        assert(base * level <= u16::MAX);
        base * level
    }

    /// What raising this badge to the next level costs: the kind's base value times the
    /// next level's number; `None` at the fourth level. The product must fit in a `u16`.
    pub fn upgrade_cost(&self, prices: &MudaeSettings) -> (r: Option<u16>)
        requires
            level_of_number(level_number(self.level) + 1) is Some ==> spec_base_badge_price(
                prices,
                self.badge_type,
            ) * (level_number(self.level) + 1) <= u16::MAX,
        ensures
            match level_of_number(level_number(self.level) + 1) {
                Some(next) => r == Some((spec_base_badge_price(prices, self.badge_type) * level_number(next)) as u16),
                None => r is None,
            },
    {
        let next_level = match self.level.next_level() {
            Some(l) => l,
            None => return None,
        };
        let base = base_badge_price(prices, self.badge_type);
        let level = next_level.as_u8() as u16;
        assert(base * level <= u16::MAX);
        Some(base * level)
    }
}

/// Going one level up and then one level down (or down, then up) returns to the start.
pub proof fn lemma_next_previous_inverse(a: BadgeLevel, b: BadgeLevel)
    ensures
        level_of_number(level_number(a) + 1) == Some(b) <==> level_of_number(
            (level_number(b) - 1) as nat,
        ) == Some(a),
{
}

/// Every level has a number from 1 to 4, and that number names the level.
pub proof fn lemma_level_number_round_trip(level: BadgeLevel)
    ensures
        1 <= level_number(level) <= 4,
        level_of_number(level_number(level)) == Some(level),
{
}

/// A number names a level exactly when it lies from 1 to 4.
pub proof fn lemma_level_of_number_range(n: nat)
    ensures
        level_of_number(n) is Some <==> 1 <= n <= 4,
        level_of_number(n) matches Some(l) ==> level_number(l) == n,
{
}

/// Raising a badge costs what the badge is worth at the next level.
pub proof fn lemma_upgrade_cost_is_next_value(prices: &MudaeSettings, badge: Badge)
    ensures
        level_of_number(level_number(badge.level) + 1) matches Some(next) ==> spec_base_badge_price(
            prices,
            badge.badge_type,
        ) * level_number(next) == spec_badge_value(
            prices,
            Badge { level: next, badge_type: badge.badge_type },
        ),
{
}

/// A badge at a higher level is worth at least as much.
pub proof fn lemma_badge_value_grows_with_level(prices: &MudaeSettings, t: BadgeType, a: BadgeLevel, b: BadgeLevel)
    requires
        level_number(a) <= level_number(b),
    ensures
        spec_badge_value(prices, Badge { level: a, badge_type: t }) <= spec_badge_value(
            prices,
            Badge { level: b, badge_type: t },
        ),
{
    let p = spec_base_badge_price(prices, t);
    assert(p * level_number(a) <= p * level_number(b)) by (nonlinear_arith)
        requires
            level_number(a) <= level_number(b),
    ;
}

} // verus!
