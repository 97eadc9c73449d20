//! Kakera, the bot's currency: the colour of a crystal and the amount it carries.
use vstd::prelude::*;
use vstd::string::StringExecFns;

use crate::text::{decimal_digits, push_decimal};

verus! {

/// A kakera crystal of some colour, with the amount it is worth.
#[derive(Debug, Clone, Copy, PartialEq, Eq, Structural)]
pub enum Kakera {
    Purple(u16),
    Blue(u16),
    Teal(u16),
    Green(u16),
    Yellow(u16),
    Orange(u16),
    Red(u16),
    Rainbow(u16),
    Light(u16),
}

/// The emoji id of the purple kakera button.
pub const PURPLE_EMOJI_ID: u64 = 1097914822462545951;
/// The emoji id of the blue kakera button.
pub const BLUE_EMOJI_ID: u64 = 1097914834244337784;
/// The emoji id of the teal kakera button.
pub const TEAL_EMOJI_ID: u64 = 1097914851772342322;
/// The emoji id of the green kakera button.
pub const GREEN_EMOJI_ID: u64 = 1097914861419245639;
/// The emoji id of the yellow kakera button.
pub const YELLOW_EMOJI_ID: u64 = 1097914885343543407;
/// The emoji id of the orange kakera button.
pub const ORANGE_EMOJI_ID: u64 = 1097914894558433451;
/// The emoji id of the red kakera button.
pub const RED_EMOJI_ID: u64 = 1097914903915925716;
/// The emoji id of the rainbow kakera button.
pub const RAINBOW_EMOJI_ID: u64 = 608192076286263297;
/// The emoji id of the light kakera button.
pub const LIGHT_EMOJI_ID: u64 = 1097914945699581973;

/// The amount a crystal carries.
pub open spec fn spec_kakera_value(k: Kakera) -> u16 {
    match k {
        Kakera::Purple(v) => v,
        Kakera::Blue(v) => v,
        Kakera::Teal(v) => v,
        Kakera::Green(v) => v,
        Kakera::Yellow(v) => v,
        Kakera::Orange(v) => v,
        Kakera::Red(v) => v,
        Kakera::Rainbow(v) => v,
        Kakera::Light(v) => v,
    }
}

/// The crystal whose button shows the emoji `id`, carrying `value`.
pub open spec fn spec_kakera_from_emoji_id(id: u64, value: u16) -> Option<Kakera> {
    if id == PURPLE_EMOJI_ID {
        Some(Kakera::Purple(value))
    } else if id == BLUE_EMOJI_ID {
        Some(Kakera::Blue(value))
    } else if id == TEAL_EMOJI_ID {
        Some(Kakera::Teal(value))
    } else if id == GREEN_EMOJI_ID {
        Some(Kakera::Green(value))
    } else if id == YELLOW_EMOJI_ID {
        Some(Kakera::Yellow(value))
    } else if id == ORANGE_EMOJI_ID {
        Some(Kakera::Orange(value))
    } else if id == RED_EMOJI_ID {
        Some(Kakera::Red(value))
    } else if id == RAINBOW_EMOJI_ID {
        Some(Kakera::Rainbow(value))
    } else if id == LIGHT_EMOJI_ID {
        Some(Kakera::Light(value))
    } else {
        None
    }
}

/// The colour's name, as it is written when a crystal is shown.
pub open spec fn kakera_name(k: Kakera) -> Seq<char> {
    match k {
        Kakera::Purple(_) => "Purple"@,
        Kakera::Blue(_) => "Blue"@,
        Kakera::Teal(_) => "Teal"@,
        Kakera::Green(_) => "Green"@,
        Kakera::Yellow(_) => "Yellow"@,
        Kakera::Orange(_) => "Orange"@,
        Kakera::Red(_) => "Red"@,
        Kakera::Rainbow(_) => "Rainbow"@,
        Kakera::Light(_) => "Light"@,
    }
}

/// How a crystal is shown: its colour, then its amount in brackets, as `Blue(120)`.
pub open spec fn kakera_text(k: Kakera) -> Seq<char> {
    kakera_name(k) + "("@ + decimal_digits(spec_kakera_value(k) as nat) + ")"@
}

/// Whether `id` is the emoji of one of the nine kakera buttons.
pub open spec fn is_kakera_emoji_id(id: u64) -> bool {
    id == PURPLE_EMOJI_ID || id == BLUE_EMOJI_ID || id == TEAL_EMOJI_ID || id == GREEN_EMOJI_ID || id == YELLOW_EMOJI_ID || id == ORANGE_EMOJI_ID || id == RED_EMOJI_ID || id == RAINBOW_EMOJI_ID || id == LIGHT_EMOJI_ID
}

/// Each kakera button's emoji gives a crystal of that button's colour, carrying the
/// amount given; an emoji of no kakera button gives none.
pub proof fn lemma_emoji_ids_name_their_colour(value: u16)
    ensures
        kakera_name(spec_kakera_from_emoji_id(PURPLE_EMOJI_ID, value)->0) == "Purple"@,
        spec_kakera_from_emoji_id(PURPLE_EMOJI_ID, value) == Some(Kakera::Purple(value)),
        kakera_name(spec_kakera_from_emoji_id(BLUE_EMOJI_ID, value)->0) == "Blue"@,
        spec_kakera_from_emoji_id(BLUE_EMOJI_ID, value) == Some(Kakera::Blue(value)),
        kakera_name(spec_kakera_from_emoji_id(TEAL_EMOJI_ID, value)->0) == "Teal"@,
        spec_kakera_from_emoji_id(TEAL_EMOJI_ID, value) == Some(Kakera::Teal(value)),
        kakera_name(spec_kakera_from_emoji_id(GREEN_EMOJI_ID, value)->0) == "Green"@,
        spec_kakera_from_emoji_id(GREEN_EMOJI_ID, value) == Some(Kakera::Green(value)),
        kakera_name(spec_kakera_from_emoji_id(YELLOW_EMOJI_ID, value)->0) == "Yellow"@,
        spec_kakera_from_emoji_id(YELLOW_EMOJI_ID, value) == Some(Kakera::Yellow(value)),
        kakera_name(spec_kakera_from_emoji_id(ORANGE_EMOJI_ID, value)->0) == "Orange"@,
        spec_kakera_from_emoji_id(ORANGE_EMOJI_ID, value) == Some(Kakera::Orange(value)),
        kakera_name(spec_kakera_from_emoji_id(RED_EMOJI_ID, value)->0) == "Red"@,
        spec_kakera_from_emoji_id(RED_EMOJI_ID, value) == Some(Kakera::Red(value)),
        kakera_name(spec_kakera_from_emoji_id(RAINBOW_EMOJI_ID, value)->0) == "Rainbow"@,
        spec_kakera_from_emoji_id(RAINBOW_EMOJI_ID, value) == Some(Kakera::Rainbow(value)),
        kakera_name(spec_kakera_from_emoji_id(LIGHT_EMOJI_ID, value)->0) == "Light"@,
        spec_kakera_from_emoji_id(LIGHT_EMOJI_ID, value) == Some(Kakera::Light(value)),
        forall|id: u64| !is_kakera_emoji_id(id) ==> #[trigger] spec_kakera_from_emoji_id(id, value) is None,
        forall|id: u64| is_kakera_emoji_id(id) ==> spec_kakera_value(#[trigger] spec_kakera_from_emoji_id(id, value)->0) == value,
{
}

impl Kakera {
    /// The amount this crystal carries.
    pub fn value(&self) -> (r: u16)
        ensures
            r == spec_kakera_value(*self),
    {
        match self {
            Kakera::Blue(v)
            | Kakera::Green(v)
            | Kakera::Light(v)
            | Kakera::Orange(v)
            | Kakera::Purple(v)
            | Kakera::Rainbow(v)
            | Kakera::Red(v)
            | Kakera::Teal(v)
            | Kakera::Yellow(v) => *v,
        }
    }

    /// The crystal whose button shows the emoji `id`, carrying `value`; `None` for an
    /// emoji that is no kakera.
    pub fn from_emoji_id(id: u64, value: u16) -> (r: Option<Kakera>)
        ensures
            r == spec_kakera_from_emoji_id(id, value),
            id == PURPLE_EMOJI_ID ==> r == Some(Kakera::Purple(value)),
            id == BLUE_EMOJI_ID ==> r == Some(Kakera::Blue(value)),
            id == TEAL_EMOJI_ID ==> r == Some(Kakera::Teal(value)),
            id == GREEN_EMOJI_ID ==> r == Some(Kakera::Green(value)),
            id == YELLOW_EMOJI_ID ==> r == Some(Kakera::Yellow(value)),
            id == ORANGE_EMOJI_ID ==> r == Some(Kakera::Orange(value)),
            id == RED_EMOJI_ID ==> r == Some(Kakera::Red(value)),
            id == RAINBOW_EMOJI_ID ==> r == Some(Kakera::Rainbow(value)),
            id == LIGHT_EMOJI_ID ==> r == Some(Kakera::Light(value)),
            r is None <==> !is_kakera_emoji_id(id),
    {
        proof {
            lemma_emoji_ids_name_their_colour(value);
        }
        match id {
            PURPLE_EMOJI_ID => Some(Kakera::Purple(value)),
            BLUE_EMOJI_ID => Some(Kakera::Blue(value)),
            TEAL_EMOJI_ID => Some(Kakera::Teal(value)),
            GREEN_EMOJI_ID => Some(Kakera::Green(value)),
            YELLOW_EMOJI_ID => Some(Kakera::Yellow(value)),
            ORANGE_EMOJI_ID => Some(Kakera::Orange(value)),
            RED_EMOJI_ID => Some(Kakera::Red(value)),
            RAINBOW_EMOJI_ID => Some(Kakera::Rainbow(value)),
            LIGHT_EMOJI_ID => Some(Kakera::Light(value)),
            _ => None,
        }
    }

    /// The colour's name.
    pub fn name(&self) -> (r: &'static str)
        ensures
            r@ == kakera_name(*self),
    {
        match self {
            Kakera::Purple(_) => "Purple",
            Kakera::Blue(_) => "Blue",
            Kakera::Teal(_) => "Teal",
            Kakera::Green(_) => "Green",
            Kakera::Yellow(_) => "Yellow",
            Kakera::Orange(_) => "Orange",
            Kakera::Red(_) => "Red",
            Kakera::Rainbow(_) => "Rainbow",
            Kakera::Light(_) => "Light",
        }
    }

    /// This crystal as it is shown, such as `Blue(120)`.
    pub fn to_string(&self) -> (r: String)
        ensures
            r@ == kakera_text(*self),
    {
        let mut s = String::from_str(self.name());
        s.append("(");
        push_decimal(&mut s, self.value() as u64);
        s.append(")");
        s
    }
}

/// The amount of a crystal found from its emoji id is the amount given.
pub proof fn lemma_emoji_kakera_keeps_value(id: u64, value: u16)
    ensures
        spec_kakera_from_emoji_id(id, value) matches Some(k) ==> spec_kakera_value(k) == value,
{
}

} // verus!
