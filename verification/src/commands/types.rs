//! The commands the sniper sends to the bot, and what comes back.
use vstd::prelude::*;
use vstd::string::StringExecFns;

use crate::entities::message::{EmojiData, MessageData};

verus! {

/// Which character list a roll draws from.
#[derive(Debug, Clone, Copy, PartialEq, Eq, Structural)]
pub enum RollType {
    Waifu,
    Wa,
    Wg,
    Husband,
    Ha,
    Hg,
}

/// A command the sniper sends.
#[derive(Debug, Clone, Copy, PartialEq, Eq, Structural)]
pub enum CommandType {
    /// `$daily`: the daily reward.
    Daily,
    /// `$dk`: the daily kakera.
    DailyKakera,
    /// `$k`: the kakera stock and badges.
    Kakera,
    /// A roll.
    Roll(RollType),
    /// `$tu`: the timers and resources.
    Tu,
}

/// What kind of answer a command waits for.
#[derive(Debug, Clone, Copy, PartialEq, Eq, Structural)]
pub enum FeedbackType {
    Message,
    Reaction,
}

/// The answer a command got: a message, or a reaction with its emoji.
#[derive(Debug, Clone)]
pub enum CommandFeedback {
    Msg(MessageData),
    React(EmojiData),
}

/// The name of a roll command, without the prefix.
pub open spec fn roll_suffix(r: RollType) -> Seq<char> {
    match r {
        RollType::Waifu => "w"@,
        RollType::Wa => "wa"@,
        RollType::Wg => "wg"@,
        RollType::Husband => "h"@,
        RollType::Ha => "ha"@,
        RollType::Hg => "hg"@,
    }
}

/// The name of a command, without the prefix.
pub open spec fn command_suffix(c: CommandType) -> Seq<char> {
    match c {
        CommandType::Daily => "daily"@,
        CommandType::DailyKakera => "dk"@,
        CommandType::Kakera => "k"@,
        CommandType::Roll(r) => roll_suffix(r),
        CommandType::Tu => "tu"@,
    }
}

/// The roll whose command is named `name` (without the prefix).
pub open spec fn spec_roll_type_from_name(name: Seq<char>) -> Option<RollType> {
    if name == "w"@ {
        Some(RollType::Waifu)
    } else if name == "wa"@ {
        Some(RollType::Wa)
    } else if name == "wg"@ {
        Some(RollType::Wg)
    } else if name == "h"@ {
        Some(RollType::Husband)
    } else if name == "ha"@ {
        Some(RollType::Ha)
    } else if name == "hg"@ {
        Some(RollType::Hg)
    } else {
        None
    }
}

impl RollType {
    /// The name of this roll's command, without the prefix.
    pub fn suffix(&self) -> (r: &'static str)
        ensures
            r@ == roll_suffix(*self),
    {
        match self {
            RollType::Waifu => "w",
            RollType::Wa => "wa",
            RollType::Wg => "wg",
            RollType::Husband => "h",
            RollType::Ha => "ha",
            RollType::Hg => "hg",
        }
    }

    /// The roll whose command is named `name`, as the roll command of the settings
    /// gives it (`"w"`, `"wa"`, `"wg"`, `"h"`, `"ha"` or `"hg"`); `None` otherwise.
    pub fn from_name(name: &str) -> (r: Option<RollType>)
        ensures
            r == spec_roll_type_from_name(name@),
    {
        let s = String::from_str(name);
        if s == String::from_str("w") {
            Some(RollType::Waifu)
        } else if s == String::from_str("wa") {
            Some(RollType::Wa)
        } else if s == String::from_str("wg") {
            Some(RollType::Wg)
        } else if s == String::from_str("h") {
            Some(RollType::Husband)
        } else if s == String::from_str("ha") {
            Some(RollType::Ha)
        } else if s == String::from_str("hg") {
            Some(RollType::Hg)
        } else {
            None
        }
    }
}

impl CommandType {
    /// The name of this command, without the prefix.
    pub fn suffix(&self) -> (r: &'static str)
        ensures
            r@ == command_suffix(*self),
    {
        match self {
            CommandType::Daily => "daily",
            CommandType::DailyKakera => "dk",
            CommandType::Kakera => "k",
            CommandType::Roll(roll_type) => roll_type.suffix(),
            CommandType::Tu => "tu",
        }
    }

    /// The text sent for this command: the bot's prefix, then the command's name
    /// (`$daily`, `$wa`, `$tu` with the prefix `$`).
    pub fn command_text(&self, prefix: &str) -> (r: String)
        ensures
            r@ == prefix@ + command_suffix(*self),
    {
        let mut s = String::from_str(prefix);
        s.append(self.suffix());
        s
    }
}

/// Reading a roll's command name gives the roll back.
pub proof fn lemma_roll_name_round_trip(r: RollType)
    ensures
        spec_roll_type_from_name(roll_suffix(r)) == Some(r),
{
    reveal_strlit("w");
    reveal_strlit("wa");
    reveal_strlit("wg");
    reveal_strlit("h");
    reveal_strlit("ha");
    reveal_strlit("hg");
    assert("w"@.len() == 1 && "h"@.len() == 1);
    assert("wa"@.len() == 2 && "wg"@.len() == 2 && "ha"@.len() == 2 && "hg"@.len() == 2);
    assert("w"@[0] == 'w' && "h"@[0] == 'h');
    assert("wa"@[0] == 'w' && "wa"@[1] == 'a' && "wg"@[1] == 'g');
    assert("ha"@[0] == 'h' && "ha"@[1] == 'a' && "hg"@[0] == 'h' && "hg"@[1] == 'g');
    assert("wg"@[0] == 'w');
    assert("w"@ != "h"@);
    assert("wa"@ != "wg"@ && "wa"@ != "ha"@ && "wa"@ != "hg"@);
    assert("wg"@ != "ha"@ && "wg"@ != "hg"@ && "ha"@ != "hg"@);
}

/// Every command's text starts with the prefix and goes on with the command's name.
pub proof fn lemma_command_text_starts_with_prefix(c: CommandType, prefix: Seq<char>)
    ensures
        (prefix + command_suffix(c)).subrange(0, prefix.len() as int) == prefix,
{
    assert((prefix + command_suffix(c)).subrange(0, prefix.len() as int) =~= prefix);
}

} // verus!
