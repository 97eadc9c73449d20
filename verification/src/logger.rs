//! Which log records are shown, and in which colour.
use vstd::prelude::*;
use vstd::string::StringExecFns;

verus! {

/// The target that the sniper's own records carry; records of other targets are not shown.
pub const LOG_TARGET: &'static str = "mudae_sniper";

/// The severity of a record, from the most to the least severe.
#[derive(Debug, Clone, Copy, PartialEq, Eq, Structural)]
pub enum LogLevel {
    Error,
    Warn,
    Info,
    Debug,
    Trace,
}

/// The rank of a level: 1 for `Error` up to 5 for `Trace`.
pub open spec fn level_rank(level: LogLevel) -> nat {
    match level {
        LogLevel::Error => 1,
        LogLevel::Warn => 2,
        LogLevel::Info => 3,
        LogLevel::Debug => 4,
        LogLevel::Trace => 5,
    }
}

/// The terminal colour of a level's records.
pub open spec fn level_color(level: LogLevel) -> Seq<char> {
    match level {
        LogLevel::Trace => "\x1b[38;2;203;166;247m"@,
        LogLevel::Debug => "\x1b[38;2;166;227;161m"@,
        LogLevel::Info => "\x1b[38;2;89;180;250m"@,
        LogLevel::Warn => "\x1b[38;2;249;226;175m"@,
        LogLevel::Error => "\x1b[38;2;243;139;168m"@,
    }
}

/// The code that ends a coloured span.
pub const END_COLOR: &'static str = "\x1b[0m";

/// The sniper's logger: it shows the sniper's own records up to a greatest level.
pub struct Logger;

impl LogLevel {
    /// The rank of this level.
    pub fn rank(&self) -> (r: u8)
        ensures
            r as nat == level_rank(*self),
    {
        match self {
            LogLevel::Error => 1,
            LogLevel::Warn => 2,
            LogLevel::Info => 3,
            LogLevel::Debug => 4,
            LogLevel::Trace => 5,
        }
    }

    /// The terminal colour of this level's records.
    pub fn color(&self) -> (r: &'static str)
        ensures
            r@ == level_color(*self),
    {
        match self {
            LogLevel::Trace => "\x1b[38;2;203;166;247m",
            LogLevel::Debug => "\x1b[38;2;166;227;161m",
            LogLevel::Info => "\x1b[38;2;89;180;250m",
            LogLevel::Warn => "\x1b[38;2;249;226;175m",
            LogLevel::Error => "\x1b[38;2;243;139;168m",
        }
    }
}

impl Logger {
    /// Records of `level` are enabled when it is no less severe than `max_level`.
    pub fn enabled(&self, level: LogLevel, max_level: LogLevel) -> (b: bool)
        ensures
            b == (level_rank(level) <= level_rank(max_level)),
    {
        level.rank() <= max_level.rank()
    }

    /// A record is shown when its level is enabled and it carries the sniper's target.
    pub fn shows(&self, level: LogLevel, max_level: LogLevel, target: &str) -> (b: bool)
        ensures
            b == (level_rank(level) <= level_rank(max_level) && target@ == LOG_TARGET@),
    {
        self.enabled(level, max_level) && String::from_str(target) == String::from_str(LOG_TARGET)
    }
}

/// The name a level is shown with.
pub open spec fn level_name(level: LogLevel) -> Seq<char> {
    match level {
        LogLevel::Error => "ERROR"@,
        LogLevel::Warn => "WARN"@,
        LogLevel::Info => "INFO"@,
        LogLevel::Debug => "DEBUG"@,
        LogLevel::Trace => "TRACE"@,
    }
}

/// How one key and value of a record are shown: in italics, in the level's colour.
pub open spec fn pair_text(color: Seq<char>, key: Seq<char>, value: Seq<char>) -> Seq<char> {
    " \x1b[3m"@ + color + key + "="@ + value + END_COLOR@ + "\x1b[0m"@
}

/// The keys and values `pairs` as they are shown, one after another.
pub open spec fn pairs_text(color: Seq<char>, pairs: Seq<(Seq<char>, Seq<char>)>) -> Seq<char>
    decreases pairs.len(),
{
    if pairs.len() == 0 {
        Seq::empty()
    } else {
        pairs_text(color, pairs.drop_last()) + pair_text(color, pairs.last().0, pairs.last().1)
    }
}

/// The line a record of `level` shows: the level in bold and the local time `time` in
/// the level's colour, then the message, then its keys and values.
pub open spec fn record_text(
    level: LogLevel,
    time: Seq<char>,
    message: Seq<char>,
    pairs: Seq<(Seq<char>, Seq<char>)>,
) -> Seq<char> {
    level_color(level) + "[\x1b[1m"@ + level_name(level) + "] ["@ + time + "]: "@ + END_COLOR@
        + message + pairs_text(level_color(level), pairs)
}

impl LogLevel {
    /// The name this level is shown with.
    pub fn name(&self) -> (r: &'static str)
        ensures
            r@ == level_name(*self),
    {
        match self {
            LogLevel::Error => "ERROR",
            LogLevel::Warn => "WARN",
            LogLevel::Info => "INFO",
            LogLevel::Debug => "DEBUG",
            LogLevel::Trace => "TRACE",
        }
    }
}

/// The line that a record of `level` with the message `message` and the keys and values
/// `pairs`, written at the local time `time`, is shown as.
pub fn record_line(level: LogLevel, time: &str, message: &str, pairs: &Vec<(String, String)>) -> (r:
    String)
    ensures
        r@ == record_text(level, time@, message@, pairs@.map_values(|p: (String, String)| (p.0@, p.1@))),
{
    let color = level.color();
    let mut out = String::from_str(color);
    out.append("[\x1b[1m");
    out.append(level.name());
    out.append("] [");
    out.append(time);
    out.append("]: ");
    out.append(END_COLOR);
    out.append(message);
    let ghost head = out@;
    let ghost pv = pairs@.map_values(|p: (String, String)| (p.0@, p.1@));
    let mut k: usize = 0;
    while k < pairs.len()
        invariant
            k <= pairs.len(),
            pv == pairs@.map_values(|p: (String, String)| (p.0@, p.1@)),
            color@ == level_color(level),
            out@ == head + pairs_text(color@, pv.take(k as int)),
        decreases pairs.len() - k,
    {
        let ghost before = out@;
        out.append(" \x1b[3m");
        out.append(color);
        out.append(pairs[k].0.as_str());
        out.append("=");
        out.append(pairs[k].1.as_str());
        out.append(END_COLOR);
        out.append("\x1b[0m");
        proof {
            assert(pv.take(k + 1).drop_last() =~= pv.take(k as int));
            assert(pv.take(k + 1).last() == pv[k as int]);
            assert(out@ =~= before + pair_text(color@, pv[k as int].0, pv[k as int].1));
        }
        k = k + 1;
    }
    proof {
        assert(pv.take(pairs.len() as int) =~= pv);
        assert(out@ =~= record_text(level, time@, message@, pv));
    }
    out
}

} // verus!
