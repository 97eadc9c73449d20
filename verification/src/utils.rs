//! Reading the bot's texts: the numbers in a line, the badges of a `$k` answer,
//! the statistics of a `$tu` answer, and the clock that stamps them.
use vstd::prelude::*;
use vstd::string::StringExecFns;

use crate::entities::badge::{
    Badge, BadgeLevel, BadgeType, spec_badge_type_from_name, spec_level_from_roman,
};
use crate::entities::message::EmbedData;
use crate::entities::statistics::Statistics;
use crate::text::{
    contains_chars, lines_of, parse_u32, parse_unsigned, remove_separators, split_lines,
    without_separators, has_subsequence,
};

verus! {

/// A number as the bot writes it: digits, then optional groups of three digits
/// each led by `,` or `.`.
pub const NUMBERS_PATTERN: &'static str = "\\d+(?:[.,]\\d{3})*";

/// One badge line of a `$k` answer: optional emoji codes, the badge's name (group 1),
/// its level in Roman numerals (group 2), and after a `·` the kakera amount (group 3)
/// followed by the `:kakera:` emoji.
pub const BADGES_PATTERN: &'static str = "(?im)^(?::[A-Za-z]+\\w*:?)*\\s*([^\\d·\\n:]+)\\s+([IVXLC\\d]+)\\s+·[^\\n]*?(\\d{1,3}(?:[.,]\\d{3})*)\\s*:kakera:";

/// The greatest instant, in milliseconds since the Unix epoch, that this library handles.
/// chrono's dates end in the year 262142, well below it.
pub const MAX_TIME_MILLIS: i64 = 9_007_199_254_740_992;

/// What `regex::Regex::new(pattern)` and then `Regex::captures_iter(text)` give: one entry
/// per match, in the order the matches occur, holding the text of every capture group
/// (group 0 being the whole match, `None` for a group that took no part in the match);
/// `None` when `pattern` does not compile.
pub uninterp spec fn regex_captures(pattern: Seq<char>, text: Seq<char>) -> Option<
    Seq<Seq<Option<Seq<char>>>>,
>;

/// The text of each capture group of `caps`, as character sequences.
pub open spec fn captures_view(caps: Seq<Vec<Option<String>>>) -> Seq<Seq<Option<Seq<char>>>> {
    caps.map_values(
        |c: Vec<Option<String>>|
            c@.map_values(
                |g: Option<String>|
                    match g {
                        Some(t) => Some(t@),
                        None => None,
                    },
            ),
    )
}

/// Compiles `pattern` with `regex::Regex::new` and collects what `Regex::captures_iter`
/// yields on `text`, each group's `Match::as_str` turned into a `String`.
/// The contract only says that the result is the one `regex_captures` names for these
/// two arguments (`None` when compiling fails); what the regex engine matches is not stated.
#[verifier::external_body]
pub fn captures_all(pattern: &str, text: &str) -> (r: Option<Vec<Vec<Option<String>>>>)
    ensures
        match r {
            Some(caps) => regex_captures(pattern@, text@) == Some(captures_view(caps@)),
            None => regex_captures(pattern@, text@) is None,
        },
{
    match regex::Regex::new(pattern) {
        Ok(re) => Some(
            re.captures_iter(text).map(
                |c| c.iter().map(|g| g.map(|m| m.as_str().to_string())).collect(),
            ).collect(),
        ),
        Err(_) => None,
    }
}

/// The current instant, in milliseconds since the Unix epoch: `SystemTime::now()` less
/// `UNIX_EPOCH`, its seconds turned into an `i64` and the instant built with chrono's
/// `DateTime::from_timestamp`, read back with `timestamp_millis`. Each step that can fail
/// gives `None` (a clock before the epoch, seconds beyond `i64`, a date chrono cannot
/// represent); otherwise the seconds are non-negative and chrono's dates end in the year
/// 262142, so the value lies between 0 and `MAX_TIME_MILLIS`. Nothing else is claimed of it.
#[verifier::external_body]
pub fn get_local_time() -> (t: Option<i64>)
    ensures
        t matches Some(v) ==> 0 <= v <= MAX_TIME_MILLIS,
{
    let d = std::time::SystemTime::now().duration_since(std::time::UNIX_EPOCH).ok()?;
    let secs = i64::try_from(d.as_secs()).ok()?;
    chrono::DateTime::from_timestamp(secs, d.subsec_nanos()).map(|t| t.timestamp_millis())
}

/// Why a `$tu` answer could not be read.
#[derive(Debug, Clone, Copy, PartialEq, Eq, Structural)]
pub enum StatisticsFault {
    /// The answer does not have 11 or 12 lines.
    InputFormat,
    /// The number pattern did not compile.
    NumberPattern,
    /// The clock could not be read.
    Clock,
}

/// A `$tu` answer that could not be read.
#[derive(Debug, Clone, Copy, PartialEq, Eq, Structural)]
pub struct InvalidStatisticsData(pub StatisticsFault);

impl InvalidStatisticsData {
    /// The text of `reason`.
    pub open spec fn reason_text(&self) -> Seq<char> {
        match self.0 {
            StatisticsFault::InputFormat => "invalid statistics input format"@,
            StatisticsFault::NumberPattern => "number pattern does not compile"@,
            StatisticsFault::Clock => "clock unavailable"@,
        }
    }

    /// What went wrong, in a few words.
    pub fn reason(&self) -> (r: &'static str)
        ensures
            r@ == self.reason_text(),
    {
        match self.0 {
            StatisticsFault::InputFormat => "invalid statistics input format",
            StatisticsFault::NumberPattern => "number pattern does not compile",
            StatisticsFault::Clock => "clock unavailable",
        }
    }

    /// The message shown for this error.
    pub fn to_string(&self) -> (r: String)
        ensures
            r@ == "erro ao extrair estatísticas: "@ + self.reason_text(),
    {
        let mut s = String::from_str("erro ao extrair estatísticas: ");
        s.append(self.reason());
        s
    }
}

/// The values, as `u32`, of the whole matches in `caps` that read as a `u32`, in order;
/// the other matches are left out.
pub open spec fn match_numbers(caps: Seq<Seq<Option<Seq<char>>>>) -> Seq<u32>
    decreases caps.len(),
{
    if caps.len() == 0 {
        Seq::empty()
    } else {
        let init = match_numbers(caps.drop_last());
        let c = caps.last();
        if c.len() > 0 {
            match c[0] {
                Some(t) => match parse_unsigned(t, u32::MAX as nat) {
                    Some(v) => init.push(v as u32),
                    None => init,
                },
                None => init,
            }
        } else {
            init
        }
    }
}

/// The numbers of a line: the matches of `NUMBERS_PATTERN` that read as a `u32`.
pub open spec fn line_numbers(line: Seq<char>) -> Seq<u32> {
    match regex_captures(NUMBERS_PATTERN@, line) {
        Some(caps) => match_numbers(caps),
        None => Seq::empty(),
    }
}

/// The `j`-th number of the `i`-th line, or 0 where there is none.
pub open spec fn cell(rows: Seq<Seq<u32>>, i: int, j: int) -> u32 {
    if 0 <= i < rows.len() && 0 <= j < rows[i].len() {
        rows[i][j]
    } else {
        0
    }
}

/// The span, in milliseconds, that a line's first two numbers give: the second counts
/// hours and the first minutes.
pub open spec fn span_millis(first: u32, second: u32) -> int {
    second as int * 3_600_000 + first as int * 60_000
}

/// The instant `now` plus the span of line `i`.
pub open spec fn instant_of_row(rows: Seq<Seq<u32>>, i: int, now: int) -> i64 {
    (now + span_millis(cell(rows, i, 0), cell(rows, i, 1))) as i64
}

/// The statistics that the numbers of the answer's lines give at the instant `now`:
/// lines 0, 2, 3, 8, 9 and 10 hold spans after which the claim, the rolls, the kakera
/// reaction, `$daily`, `$dk` and `$rt` are back; lines 1, 4, 5, 7 and 11 hold the rolls
/// left, the reaction power, its cost, the kakera stock and the roll resets in stock;
/// line 6 holds the halved cost as its second number. Counts are cut to their type's
/// width as `as` casts do.
pub open spec fn statistics_from_rows(rows: Seq<Seq<u32>>, can_claim: bool, now: int) -> Statistics {
    Statistics {
        claim_time: instant_of_row(rows, 0, now),
        rolls_remaining: cell(rows, 1, 0) as u8,
        next_rolls: instant_of_row(rows, 2, now),
        next_daily: instant_of_row(rows, 8, now),
        next_kakera_react: instant_of_row(rows, 3, now),
        kakera_power: cell(rows, 4, 0) as u8,
        kakera_cost: cell(rows, 5, 0) as u8,
        kakera_cost_half: cell(rows, 6, 1) as u8,
        kakera_stock: cell(rows, 7, 0),
        next_rt: Some(instant_of_row(rows, 10, now)),
        next_dk: instant_of_row(rows, 9, now),
        rolls_reset_stock: cell(rows, 11, 0) as u16,
        can_claim,
    }
}

/// A claim is available when the answer's first line underlines its verb with `__`
/// (`you __can__ claim`), as the bot does only then.
pub open spec fn claim_available(first_line: Seq<char>) -> bool {
    has_subsequence(first_line, "__"@)
}

/// What reading the `$tu` answer `text` at the instant `now` gives.
pub open spec fn spec_extract_statistics(text: Seq<char>, now: int) -> Result<
    Statistics,
    InvalidStatisticsData,
> {
    let ls = lines_of(text);
    if !(11 <= ls.len() && ls.len() < 13) {
        Err(InvalidStatisticsData(StatisticsFault::InputFormat))
    } else if exists|i: int| 0 <= i < ls.len() && (#[trigger] regex_captures(NUMBERS_PATTERN@, ls[i])) is None {
        Err(InvalidStatisticsData(StatisticsFault::NumberPattern))
    } else {
        Ok(
            statistics_from_rows(
                Seq::new(ls.len(), |i: int| line_numbers(ls[i])),
                claim_available(ls[0]),
                now,
            ),
        )
    }
}

/// The `$tu` answer `text` has 11 or 12 lines and the number pattern reads each of them.
pub open spec fn statistics_readable(text: Seq<char>) -> bool {
    &&& 11 <= lines_of(text).len() <= 12
    &&& forall|i: int| 0 <= i < lines_of(text).len() ==> (#[trigger] regex_captures(NUMBERS_PATTERN@, lines_of(text)[i])) is Some
}

/// Every readable `$tu` answer is read, at any instant and whether or not a claim is
/// available; the statistics say a claim is available exactly when the first line
/// underlines it. Any other answer is refused, the same way at every instant.
pub proof fn lemma_readable_statistics_are_read(text: Seq<char>, now: int, other: int)
    ensures
        statistics_readable(text) ==> (spec_extract_statistics(text, now) matches Ok(s) && s.can_claim
            == claim_available(lines_of(text)[0])),
        !statistics_readable(text) ==> spec_extract_statistics(text, now) is Err && spec_extract_statistics(text, now)
            == spec_extract_statistics(text, other),
{
}

/// The numbers of the whole matches in `caps` that read as a `u32`.
pub fn numbers_from_captures(caps: &Vec<Vec<Option<String>>>) -> (r: Vec<u32>)
    ensures
        r@ == match_numbers(captures_view(caps@)),
{
    let mut r: Vec<u32> = Vec::new();
    let mut k: usize = 0;
    while k < caps.len()
        invariant
            k <= caps.len(),
            r@ == match_numbers(captures_view(caps@).take(k as int)),
        decreases caps.len() - k,
    {
        let ghost view = captures_view(caps@);
        assert(view.take(k + 1).drop_last() =~= view.take(k as int));
        assert(view.take(k + 1).last() == view[k as int]);
        let c = &caps[k];
        if c.len() > 0 {
            match &c[0] {
                Some(t) => match parse_u32(t.as_str()) {
                    Some(v) => r.push(v),
                    None => {},
                },
                None => {},
            }
        }
        k = k + 1;
    }
    assert(captures_view(caps@).take(caps.len() as int) =~= captures_view(caps@));
    r
}

/// The `j`-th number of the `i`-th row, or 0 where there is none.
fn cell_of(rows: &Vec<Vec<u32>>, i: usize, j: usize) -> (r: u32)
    ensures
        r == cell(rows@.map_values(|row: Vec<u32>| row@), i as int, j as int),
{
    if i < rows.len() && j < rows[i].len() {
        rows[i][j]
    } else {
        0
    }
}

/// `now` plus the span of the `i`-th row.
fn instant_of(rows: &Vec<Vec<u32>>, i: usize, now: i64) -> (r: i64)
    requires
        -MAX_TIME_MILLIS <= now <= MAX_TIME_MILLIS,
    ensures
        r == instant_of_row(rows@.map_values(|row: Vec<u32>| row@), i as int, now as int),
        r as int == now + span_millis(
            cell(rows@.map_values(|row: Vec<u32>| row@), i as int, 0),
            cell(rows@.map_values(|row: Vec<u32>| row@), i as int, 1),
        ),
{
    let first = cell_of(rows, i, 0) as i64;
    let second = cell_of(rows, i, 1) as i64;
    now + second * 3_600_000 + first * 60_000
}

/// The rows of numbers of the `$tu` answer `text` and whether a claim is available:
/// `InputFormat` when it has fewer than 11 or more than 12 lines, `NumberPattern` when
/// the number pattern does not compile. Neither outcome depends on the instant.
fn read_statistic_rows(text: &str) -> (r: Result<(Vec<Vec<u32>>, bool), InvalidStatisticsData>)
    ensures
        match r {
            Ok((rows, can_claim)) => forall|now: int|
                #[trigger] spec_extract_statistics(text@, now) == Ok::<Statistics, InvalidStatisticsData>(
                    statistics_from_rows(rows@.map_values(|row: Vec<u32>| row@), can_claim, now),
                ),
            Err(e) => forall|now: int| #[trigger] spec_extract_statistics(text@, now) == Err::<Statistics, InvalidStatisticsData>(e),
        },
{
    let lines = split_lines(text);
    let n = lines.len();
    if n < 11 || n >= 13 {
        return Err(InvalidStatisticsData(StatisticsFault::InputFormat));
    }
    let ghost ls = lines_of(text@);
    let mut rows: Vec<Vec<u32>> = Vec::new();
    let mut i: usize = 0;
    while i < n
        invariant
            n == lines.len(),
            11 <= n < 13,
            ls == lines_of(text@),
            ls.len() == n,
            forall|k: int| 0 <= k < n ==> (#[trigger] lines[k])@ == ls[k],
            i <= n,
            rows.len() == i,
            forall|k: int| 0 <= k < i ==> (#[trigger] rows[k])@ == line_numbers(ls[k]),
            forall|k: int| 0 <= k < i ==> (#[trigger] regex_captures(NUMBERS_PATTERN@, ls[k])) is Some,
        decreases n - i,
    {
        match captures_all(NUMBERS_PATTERN, lines[i]) {
            None => {
                assert(regex_captures(NUMBERS_PATTERN@, ls[i as int]) is None);
                return Err(InvalidStatisticsData(StatisticsFault::NumberPattern));
            },
            Some(caps) => {
                let numbers = numbers_from_captures(&caps);
                rows.push(numbers);
            },
        }
        i = i + 1;
    }
    let ghost rv = rows@.map_values(|row: Vec<u32>| row@);
    assert(rv =~= Seq::new(ls.len(), |k: int| line_numbers(ls[k])));
    let can_claim = contains_chars(lines[0], "__");
    Ok((rows, can_claim))
}

/// The statistics that the rows `rows` give at the instant `now`.
fn statistics_at(rows: &Vec<Vec<u32>>, can_claim: bool, now: i64) -> (r: Statistics)
    requires
        -MAX_TIME_MILLIS <= now <= MAX_TIME_MILLIS,
    ensures
        r == statistics_from_rows(rows@.map_values(|row: Vec<u32>| row@), can_claim, now as int),
{
    Statistics {
        claim_time: instant_of(rows, 0, now),
        rolls_remaining: #[verifier::truncate] (cell_of(rows, 1, 0) as u8),
        next_rolls: instant_of(rows, 2, now),
        next_daily: instant_of(rows, 8, now),
        next_kakera_react: instant_of(rows, 3, now),
        kakera_power: #[verifier::truncate] (cell_of(rows, 4, 0) as u8),
        kakera_cost: #[verifier::truncate] (cell_of(rows, 5, 0) as u8),
        kakera_cost_half: #[verifier::truncate] (cell_of(rows, 6, 1) as u8),
        kakera_stock: cell_of(rows, 7, 0),
        next_rt: Some(instant_of(rows, 10, now)),
        next_dk: instant_of(rows, 9, now),
        rolls_reset_stock: #[verifier::truncate] (cell_of(rows, 11, 0) as u16),
        can_claim,
    }
}

/// Reads the `$tu` answer `text` at the instant `now`: the statistics it gives, or
/// `InputFormat` when it has fewer than 11 or more than 12 lines, or `NumberPattern`
/// when the number pattern does not compile.
pub fn extract_statistics_at(text: &str, now: i64) -> (r: Result<Statistics, InvalidStatisticsData>)
    requires
        -MAX_TIME_MILLIS <= now <= MAX_TIME_MILLIS,
    ensures
        r == spec_extract_statistics(text@, now as int),
{
    match read_statistic_rows(text) {
        Ok((rows, can_claim)) => {
            proof {
                assert(spec_extract_statistics(text@, now as int) == Ok::<Statistics, InvalidStatisticsData>(
                    statistics_from_rows(rows@.map_values(|row: Vec<u32>| row@), can_claim, now as int),
                ));
            }
            Ok(statistics_at(&rows, can_claim, now))
        },
        Err(e) => {
            proof {
                assert(spec_extract_statistics(text@, now as int) == Err::<Statistics, InvalidStatisticsData>(e));
            }
            Err(e)
        },
    }
}

/// Reads the `$tu` answer `text` at the current instant (see `extract_statistics_at`).
/// The text is checked first: a text that `extract_statistics_at` refuses gives the same
/// error whatever the clock (so fewer than 11 or more than 12 lines always give
/// `InputFormat`). Only a readable text reads the clock, and gives `Clock` when the
/// clock cannot be read.
pub fn extract_statistics(text: &str) -> (r: Result<Statistics, InvalidStatisticsData>)
    ensures
        !(11 <= lines_of(text@).len() <= 12) ==> r == Err::<Statistics, InvalidStatisticsData>(
            InvalidStatisticsData(StatisticsFault::InputFormat),
        ),
        statistics_readable(text@) ==> (r is Ok || r == Err::<Statistics, InvalidStatisticsData>(
            InvalidStatisticsData(StatisticsFault::Clock),
        )),
        r matches Ok(s) ==> s.can_claim == claim_available(lines_of(text@)[0]),
        match spec_extract_statistics(text@, 0) {
            Err(e) => r == Err::<Statistics, InvalidStatisticsData>(e),
            Ok(_) => r == Err::<Statistics, InvalidStatisticsData>(InvalidStatisticsData(StatisticsFault::Clock))
                || exists|now: int| 0 <= now <= MAX_TIME_MILLIS && r == spec_extract_statistics(text@, now),
        },
{
    proof {
        lemma_readable_statistics_are_read(text@, 0, 0);
    }
    match read_statistic_rows(text) {
        Err(e) => {
            proof {
                assert(spec_extract_statistics(text@, 0) == Err::<Statistics, InvalidStatisticsData>(e));
            }
            Err(e)
        },
        Ok((rows, can_claim)) => {
            proof {
                assert(spec_extract_statistics(text@, 0) is Ok);
            }
            match get_local_time() {
                Some(now) => {
                    proof {
                        assert(spec_extract_statistics(text@, now as int) == Ok::<Statistics, InvalidStatisticsData>(
                            statistics_from_rows(rows@.map_values(|row: Vec<u32>| row@), can_claim, now as int),
                        ));
                    }
                    Ok(statistics_at(&rows, can_claim, now))
                },
                None => Err(InvalidStatisticsData(StatisticsFault::Clock)),
            }
        },
    }
}

/// The badge that one match of `BADGES_PATTERN` describes: its name (group 1) and
/// its Roman level (group 2) must both be known; `None` otherwise.
pub open spec fn badge_of_capture(cap: Seq<Option<Seq<char>>>) -> Option<Badge> {
    if cap.len() > 2 {
        match (cap[1], cap[2]) {
            (Some(name), Some(level)) => match (
                spec_level_from_roman(level),
                spec_badge_type_from_name(name),
            ) {
                (Some(l), Some(t)) => Some(Badge { level: l, badge_type: t }),
                _ => None,
            },
            _ => None,
        }
    } else {
        None
    }
}

/// The badges that the matches describe, in order; `None` when one of them names no
/// badge.
pub open spec fn badges_of_captures(caps: Seq<Seq<Option<Seq<char>>>>) -> Option<Seq<Badge>>
    decreases caps.len(),
{
    if caps.len() == 0 {
        Some(Seq::empty())
    } else {
        match (badges_of_captures(caps.drop_last()), badge_of_capture(caps.last())) {
            (Some(bs), Some(b)) => Some(bs.push(b)),
            _ => None,
        }
    }
}

/// The badges that a `$k` answer lists; `None` when the pattern does not compile or a
/// listed badge has an unknown name or level.
pub open spec fn spec_extract_badges(text: Seq<char>) -> Option<Seq<Badge>> {
    match regex_captures(BADGES_PATTERN@, text) {
        Some(caps) => badges_of_captures(caps),
        None => None,
    }
}

/// The badges that the `$k` answer `text` lists (see `spec_extract_badges`).
fn read_badges(text: &str) -> (r: Option<Vec<Badge>>)
    ensures
        match r {
            Some(v) => spec_extract_badges(text@) == Some(v@),
            None => spec_extract_badges(text@) is None,
        },
{
    let caps = match captures_all(BADGES_PATTERN, text) {
        Some(c) => c,
        None => return None,
    };
    let ghost view = captures_view(caps@);
    let mut badges: Vec<Badge> = Vec::new();
    let mut k: usize = 0;
    while k < caps.len()
        invariant
            view == captures_view(caps@),
            regex_captures(BADGES_PATTERN@, text@) == Some(view),
            k <= caps.len(),
            badges_of_captures(view.take(k as int)) == Some(badges@),
        decreases caps.len() - k,
    {
        assert(view.take(k + 1).drop_last() =~= view.take(k as int));
        assert(view.take(k + 1).last() == view[k as int]);
        let c = &caps[k];
        if c.len() <= 2 {
            assert(badge_of_capture(view[k as int]) is None);
            assert(badges_of_captures(view.take(k + 1)) is None);
            proof {
                lemma_badges_none_extends(view, k as int + 1);
            }
            return None;
        }
        let level = match &c[2] {
            Some(t) => BadgeLevel::from_roman_algarism(t.as_str()),
            None => None,
        };
        let badge_type = match &c[1] {
            Some(t) => BadgeType::from_name(t.as_str()),
            None => None,
        };
        match (level, badge_type) {
            (Some(l), Some(t)) => {
                badges.push(Badge { level: l, badge_type: t });
            },
            _ => {
                assert(badge_of_capture(view[k as int]) is None);
                proof {
                    lemma_badges_none_extends(view, k as int + 1);
                }
                return None;
            },
        }
        k = k + 1;
    }
    assert(view.take(caps.len() as int) =~= view);
    Some(badges)
}

/// Whether every badge that the `$k` answer `text` lists has a known name and level
/// (and the pattern compiles): exactly the texts that `extract_badges` accepts.
pub fn badges_are_readable(text: &str) -> (b: bool)
    ensures
        b == (spec_extract_badges(text@) is Some),
{
    read_badges(text).is_some()
}

/// The badges that the `$k` answer `text` lists, in order. Every listed badge must have
/// a known name and level.
pub fn extract_badges(text: &str) -> (r: Vec<Badge>)
    requires
        spec_extract_badges(text@) is Some,
    ensures
        Some(r@) == spec_extract_badges(text@),
        regex_captures(BADGES_PATTERN@, text@) matches Some(caps) && r@.len() == caps.len(),
        forall|i: int| 0 <= i < r@.len() ==> capture_names_badge(
            #[trigger] regex_captures(BADGES_PATTERN@, text@)->0[i],
            r@[i],
        ),
{
    proof {
        lemma_extract_badges_one_per_match(text@);
    }
    match read_badges(text) {
        Some(v) => v,
        None => {
            assert(false);
            Vec::new()
        },
    }
}

/// The badges that the `$k` answer `text` lists, or `None` when one of them has an
/// unknown name or level (or the pattern does not compile).
pub fn try_extract_badges(text: &str) -> (r: Option<Vec<Badge>>)
    ensures
        match r {
            Some(v) => spec_extract_badges(text@) == Some(v@),
            None => spec_extract_badges(text@) is None,
        },
        r matches Some(v) ==> {
            &&& regex_captures(BADGES_PATTERN@, text@) matches Some(caps)
            &&& v@.len() == caps.len()
            &&& forall|i: int| 0 <= i < caps.len() ==> capture_names_badge(#[trigger] caps[i], v@[i])
        },
{
    proof {
        lemma_extract_badges_one_per_match(text@);
    }
    if badges_are_readable(text) {
        Some(extract_badges(text))
    } else {
        None
    }
}

/// The match `cap` of `BADGES_PATTERN` describes the badge `b`: its name (group 1) names
/// the badge's type and its level (group 2) reads as the badge's level.
pub open spec fn capture_names_badge(cap: Seq<Option<Seq<char>>>, b: Badge) -> bool {
    &&& cap.len() > 2
    &&& cap[1] matches Some(name) && spec_badge_type_from_name(name) == Some(b.badge_type)
    &&& cap[2] matches Some(level) && spec_level_from_roman(level) == Some(b.level)
}

/// Reading the matches gives one badge per match, in order, each the badge its match
/// describes; and it succeeds whenever every match describes a badge.
pub proof fn lemma_badges_one_per_capture(caps: Seq<Seq<Option<Seq<char>>>>)
    ensures
        badges_of_captures(caps) matches Some(bs) ==> {
            &&& bs.len() == caps.len()
            &&& forall|i: int| 0 <= i < caps.len() ==> capture_names_badge(#[trigger] caps[i], bs[i])
        },
        (forall|i: int| 0 <= i < caps.len() ==> (#[trigger] badge_of_capture(caps[i])) is Some)
            ==> badges_of_captures(caps) is Some,
    decreases caps.len(),
{
    if caps.len() > 0 {
        let init = caps.drop_last();
        lemma_badges_one_per_capture(init);
        assert forall|i: int| 0 <= i < init.len() implies #[trigger] init[i] == caps[i] by {}
        if forall|i: int| 0 <= i < caps.len() ==> (#[trigger] badge_of_capture(caps[i])) is Some {
            assert forall|i: int| 0 <= i < init.len() implies (#[trigger] badge_of_capture(init[i])) is Some by {
                assert(badge_of_capture(caps[i]) is Some);
            }
            assert(badge_of_capture(caps[caps.len() - 1]) is Some);
        }
        match badges_of_captures(caps) {
            Some(bs) => {
                let prev = badges_of_captures(init)->0;
                assert(bs == prev.push(badge_of_capture(caps.last())->0));
                assert forall|i: int| 0 <= i < caps.len() implies capture_names_badge(#[trigger] caps[i], bs[i]) by {
                    if i < init.len() {
                        assert(init[i] == caps[i]);
                        assert(capture_names_badge(init[i], prev[i]));
                    }
                }
            },
            None => {},
        }
    }
}

/// A `$k` answer that reads gives one badge per match of the badge pattern, in order,
/// each the badge its match describes; it reads whenever the pattern compiles and every
/// match describes a badge.
pub proof fn lemma_extract_badges_one_per_match(text: Seq<char>)
    ensures
        spec_extract_badges(text) matches Some(bs) ==> {
            &&& regex_captures(BADGES_PATTERN@, text) matches Some(caps)
            &&& bs.len() == caps.len()
            &&& forall|i: int| 0 <= i < caps.len() ==> capture_names_badge(#[trigger] caps[i], bs[i])
        },
        regex_captures(BADGES_PATTERN@, text) matches Some(caps) ==> ((forall|i: int|
            0 <= i < caps.len() ==> (#[trigger] badge_of_capture(caps[i])) is Some) ==> spec_extract_badges(text)
            is Some),
{
    match regex_captures(BADGES_PATTERN@, text) {
        Some(caps) => lemma_badges_one_per_capture(caps),
        None => {},
    }
}

/// Once a prefix of the matches holds an unknown badge, so does the whole.
pub proof fn lemma_badges_none_extends(caps: Seq<Seq<Option<Seq<char>>>>, k: int)
    requires
        0 <= k <= caps.len(),
        badges_of_captures(caps.take(k)) is None,
    ensures
        badges_of_captures(caps) is None,
    decreases caps.len() - k,
{
    if k < caps.len() {
        assert(caps.take(k + 1).drop_last() =~= caps.take(k));
        lemma_badges_none_extends(caps, k + 1);
    } else {
        assert(caps.take(k) =~= caps);
    }
}

/// A number as the bot writes it read as a `u32`, its `,` and `.` separators dropped.
pub open spec fn spec_parse_num(text: Seq<char>) -> Option<u32> {
    match parse_unsigned(without_separators(text), u32::MAX as nat) {
        Some(v) => Some(v as u32),
        None => None,
    }
}

/// The first number that `text` holds (the first match of `NUMBERS_PATTERN`), read
/// with its separators dropped; `None` when there is no match or it does not fit.
pub open spec fn spec_first_number(text: Seq<char>) -> Option<u32> {
    match regex_captures(NUMBERS_PATTERN@, text) {
        Some(caps) => if caps.len() > 0 && caps[0].len() > 0 {
            match caps[0][0] {
                Some(t) => spec_parse_num(t),
                None => None,
            }
        } else {
            None
        },
        None => None,
    }
}

/// Reads a number as the bot writes it: `text` with its `,` and `.` removed, parsed as
/// a `u32`.
pub fn parse_num(text: &str) -> (r: Option<u32>)
    ensures
        r == spec_parse_num(text@),
{
    let digits = remove_separators(text);
    match crate::text::parse_u64_chars(&digits) {
        Some(v) => if v <= u32::MAX as u64 {
            Some(v as u32)
        } else {
            None
        },
        None => None,
    }
}

/// The first number in `text` (see `spec_first_number`).
pub fn first_number(text: &str) -> (r: Option<u32>)
    ensures
        r == spec_first_number(text@),
{
    match captures_all(NUMBERS_PATTERN, text) {
        Some(caps) => {
            if caps.len() > 0 && caps[0].len() > 0 {
                assert(captures_view(caps@)[0] == caps@[0]@.map_values(
                    |g: Option<String>|
                        match g {
                            Some(t) => Some(t@),
                            None => None,
                        },
                ));
                match &caps[0][0] {
                    Some(t) => parse_num(t.as_str()),
                    None => None,
                }
            } else {
                None
            }
        },
        None => None,
    }
}

/// Whether `text` holds a number at all (a match of `NUMBERS_PATTERN`).
pub open spec fn spec_has_number(text: Seq<char>) -> bool {
    match regex_captures(NUMBERS_PATTERN@, text) {
        Some(caps) => caps.len() > 0,
        None => false,
    }
}

/// Whether `text` holds a number (see `spec_has_number`).
pub fn has_number(text: &str) -> (b: bool)
    ensures
        b == spec_has_number(text@),
{
    match captures_all(NUMBERS_PATTERN, text) {
        Some(caps) => caps.len() > 0,
        None => false,
    }
}

/// The first of the lines from `from` on that shows the `:kakera:` emoji.
pub open spec fn first_kakera_line(ls: Seq<Seq<char>>, from: int) -> Option<Seq<char>>
    decreases ls.len() - from,
{
    if from < 0 || from >= ls.len() {
        None
    } else if has_subsequence(ls[from], ":kakera:"@) {
        Some(ls[from])
    } else {
        first_kakera_line(ls, from + 1)
    }
}

/// The kakera value that a rolled card's embed shows: the first number of the first
/// line of its description that shows the `:kakera:` emoji.
pub open spec fn spec_extract_kakera_value(embed: EmbedData) -> Option<u32> {
    match embed.description {
        Some(d) => match first_kakera_line(lines_of(d@), 0) {
            Some(line) => spec_first_number(line),
            None => None,
        },
        None => None,
    }
}

/// The kakera value of a rolled card (see `spec_extract_kakera_value`).
pub fn extract_kakera_value(embed: &EmbedData) -> (r: Option<u32>)
    ensures
        r == spec_extract_kakera_value(*embed),
{
    let d = match &embed.description {
        Some(d) => d,
        None => return None,
    };
    let lines = split_lines(d.as_str());
    let ghost ls = lines_of(d@);
    let mut i: usize = 0;
    while i < lines.len()
        invariant
            embed.description == Some(*d),
            ls == lines_of(d@),
            lines.len() == ls.len(),
            forall|k: int| 0 <= k < lines.len() ==> (#[trigger] lines[k])@ == ls[k],
            i <= lines.len(),
            first_kakera_line(ls, 0) == first_kakera_line(ls, i as int),
        decreases lines.len() - i,
    {
        if contains_chars(lines[i], ":kakera:") {
            assert(first_kakera_line(ls, i as int) == Some(ls[i as int]));
            let r = first_number(lines[i]);
            assert(r == spec_first_number(ls[i as int]));
            return r;
        }
        i = i + 1;
    }
    None
}

/// Read statistics never put a timer in the past: every instant they give lies at or
/// after the instant of reading, and the `$rt` timer is always given.
pub proof fn lemma_statistics_instants_not_before(text: Seq<char>, now: int)
    requires
        -MAX_TIME_MILLIS <= now <= MAX_TIME_MILLIS,
    ensures
        spec_extract_statistics(text, now) matches Ok(s) ==> {
            &&& s.claim_time >= now
            &&& s.next_rolls >= now
            &&& s.next_kakera_react >= now
            &&& s.next_daily >= now
            &&& s.next_dk >= now
            &&& s.next_rt matches Some(t) && t >= now
        },
{
    let ls = lines_of(text);
    let rows = Seq::new(ls.len(), |i: int| line_numbers(ls[i]));
    assert forall|i: int| #![trigger instant_of_row(rows, i, now)] 0 <= i
        implies instant_of_row(rows, i, now) >= now by {
        let sp = span_millis(cell(rows, i, 0), cell(rows, i, 1));
        assert(0 <= sp <= u32::MAX as int * 3_600_000 + u32::MAX as int * 60_000);
    }
    assert(instant_of_row(rows, 0, now) >= now);
    assert(instant_of_row(rows, 2, now) >= now);
    assert(instant_of_row(rows, 3, now) >= now);
    assert(instant_of_row(rows, 8, now) >= now);
    assert(instant_of_row(rows, 9, now) >= now);
    assert(instant_of_row(rows, 10, now) >= now);
}

/// A `$tu` answer is refused exactly when it has fewer than 11 or more than 12 lines,
/// or when the number pattern does not compile on one of its lines.
pub proof fn lemma_statistics_refusals(text: Seq<char>, now: int)
    ensures
        spec_extract_statistics(text, now) is Err <==> (lines_of(text).len() < 11 || lines_of(text).len()
            > 12 || exists|i: int|
            0 <= i < lines_of(text).len() && (#[trigger] regex_captures(NUMBERS_PATTERN@, lines_of(text)[i]))
                is None),
        (lines_of(text).len() < 11 || lines_of(text).len() > 12) ==> spec_extract_statistics(text, now)
            == Err::<Statistics, InvalidStatisticsData>(InvalidStatisticsData(StatisticsFault::InputFormat)),
{
}

} // verus!
