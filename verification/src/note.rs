//! Notes and their relevance levels.

use crate::text::digit_char;
use chrono::{Datelike, Timelike};
use vstd::prelude::*;

verus! {

/// How relevant a note is.
#[derive(Clone, Copy, Debug, PartialEq, Eq, Structural)]
pub enum RelevanceLevel {
    Normal,
    Relevant,
    Important,
    Crucial,
}

/// The name under which a relevance level is shown.
pub open spec fn relevance_name(level: RelevanceLevel) -> Seq<char> {
    match level {
        RelevanceLevel::Normal => "normal"@,
        RelevanceLevel::Relevant => "relevant"@,
        RelevanceLevel::Important => "important"@,
        RelevanceLevel::Crucial => "crucial"@,
    }
}

/// The relevance levels in the order in which they are offered, from the
/// least to the most relevant.
pub open spec fn relevance_at(index: int) -> RelevanceLevel {
    if index == 0 {
        RelevanceLevel::Normal
    } else if index == 1 {
        RelevanceLevel::Relevant
    } else if index == 2 {
        RelevanceLevel::Important
    } else {
        RelevanceLevel::Crucial
    }
}

impl RelevanceLevel {
    /// Every relevance level, in the order in which they are offered.
    pub const VARIANTS: [RelevanceLevel; 4] = [
        RelevanceLevel::Normal,
        RelevanceLevel::Relevant,
        RelevanceLevel::Important,
        RelevanceLevel::Crucial,
    ];

    /// The name under which this level is shown.
    pub fn to_string(&self) -> (name: String)
        ensures
            name@ == relevance_name(*self),
    {
        match self {
            RelevanceLevel::Normal => String::from_str("normal"),
            RelevanceLevel::Relevant => String::from_str("relevant"),
            RelevanceLevel::Important => String::from_str("important"),
            RelevanceLevel::Crucial => String::from_str("crucial"),
        }
    }
}

/// A note as it is stored: a numerical id, the time it was written, a title,
/// a body and a relevance level.
pub struct Note {
    pub id: u32,
    pub timestamp: String,
    pub title: String,
    pub body: String,
    pub relevance: RelevanceLevel,
}

impl Clone for Note {
    fn clone(&self) -> (copy: Self)
        ensures
            copy == *self,
    {
        Note {
            id: self.id,
            timestamp: self.timestamp.clone(),
            title: self.title.clone(),
            body: self.body.clone(),
            relevance: self.relevance,
        }
    }
}

/// A number drawn by `rand::random::<u32>()`: any `u32` may come back.
#[verifier::external_body]
fn random_id() -> u32 {
    rand::random::<u32>()
}

/// A conversion specifier of chrono's `strftime` syntax that the library
/// uses: year, abbreviated month name, day, hour and minute.
pub open spec fn is_time_specifier(c: char) -> bool {
    c == 'Y' || c == 'b' || c == 'd' || c == 'H' || c == 'M'
}

/// A `strftime` pattern made of plain characters and the specifiers above;
/// chrono formats every such pattern without error.
pub open spec fn is_time_pattern(pattern: Seq<char>) -> bool {
    forall|i: int|
        0 <= i < pattern.len() && pattern[i] == '%' ==> i + 1 < pattern.len() && is_time_specifier(
            #[trigger] pattern[i + 1],
        )
}

/// A leap year of the proleptic Gregorian calendar.
pub open spec fn is_leap_year(year: int) -> bool {
    (year % 4 == 0 && year % 100 != 0) || year % 400 == 0
}

/// The number of days of a month.
pub open spec fn days_in_month(year: int, month: int) -> int {
    if month == 2 {
        if is_leap_year(year) {
            29
        } else {
            28
        }
    } else if month == 4 || month == 6 || month == 9 || month == 11 {
        30
    } else {
        31
    }
}

/// A date and a time of day, to the minute, that chrono can represent: a
/// year in chrono's range, a month, a day of that month, an hour and a
/// minute.
pub open spec fn is_clock_reading(year: int, month: int, day: int, hour: int, minute: int) -> bool {
    &&& -262143 <= year <= 262142
    &&& 1 <= month <= 12
    &&& 1 <= day <= days_in_month(year, month)
    &&& 0 <= hour < 24
    &&& 0 <= minute < 60
}

/// `chrono::Local::now()`, read as its year, month, day, hour and minute.
/// They form a date and time that chrono represents; which one depends on
/// the clock, so nothing else is stated.
#[verifier::external_body]
fn local_clock() -> (clock: (i32, u32, u32, u32, u32))
    ensures
        is_clock_reading(clock.0 as int, clock.1 as int, clock.2 as int, clock.3 as int, clock.4 as int),
{
    let now = chrono::Local::now();
    (now.year(), now.month(), now.day(), now.hour(), now.minute())
}

/// What chrono's `format(pattern).to_string()` writes for the date and time
/// with these fields (and zero seconds).
pub uninterp spec fn time_text(
    year: int,
    month: int,
    day: int,
    hour: int,
    minute: int,
    pattern: Seq<char>,
) -> Seq<char>;

/// `n` in decimal, zero-padded on the left to `width` digits (its last
/// `width` digits, where it has more).
pub open spec fn zero_padded(n: nat, width: nat) -> Seq<char>
    decreases width,
{
    if width == 0 {
        Seq::empty()
    } else {
        zero_padded(n / 10, (width - 1) as nat).push(digit_char(n % 10))
    }
}

/// The English three-letter abbreviation of a month's name.
pub open spec fn month_abbreviation(month: int) -> Seq<char> {
    if month == 1 {
        seq!['J', 'a', 'n']
    } else if month == 2 {
        seq!['F', 'e', 'b']
    } else if month == 3 {
        seq!['M', 'a', 'r']
    } else if month == 4 {
        seq!['A', 'p', 'r']
    } else if month == 5 {
        seq!['M', 'a', 'y']
    } else if month == 6 {
        seq!['J', 'u', 'n']
    } else if month == 7 {
        seq!['J', 'u', 'l']
    } else if month == 8 {
        seq!['A', 'u', 'g']
    } else if month == 9 {
        seq!['S', 'e', 'p']
    } else if month == 10 {
        seq!['O', 'c', 't']
    } else if month == 11 {
        seq!['N', 'o', 'v']
    } else {
        seq!['D', 'e', 'c']
    }
}

/// A date and time written with the timestamp pattern: the year in four
/// digits, the month's abbreviation, the day, and the hour and minute, each
/// in two digits, like `2024-Jan-31-18:05`.
pub open spec fn stamp_text(year: int, month: int, day: int, hour: int, minute: int) -> Seq<char> {
    zero_padded(year as nat, 4) + seq!['-'] + month_abbreviation(month) + seq!['-']
        + zero_padded(day as nat, 2) + seq!['-'] + zero_padded(hour as nat, 2) + seq![':']
        + zero_padded(minute as nat, 2)
}

/// `NaiveDate::from_ymd_opt` and `and_hms_opt` build the date and time of
/// the fields, which exist, and `format(pattern).to_string()` writes it;
/// the result is named `time_text` of the fields and the pattern. The
/// pattern is one that chrono formats without error, since `to_string`
/// panics on a formatting error. For the timestamp pattern and a year from
/// 0 to 9999, chrono's documented specifiers give `stamp_text`: `%Y` the
/// year zero-padded to four digits, `%b` the English three-letter month
/// name, `%d`, `%H` and `%M` the day, hour and minute zero-padded to two.
#[verifier::external_body]
fn format_time(year: i32, month: u32, day: u32, hour: u32, minute: u32, pattern: &str) -> (text:
    String)
    requires
        is_clock_reading(year as int, month as int, day as int, hour as int, minute as int),
        is_time_pattern(pattern@),
    ensures
        text@ == time_text(year as int, month as int, day as int, hour as int, minute as int, pattern@),
        pattern@ == timestamp_pattern() && 0 <= year <= 9999 ==> text@ == stamp_text(
            year as int,
            month as int,
            day as int,
            hour as int,
            minute as int,
        ),
{
    let date = chrono::NaiveDate::from_ymd_opt(year, month, day).unwrap();
    let time = date.and_hms_opt(hour, minute, 0).unwrap();
    time.format(pattern).to_string()
}

/// The pattern of a note's timestamp, like `2024-Jan-31-18:05`.
pub open spec fn timestamp_pattern() -> Seq<char> {
    "%Y-%b-%d-%H:%M"@
}

impl Note {
    /// Creates a note with the given body, title and relevance, a random id
    /// and the current local time as its timestamp, written with the
    /// timestamp pattern.
    pub fn new(body: String, title: String, relevance: RelevanceLevel) -> (note: Self)
        ensures
            note.body == body,
            note.title == title,
            note.relevance == relevance,
            exists|year: int, month: int, day: int, hour: int, minute: int|
                is_clock_reading(year, month, day, hour, minute) && note.timestamp@ == #[trigger] time_text(
                    year,
                    month,
                    day,
                    hour,
                    minute,
                    timestamp_pattern(),
                ) && (0 <= year <= 9999 ==> note.timestamp@ == stamp_text(
                    year,
                    month,
                    day,
                    hour,
                    minute,
                )),
    {
        let pattern = "%Y-%b-%d-%H:%M";
        proof {
            reveal_strlit("%Y-%b-%d-%H:%M");
            assert forall|i: int|
                0 <= i < pattern@.len() && pattern@[i] == '%' implies i + 1 < pattern@.len()
                && is_time_specifier(#[trigger] pattern@[i + 1]) by {
                assert(i == 0 || i == 3 || i == 6 || i == 9 || i == 12);
            }
        }
        let (year, month, day, hour, minute) = local_clock();
        let timestamp = format_time(year, month, day, hour, minute, pattern);
        assert(pattern@ == timestamp_pattern());
        assert(is_clock_reading(year as int, month as int, day as int, hour as int, minute as int)
            && timestamp@ == time_text(
            year as int,
            month as int,
            day as int,
            hour as int,
            minute as int,
            timestamp_pattern(),
        ) && (0 <= year <= 9999 ==> timestamp@ == stamp_text(
            year as int,
            month as int,
            day as int,
            hour as int,
            minute as int,
        )));
        Note {
            id: random_id(),
            timestamp: timestamp,
            title: title,
            body: body,
            relevance: relevance,
        }
    }
}

/// Each relevance level is offered at exactly one index, and the levels are
/// shown under distinct names.
pub proof fn lemma_relevance_levels_distinct(i: int, j: int)
    requires
        0 <= i < 4,
        0 <= j < 4,
    ensures
        (relevance_at(i) == relevance_at(j)) == (i == j),
        (relevance_name(relevance_at(i)) == relevance_name(relevance_at(j))) == (i == j),
{
    reveal_strlit("normal");
    reveal_strlit("relevant");
    reveal_strlit("important");
    reveal_strlit("crucial");
    assert("normal"@[0] != "relevant"@[0]);
    assert("normal"@[0] != "important"@[0]);
    assert("normal"@[0] != "crucial"@[0]);
    assert("relevant"@[0] != "important"@[0]);
    assert("relevant"@[0] != "crucial"@[0]);
    assert("important"@[0] != "crucial"@[0]);
}

/// Every relevance level is offered at some index.
pub proof fn lemma_relevance_levels_complete(level: RelevanceLevel)
    ensures
        exists|i: int| 0 <= i < 4 && relevance_at(i) == level,
{
    match level {
        RelevanceLevel::Normal => assert(relevance_at(0) == level),
        RelevanceLevel::Relevant => assert(relevance_at(1) == level),
        RelevanceLevel::Important => assert(relevance_at(2) == level),
        RelevanceLevel::Crucial => assert(relevance_at(3) == level),
    }
}

} // verus!
