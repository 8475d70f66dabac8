use vstd::prelude::*;

use crate::error::{Error, RuntimeError};
use crate::humantime_text::{
    duration_text_bounded, duration_text_is_bounded, parse_duration_text, parsed_duration,
};
use crate::pattern::{regex_group, regex_group_text, regex_replace_first, regex_replaced};
use crate::time::Duration;

verus! {

/// The pattern of a time of day in an interval, such as `00:01:00`.
pub const TIME_PATTERN: &'static str = "(\\d{2}):(\\d{2}):(\\d{2})";

/// The pattern of a month unit in an interval, such as `mons` or `months`.
pub const MONTH_PATTERN: &'static str = "mon(s|th|ths)?";

/// The words that stand for a time of day: `<h> hours <m> minutes <s> seconds`.
pub open spec fn time_words(h: Seq<char>, m: Seq<char>, s: Seq<char>) -> Seq<char> {
    h + " hours "@ + m + " minutes "@ + s + " seconds"@
}

/// The interval text with its first time of day written in words, if it has one.
pub open spec fn with_time_words(text: Seq<char>) -> Option<Seq<char>> {
    match (
        regex_group_text(TIME_PATTERN@, text, 1),
        regex_group_text(TIME_PATTERN@, text, 2),
        regex_group_text(TIME_PATTERN@, text, 3),
    ) {
        (Some(h), Some(m), Some(s)) => regex_replaced(TIME_PATTERN@, text, time_words(h, m, s)),
        _ => Some(text),
    }
}

/// The text that humantime reads for a PostgreSQL interval: the first time of day
/// written in words, then the first month unit written `month`.
pub open spec fn humantime_interval(text: Seq<char>) -> Option<Seq<char>> {
    match with_time_words(text) {
        Some(t) => regex_replaced(MONTH_PATTERN@, t, "month"@),
        None => None,
    }
}

/// The message of an interval that humantime does not read.
pub open spec fn unparsable_message(text: Seq<char>, error: Seq<char>) -> Seq<char> {
    "Could not parse '"@ + text + "' as interval: "@ + error
}

/// The message given when the patterns of intervals could not be compiled.
pub open spec fn pattern_message() -> Seq<char> {
    "Could not compile the interval patterns"@
}

/// Whether humantime can be handed the text that an interval is rewritten to (see
/// `duration_text_bounded`); an interval whose patterns fail is never handed over.
pub open spec fn interval_reads_safely(text: Seq<char>) -> bool {
    match humantime_interval(text) {
        Some(t) => duration_text_bounded(t),
        None => true,
    }
}

/// What reading an interval gives: the span that humantime reads from the rewritten
/// text, a runtime error that quotes that text with humantime's message, or the error of
/// patterns that could not be compiled.
pub open spec fn interval_outcome(text: Seq<char>, r: Result<Duration, Error>) -> bool {
    match humantime_interval(text) {
        Some(t) => match parsed_duration(t) {
            Ok(d) => r matches Ok(v) && v@ == d,
            Err(e) => r matches Err(Error::Runtime(re)) && re.msg@ == unparsable_message(t, e),
        },
        None => r matches Err(Error::Runtime(re)) && re.msg@ == pattern_message(),
    }
}

/// The text that humantime reads for an interval: its first time of day written in
/// words and its first month unit written `month`; nothing where the patterns fail.
pub fn humantime_interval_text(interval_str: &str) -> (r: Option<String>)
    ensures
        match humantime_interval(interval_str@) {
            Some(t) => r matches Some(x) && x@ == t,
            None => r is None,
        },
{
    proof {
        reveal_strlit(" hours ");
        reveal_strlit(" minutes ");
        reveal_strlit(" seconds");
        reveal_strlit("month");
    }
    let with_words = match (
        regex_group(TIME_PATTERN, interval_str, 1),
        regex_group(TIME_PATTERN, interval_str, 2),
        regex_group(TIME_PATTERN, interval_str, 3),
    ) {
        (Some(h), Some(m), Some(s)) => {
            let mut words = h;
            words.append(" hours ");
            words.append(m.as_str());
            words.append(" minutes ");
            words.append(s.as_str());
            words.append(" seconds");
            match regex_replace_first(TIME_PATTERN, interval_str, words.as_str()) {
                Some(t) => t,
                None => {
                    return None;
                },
            }
        },
        _ => interval_str.to_owned(),
    };
    regex_replace_first(MONTH_PATTERN, with_words.as_str(), "month")
}

/// Whether humantime can be handed the rewritten text of an interval.
pub fn interval_can_be_read_safely(interval_str: &str) -> (r: bool)
    ensures
        r == interval_reads_safely(interval_str@),
{
    match humantime_interval_text(interval_str) {
        Some(t) => duration_text_is_bounded(t.as_str()),
        None => true,
    }
}

/// Reads a PostgreSQL interval, such as `2 months 29 days 00:01:00`, as a span: its
/// time of day is written in words and its month unit as `month`, and humantime reads
/// the result. A text that humantime does not read gives a runtime error that quotes it
/// with humantime's message. The rewritten text must be one that humantime can be handed
/// (see `checked_parse_interval` for any text).
pub fn parse_interval(interval_str: &str) -> (r: Result<Duration, Error>)
    requires
        interval_reads_safely(interval_str@),
    ensures
        interval_outcome(interval_str@, r),
{
    proof {
        reveal_strlit("Could not compile the interval patterns");
    }
    let text = match humantime_interval_text(interval_str) {
        Some(t) => t,
        None => {
            return Err(
                Error::Runtime(
                    RuntimeError::from_msg("Could not compile the interval patterns".to_owned()),
                ),
            );
        },
    };
    match parse_duration_text(text.as_str()) {
        Ok(d) => Ok(d),
        Err(e) => {
            let mut msg = "Could not parse '".to_owned();
            msg.append(text.as_str());
            msg.append("' as interval: ");
            msg.append(e.as_str());
            proof {
                reveal_strlit("Could not parse '");
                reveal_strlit("' as interval: ");
            }
            Err(Error::Runtime(RuntimeError::from_msg(msg)))
        },
    }
}

/// `parse_interval` for any text: nothing where humantime cannot be handed the rewritten
/// text, and otherwise what `parse_interval` gives.
pub fn checked_parse_interval(interval_str: &str) -> (r: Option<Result<Duration, Error>>)
    ensures
        r is None <==> !interval_reads_safely(interval_str@),
        r matches Some(x) ==> interval_outcome(interval_str@, x),
{
    if interval_can_be_read_safely(interval_str) {
        Some(parse_interval(interval_str))
    } else {
        None
    }
}

} // verus!
