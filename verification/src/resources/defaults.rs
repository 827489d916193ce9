//! What stands in a refined record where the upstream record has nothing, or
//! nothing that can be read.

use crate::calendar::{
    calendar_date_of, clock_time_of, is_calendar_date, is_clock_time, strip_time_date_to_date,
    strip_time_date_to_time,
};
use vstd::prelude::*;

verus! {

/// The text of an absent text field.
pub open spec fn placeholder() -> Seq<char> {
    "-"@
}

/// The date of an absent or unreadable timestamp.
pub open spec fn sentinel_date() -> Seq<char> {
    "1999-09-19"@
}

/// The start of a lesson whose start is absent or unreadable.
pub open spec fn sentinel_start() -> Seq<char> {
    "09:00:00"@
}

/// The end of a lesson whose end is absent or unreadable.
pub open spec fn sentinel_end() -> Seq<char> {
    "09:45:00"@
}

/// A text field as it is, or the placeholder where it is absent.
pub open spec fn or_placeholder(field: Option<Seq<char>>) -> Seq<char> {
    match field {
        Some(text) => text,
        None => placeholder(),
    }
}

/// The date of a timestamp field, or the sentinel date where the field is
/// absent or holds no calendar date.
pub open spec fn date_or_sentinel(field: Option<Seq<char>>) -> Seq<char> {
    match field {
        Some(stamp) => match calendar_date_of(stamp) {
            Some(date) => date,
            None => sentinel_date(),
        },
        None => sentinel_date(),
    }
}

/// The time of a timestamp field, or `fallback` where the field is absent or
/// holds no time of day.
pub open spec fn time_or(field: Option<Seq<char>>, fallback: Seq<char>) -> Seq<char> {
    match field {
        Some(stamp) => match clock_time_of(stamp) {
            Some(time) => time,
            None => fallback,
        },
        None => fallback,
    }
}

/// The sentinels are a calendar date and two times of day.
pub proof fn lemma_sentinels_are_valid()
    ensures
        is_calendar_date(sentinel_date()),
        is_clock_time(sentinel_start()),
        is_clock_time(sentinel_end()),
{
    reveal_strlit("1999-09-19");
    reveal_strlit("09:00:00");
    reveal_strlit("09:45:00");
}

/// Whatever a timestamp field holds, its date is a calendar date.
pub proof fn lemma_date_or_sentinel_is_valid(field: Option<Seq<char>>)
    ensures
        is_calendar_date(date_or_sentinel(field)),
{
    lemma_sentinels_are_valid();
}

/// Whatever a timestamp field holds, its time is a time of day, if the
/// fallback is one.
pub proof fn lemma_time_or_is_valid(field: Option<Seq<char>>, fallback: Seq<char>)
    requires
        is_clock_time(fallback),
    ensures
        is_clock_time(time_or(field, fallback)),
{
}

pub fn text_or_placeholder(field: Option<String>) -> (r: String)
    ensures
        r@ == or_placeholder(field.deep_view()),
{
    match field {
        Some(text) => text,
        None => String::from_str("-"),
    }
}

pub fn date_or_sentinel_text(field: Option<String>) -> (r: String)
    ensures
        r@ == date_or_sentinel(field.deep_view()),
        is_calendar_date(r@),
{
    proof {
        lemma_date_or_sentinel_is_valid(field.deep_view());
    }
    match field {
        Some(stamp) => match strip_time_date_to_date(stamp.as_str()) {
            Some(date) => date,
            None => String::from_str("1999-09-19"),
        },
        None => String::from_str("1999-09-19"),
    }
}

pub fn time_or_text(field: Option<String>, fallback: &str) -> (r: String)
    ensures
        r@ == time_or(field.deep_view(), fallback@),
        is_clock_time(fallback@) ==> is_clock_time(r@),
{
    match field {
        Some(stamp) => match strip_time_date_to_time(stamp.as_str()) {
            Some(time) => time,
            None => String::from_str(fallback),
        },
        None => String::from_str(fallback),
    }
}

} // verus!
