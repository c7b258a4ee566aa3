//! The text of the time at which a message was sent.

use std::fmt::Write;
use vstd::prelude::*;

verus! {

/// What `chrono` writes for the moment `millis` milliseconds after the
/// start of 1970 in UTC, under the `strftime` pattern `pattern`; `None`
/// where the moment lies outside the years that `chrono` can hold or the
/// pattern cannot be used.
pub uninterp spec fn utc_text(millis: i64, pattern: Seq<char>) -> Option<Seq<char>>;

/// Makes the moment with `chrono::DateTime::from_timestamp_millis` and
/// writes it under `pattern` with `chrono::DateTime::format`. The contract
/// gives the result a name, [`utc_text`], and says nothing else of it.
#[verifier::external_body]
fn format_utc(millis: i64, pattern: &str) -> (r: Option<String>)
    ensures
        match r {
            Some(text) => utc_text(millis, pattern@) == Some(text@),
            None => utc_text(millis, pattern@).is_none(),
        },
{
    match chrono::DateTime::from_timestamp_millis(millis) {
        Some(moment) => {
            let mut text = String::new();
            match write!(text, "{}", moment.format(pattern)) {
                Ok(_) => Some(text),
                Err(_) => None,
            }
        },
        None => None,
    }
}

/// The text of a moment given in milliseconds since the start of 1970:
/// day, month and year, then hours, minutes and seconds, in UTC. There is
/// none for a moment too far away to be written.
pub open spec fn timestamp_text(millis: u64) -> Option<Seq<char>> {
    if millis <= i64::MAX {
        utc_text(millis as i64, "%d/%m/%Y %T"@)
    } else {
        None
    }
}

/// The text of a moment, or of the start of 1970 for a moment that cannot
/// be written.
pub open spec fn timestamp_text_or_epoch(millis: u64) -> Seq<char> {
    match timestamp_text(millis) {
        Some(text) => text,
        None => match timestamp_text(0) {
            Some(text) => text,
            None => Seq::empty(),
        },
    }
}

/// The text of a moment given in milliseconds since the start of 1970, as
/// `DD/MM/YYYY HH:MM:SS` in UTC, if it can be written.
pub fn format_timestamp(millis: u64) -> (r: Option<String>)
    ensures
        match r {
            Some(text) => timestamp_text(millis) == Some(text@),
            None => timestamp_text(millis).is_none(),
        },
{
    if millis <= 0x7fff_ffff_ffff_ffff {
        format_utc(millis as i64, "%d/%m/%Y %T")
    } else {
        None
    }
}

/// The text, or the fallback where there is no text, or the empty text
/// where there is neither.
pub fn text_or(text: Option<String>, fallback: Option<String>) -> (r: String)
    ensures
        r@ == match text {
            Some(t) => t@,
            None => match fallback {
                Some(f) => f@,
                None => Seq::empty(),
            },
        },
{
    match text {
        Some(t) => t,
        None => match fallback {
            Some(f) => f,
            None => String::new(),
        },
    }
}

/// The text of a moment, or of the start of 1970 for a moment that cannot
/// be written.
pub fn format_timestamp_or_epoch(millis: u64) -> (r: String)
    ensures
        r@ == timestamp_text_or_epoch(millis),
{
    let text = format_timestamp(millis);
    let epoch = if text.is_none() {
        format_timestamp(0)
    } else {
        None
    };
    text_or(text, epoch)
}

} // verus!
