//! RFC 3339 timestamps, read by chrono: the calendar day and hour they name,
//! and the whole minutes between two of them.

use vstd::prelude::*;
use chrono::Timelike;
use crate::timeline::opt_view;

verus! {

/// The weekday, day and month of an RFC 3339 timestamp (chrono's
/// `%A %d/%m`, in the timestamp's own offset), or none when it does not parse.
pub uninterp spec fn rfc3339_day_label(ts: Seq<char>) -> Option<Seq<char>>;

/// The date and minute of an RFC 3339 timestamp (chrono's `%Y-%m-%d %H:%M`,
/// in the timestamp's own offset), or none when it does not parse.
pub uninterp spec fn rfc3339_minute_label(ts: Seq<char>) -> Option<Seq<char>>;

/// The date and second of an RFC 3339 timestamp (chrono's
/// `%Y-%m-%d %H:%M:%S`, in the timestamp's own offset), or none when it does
/// not parse.
pub uninterp spec fn rfc3339_second_label(ts: Seq<char>) -> Option<Seq<char>>;

/// The hour of an RFC 3339 timestamp in its own offset, or none when it
/// does not parse.
pub uninterp spec fn rfc3339_hour(ts: Seq<char>) -> Option<u32>;

/// The whole minutes from `earlier` to `later` (negative when `later` is the
/// earlier one, rounded toward zero), or none when either does not parse.
pub uninterp spec fn rfc3339_minutes_between(later: Seq<char>, earlier: Seq<char>) -> Option<i64>;

/// `DateTime::parse_from_rfc3339(ts)` formatted with `%A %d/%m`. The
/// contract names the result; the text chrono writes is not stated.
#[verifier::external_body]
pub(crate) fn day_label(ts: &str) -> (r: Option<String>)
    ensures
        opt_view(r) == rfc3339_day_label(ts@),
{
    match chrono::DateTime::parse_from_rfc3339(ts) {
        Ok(dt) => Some(dt.format("%A %d/%m").to_string()),
        Err(_) => None,
    }
}

/// `DateTime::parse_from_rfc3339(ts)` formatted with `%Y-%m-%d %H:%M`. The
/// contract names the result; the text chrono writes is not stated.
#[verifier::external_body]
pub(crate) fn minute_label(ts: &str) -> (r: Option<String>)
    ensures
        opt_view(r) == rfc3339_minute_label(ts@),
{
    match chrono::DateTime::parse_from_rfc3339(ts) {
        Ok(dt) => Some(dt.format("%Y-%m-%d %H:%M").to_string()),
        Err(_) => None,
    }
}

/// `Timelike::hour` of `DateTime::parse_from_rfc3339(ts)`: chrono documents
/// the hour as lying in `0..=23`.
#[verifier::external_body]
pub(crate) fn hour_of(ts: &str) -> (r: Option<u32>)
    ensures
        r == rfc3339_hour(ts@),
        r matches Some(h) ==> h < 24,
{
    match chrono::DateTime::parse_from_rfc3339(ts) {
        Ok(dt) => Some(dt.hour()),
        Err(_) => None,
    }
}

/// `later.signed_duration_since(earlier).num_minutes()` for the two parsed
/// timestamps. The contract names the result.
#[verifier::external_body]
pub(crate) fn minutes_between(later: &str, earlier: &str) -> (r: Option<i64>)
    ensures
        r == rfc3339_minutes_between(later@, earlier@),
{
    match (chrono::DateTime::parse_from_rfc3339(later), chrono::DateTime::parse_from_rfc3339(earlier)) {
        (Ok(a), Ok(b)) => Some(a.signed_duration_since(b).num_minutes()),
        _ => None,
    }
}

/// `DateTime::parse_from_rfc3339(ts)` formatted with `%Y-%m-%d %H:%M:%S`.
/// The contract names the result; the text chrono writes is not stated.
#[verifier::external_body]
pub(crate) fn second_label(ts: &str) -> (r: Option<String>)
    ensures
        opt_view(r) == rfc3339_second_label(ts@),
{
    match chrono::DateTime::parse_from_rfc3339(ts) {
        Ok(dt) => Some(dt.format("%Y-%m-%d %H:%M:%S").to_string()),
        Err(_) => None,
    }
}

/// A timestamp as the listings show it to the minute: chrono's reading, or
/// the timestamp as it is when it does not parse.
pub fn minute_stamp(ts: &str) -> (r: String)
    ensures
        r@ == (match rfc3339_minute_label(ts@) { Some(l) => l, None => ts@ }),
{
    match minute_label(ts) {
        Some(l) => l,
        None => String::from_str(ts),
    }
}

/// A timestamp as the listings show it to the second: chrono's reading, or
/// the timestamp as it is when it does not parse.
pub fn second_stamp(ts: &str) -> (r: String)
    ensures
        r@ == (match rfc3339_second_label(ts@) { Some(l) => l, None => ts@ }),
{
    match second_label(ts) {
        Some(l) => l,
        None => String::from_str(ts),
    }
}

} // verus!
