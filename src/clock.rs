use vstd::prelude::*;
use chrono::{DateTime, Local, NaiveDateTime, TimeZone};
use crate::digits::{padded, push_padded};
use vstd::arithmetic::div_mod::lemma_mod_multiples_vanish;

verus! {

#[verifier::external_type_specification]
#[verifier::external_body]
pub struct ExNaiveDateTime(NaiveDateTime);

/// Seconds in a day.
pub const DAY_SECONDS: i64 = 86_400;

/// The earliest timestamp with a calendar date: midnight UTC on 1 January
/// of year -262143, chrono's first representable day.
pub const MIN_CALENDAR_SECONDS: i64 = -8_334_601_228_800;

/// The latest timestamp with a calendar date: the last second UTC of
/// 31 December of year 262142, chrono's last representable day.
pub const MAX_CALENDAR_SECONDS: i64 = 8_210_266_876_799;

/// Whether a timestamp falls within the representable calendar.
pub open spec fn on_calendar(timestamp: int) -> bool {
    MIN_CALENDAR_SECONDS <= timestamp <= MAX_CALENDAR_SECONDS
}

/// A whole number of days longer than any `i64` count of seconds.
const DAYS_BEYOND_I64: u128 = 106_751_991_167_302;

/// The text shown for a timestamp that has no calendar date.
pub open spec fn invalid_time_text() -> Seq<char> {
    seq!['I', 'n', 'v', 'a', 'l', 'i', 'd', ' ', 'T', 'i', 'm', 'e']
}

/// `HH:MM` of the wall-clock time `local` seconds after an epoch midnight.
pub open spec fn hour_minute_text(local: int) -> Seq<char> {
    let day = local % (DAY_SECONDS as int);
    padded((day / 3600) as nat, 2).push(':') + padded(((day / 60) % 60) as nat, 2)
}

/// Relies on chrono's `DateTime::from_timestamp` (whole seconds) to place a
/// timestamp on the UTC calendar; it gives `None` exactly when the day falls
/// outside chrono's years `MIN_YEAR..=MAX_YEAR`.
#[verifier::external_body]
fn utc_calendar_time(timestamp: i64) -> (r: Option<NaiveDateTime>)
    ensures
        r.is_some() <==> on_calendar(timestamp as int),
{
    DateTime::from_timestamp(timestamp, 0).map(|dt| dt.naive_utc())
}

/// Relies on chrono's `Local::offset_from_utc_datetime` and
/// `FixedOffset::local_minus_utc`: the machine's offset from UTC at that
/// time, which a `FixedOffset` keeps strictly within one day.
#[verifier::external_body]
fn local_offset_seconds(utc: &NaiveDateTime) -> (r: i32)
    ensures
        -86_400 < r < 86_400,
{
    Local.offset_from_utc_datetime(utc).local_minus_utc()
}

/// Formats a timestamp shifted by a UTC offset as `HH:MM`.
pub fn clock_label(timestamp: i64, offset: i32) -> (r: String)
    requires
        -86_400 < offset < 86_400,
    ensures
        r@ == hour_minute_text(timestamp as int + offset as int),
{
    proof { reveal_strlit(":"); }
    let local = timestamp as i128 + offset as i128;
    let shifted = (local + (DAYS_BEYOND_I64 * 86_400) as i128) as u128;
    let day = shifted % 86_400;
    proof {
        lemma_mod_multiples_vanish(DAYS_BEYOND_I64 as int, local as int, 86_400);
    }
    let mut s = String::new();
    push_padded(&mut s, (day / 3600) as u64, 2);
    s.append(":");
    push_padded(&mut s, ((day / 60) % 60) as u64, 2);
    assert(s@ =~= hour_minute_text(timestamp as int + offset as int));
    s
}

proof fn lemma_padded_length(n: nat, width: nat)
    ensures
        padded(n, width).len() == width,
    decreases width,
{
    if width > 0 {
        lemma_padded_length(n / 10, (width - 1) as nat);
    }
}

proof fn lemma_hour_minute_length(local: int)
    ensures
        hour_minute_text(local).len() == 5,
{
    let day = local % (DAY_SECONDS as int);
    lemma_padded_length((day / 3600) as nat, 2);
    lemma_padded_length(((day / 60) % 60) as nat, 2);
}

/// Formats a timestamp as the local `HH:MM`, or as `Invalid Time` when it
/// has no calendar date.
pub fn format_time(timestamp: i64) -> (r: String)
    ensures
        (r@ == invalid_time_text()) <==> !on_calendar(timestamp as int),
        on_calendar(timestamp as int) ==> exists|o: int|
            -86_400 < o < 86_400 && r@ == #[trigger] hour_minute_text(timestamp as int + o),
{
    match utc_calendar_time(timestamp) {
        Some(utc) => {
            let offset = local_offset_seconds(&utc);
            let r = clock_label(timestamp, offset);
            proof {
                lemma_hour_minute_length(timestamp as int + offset as int);
                assert(invalid_time_text().len() == 12);
                assert(r@ != invalid_time_text());
            }
            r
        },
        None => {
            proof { reveal_strlit("Invalid Time"); }
            let r = String::from_str("Invalid Time");
            assert(r@ == invalid_time_text());
            r
        },
    }
}

} // verus!
