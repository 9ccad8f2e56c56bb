//! Instants and the fixed target timezone.
//!
//! An instant is a count of whole seconds since the Unix epoch, UTC. The
//! target timezone is New Zealand time, whose clock the spreadsheet's
//! date and hour columns follow. What only the timezone database can
//! answer — the civil fields an instant reads as on a New Zealand clock,
//! the instant a New Zealand civil time denotes, the canonical texts —
//! is taken from the chrono and chrono-tz crates through the trusted
//! functions below; everything built on those answers is verified.
use vstd::prelude::*;

use chrono::Datelike;
use chrono::TimeZone;
use chrono::Timelike;

use crate::text::{push_two_digits, two_digit_text};

verus! {

/// The instants this library works with: from the epoch up to a day
/// before the year 10000 UTC, so that every civil year, in UTC or in the
/// target zone, has exactly four digits.
pub open spec fn valid_instant(t: int) -> bool {
    0 <= t <= 253402214400
}

/// The civil fields (year, month, day, hour, minute, second) an instant
/// reads as on a New Zealand clock. The timezone database fixes them, so
/// they are a function of the instant alone.
pub uninterp spec fn nz_civil_of(t: int) -> (int, int, int, int, int, int);

/// What a New Zealand civil time (year, month, day, hour, on the hour)
/// denotes: its instant — the earlier one when a clock change repeats the
/// hour — or nothing when the date is invalid or a clock change skips the
/// hour. The timezone database fixes the outcome, so it is a function of
/// the civil time alone.
pub uninterp spec fn nz_instant_of(y: int, m: int, d: int, h: int) -> Option<int>;

/// The canonical text of an instant as UTC.
pub uninterp spec fn utc_text_of(t: int) -> Seq<char>;

/// The canonical text of an instant on a New Zealand clock.
pub uninterp spec fn nz_text_of(t: int) -> Seq<char>;

/// Relies on chrono's `DateTime::from_timestamp` and chrono-tz's zone
/// conversion: the civil fields of the instant in `Tz::NZ`, a function of
/// the instant alone, with the ranges the `Datelike` and `Timelike`
/// accessors document; the year stays four digits because New Zealand's
/// offset never moves an in-range instant past the year 9999.
#[verifier::external_body]
pub(crate) fn nz_civil_parts(t: i64) -> (r: (i32, u32, u32, u32, u32, u32))
    requires
        valid_instant(t as int),
    ensures
        nz_civil_of(t as int) == (
            r.0 as int,
            r.1 as int,
            r.2 as int,
            r.3 as int,
            r.4 as int,
            r.5 as int,
        ),
        1970 <= r.0 <= 9999,
        1 <= r.1 <= 12,
        1 <= r.2 <= 31,
        r.3 < 24,
        r.4 < 60,
        r.5 < 60,
{
    let dt = chrono::DateTime::<chrono::Utc>::from_timestamp(t, 0)
        .unwrap()
        .with_timezone(&chrono_tz::Tz::NZ);
    (dt.year(), dt.month(), dt.day(), dt.hour(), dt.minute(), dt.second())
}

/// Relies on chrono-tz's `with_ymd_and_hms` for `Tz::NZ`: the instant the
/// given civil time denotes there (the earlier instant when a clock change
/// repeats the hour), and nothing exactly when the date is invalid or a
/// clock change skips the hour — in either case a function of the
/// arguments alone, since the timezone table is compiled in.
#[verifier::external_body]
pub(crate) fn nz_local_instant(y: i32, m: u32, d: u32, h: u32) -> (r: Option<i64>)
    ensures
        (r is Some) == (nz_instant_of(y as int, m as int, d as int, h as int) is Some),
        r is Some ==> r->0 as int == nz_instant_of(y as int, m as int, d as int, h as int)->0,
{
    match chrono_tz::Tz::NZ.with_ymd_and_hms(y, m, d, h, 0, 0) {
        chrono::LocalResult::Single(dt) => Some(dt.timestamp()),
        chrono::LocalResult::Ambiguous(dt, _) => Some(dt.timestamp()),
        chrono::LocalResult::None => None,
    }
}

/// Relies on the `Display` of chrono's `DateTime<Utc>`: the canonical
/// text of the instant, a function of the instant alone, never empty.
#[verifier::external_body]
pub(crate) fn utc_text(t: i64) -> (r: String)
    requires
        valid_instant(t as int),
    ensures
        r@ == utc_text_of(t as int),
        r@.len() > 0,
{
    chrono::DateTime::<chrono::Utc>::from_timestamp(t, 0).unwrap().to_string()
}

/// Relies on the `Display` of chrono's `DateTime<Tz>` for `Tz::NZ`: the
/// canonical text of the instant on a New Zealand clock, a function of
/// the instant alone, never empty.
#[verifier::external_body]
pub(crate) fn nz_text(t: i64) -> (r: String)
    requires
        valid_instant(t as int),
    ensures
        r@ == nz_text_of(t as int),
        r@.len() > 0,
{
    chrono::DateTime::<chrono::Utc>::from_timestamp(t, 0)
        .unwrap()
        .with_timezone(&chrono_tz::Tz::NZ)
        .to_string()
}

/// The date cell: day, month and two-digit year, slash separated.
pub open spec fn ddmmyy_text(y: int, m: int, d: int) -> Seq<char> {
    two_digit_text(d) + seq!['/'] + two_digit_text(m) + seq!['/'] + two_digit_text(y % 100)
}

/// The time-of-day cell: twenty-four-hour clock, zero padded.
pub open spec fn hhmm_text(h: int, mi: int) -> Seq<char> {
    two_digit_text(h) + seq![':'] + two_digit_text(mi)
}

/// Formats the date cell of an instant's New Zealand civil date.
fn ddmmyy_string(y: i32, m: u32, d: u32) -> (r: String)
    requires
        0 <= y,
        m < 100,
        d < 100,
    ensures
        r@ == ddmmyy_text(y as int, m as int, d as int),
{
    proof {
        reveal_strlit("/");
    }
    let mut s = String::new();
    push_two_digits(&mut s, d as usize);
    s.append("/");
    push_two_digits(&mut s, m as usize);
    s.append("/");
    push_two_digits(&mut s, (y % 100) as usize);
    proof {
        assert(s@ =~= ddmmyy_text(y as int, m as int, d as int));
    }
    s
}

/// Formats the time-of-day cell.
fn hhmm_string(h: u32, mi: u32) -> (r: String)
    requires
        h < 100,
        mi < 100,
    ensures
        r@ == hhmm_text(h as int, mi as int),
{
    proof {
        reveal_strlit(":");
    }
    let mut s = String::new();
    push_two_digits(&mut s, h as usize);
    s.append(":");
    push_two_digits(&mut s, mi as usize);
    proof {
        assert(s@ =~= hhmm_text(h as int, mi as int));
    }
    s
}

/// The date cell of an instant: its New Zealand civil date as
/// `DD/MM/YY`, always eight characters.
pub fn nz_date_cell(t: i64) -> (r: String)
    requires
        valid_instant(t as int),
    ensures
        ({
            let c = nz_civil_of(t as int);
            r@ == ddmmyy_text(c.0, c.1, c.2)
        }),
        r@.len() == 8,
{
    let (y, m, d, _h, _mi, _s) = nz_civil_parts(t);
    let r = ddmmyy_string(y, m, d);
    proof {
        let c = nz_civil_of(t as int);
        assert(r@ == ddmmyy_text(c.0, c.1, c.2));
        assert(r@.len() == 8);
    }
    r
}

/// The time-of-day cell of an instant: its New Zealand clock reading as
/// twenty-four-hour `HH:MM`, always five characters.
pub fn nz_hour_cell(t: i64) -> (r: String)
    requires
        valid_instant(t as int),
    ensures
        ({
            let c = nz_civil_of(t as int);
            r@ == hhmm_text(c.3, c.4)
        }),
        r@.len() == 5,
{
    let (_y, _m, _d, h, mi, _s) = nz_civil_parts(t);
    let r = hhmm_string(h, mi);
    proof {
        let c = nz_civil_of(t as int);
        assert(r@ == hhmm_text(c.3, c.4));
        assert(r@.len() == 5);
    }
    r
}

} // verus!
