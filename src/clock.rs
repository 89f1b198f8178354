use vstd::prelude::*;

use crate::text::{digit_value, is_digit, padded, padded_text};

verus! {

/// A wall-clock reading.
#[derive(Debug, Clone, Copy, PartialEq, Eq, Structural)]
pub struct WallClock {
    pub year: i32,
    pub month: u8,
    pub day: u8,
    pub hour: u8,
    pub minute: u8,
    /// Seconds since the Unix epoch.
    pub unix: i64,
}

/// What holds of every reading of a clock.
pub open spec fn plausible(c: WallClock) -> bool {
    &&& 1 <= c.month <= 12
    &&& 1 <= c.day <= 31
    &&& c.hour < 24
    &&& c.minute < 60
}

/// Relies on `time::OffsetDateTime::now_local`: the local date and time,
/// or `None` when the local offset cannot be determined.
#[verifier::external_body]
pub fn local_now() -> (r: Option<WallClock>)
    ensures
        r matches Some(c) ==> plausible(c),
{
    match time::OffsetDateTime::now_local() {
        Ok(now) => Some(
            WallClock {
                year: now.year(),
                month: now.month() as u8,
                day: now.day(),
                hour: now.hour(),
                minute: now.minute(),
                unix: now.unix_timestamp(),
            },
        ),
        Err(_) => None,
    }
}

/// Relies on `time::OffsetDateTime::now_utc`: the current UTC date and time.
#[verifier::external_body]
pub fn utc_now() -> (r: WallClock)
    ensures
        plausible(r),
{
    let now = time::OffsetDateTime::now_utc();
    WallClock {
        year: now.year(),
        month: now.month() as u8,
        day: now.day(),
        hour: now.hour(),
        minute: now.minute(),
        unix: now.unix_timestamp(),
    }
}

/// The local time, or UTC when the local offset is unknown.
pub fn now() -> (r: WallClock)
    ensures
        plausible(r),
{
    match local_now() {
        Some(c) => c,
        None => utc_now(),
    }
}

// ---------------------------------------------------------------------
// Calendar
// ---------------------------------------------------------------------

/// Gregorian leap year.
pub open spec fn is_leap(y: int) -> bool {
    (y % 4 == 0 && y % 100 != 0) || y % 400 == 0
}

/// Days in month `m` of year `y`.
pub open spec fn days_in_month(y: int, m: int) -> int {
    if m == 2 {
        if is_leap(y) {
            29
        } else {
            28
        }
    } else if m == 4 || m == 6 || m == 9 || m == 11 {
        30
    } else {
        31
    }
}

/// Whether (y, m, d) names a calendar day.
pub open spec fn valid_date(y: int, m: int, d: int) -> bool {
    1 <= m <= 12 && 1 <= d <= days_in_month(y, m)
}

/// The calendar day after (y, m, d).
pub open spec fn next_date(y: int, m: int, d: int) -> (int, int, int) {
    if d < days_in_month(y, m) {
        (y, m, d + 1)
    } else if m < 12 {
        (y, m + 1, 1)
    } else {
        (y + 1, 1, 1)
    }
}

/// The calendar day before (y, m, d).
pub open spec fn prev_date(y: int, m: int, d: int) -> (int, int, int) {
    if d > 1 {
        (y, m, d - 1)
    } else if m > 1 {
        (y, m - 1, days_in_month(y, m - 1))
    } else {
        (y - 1, 12, 31)
    }
}

/// The calendar day after (y, m, d) when `forward`, else the day before.
pub open spec fn stepped_date(y: int, m: int, d: int, forward: bool) -> (int, int, int) {
    if forward {
        next_date(y, m, d)
    } else {
        prev_date(y, m, d)
    }
}

/// Relies on `time::Date::from_calendar_date`, `time::Date::next_day` and
/// `time::Date::previous_day`: the calendar day after (or before) a valid date.
#[verifier::external_body]
fn step_day(y: i32, m: u8, d: u8, forward: bool) -> (r: Option<(i32, u8, u8)>)
    requires
        1 <= y <= 9998,
    ensures
        r is Some == valid_date(y as int, m as int, d as int),
        r matches Some(n) ==> (n.0 as int, n.1 as int, n.2 as int) == stepped_date(
            y as int,
            m as int,
            d as int,
            forward,
        ),
{
    let month = time::Month::try_from(m).ok()?;
    let date = time::Date::from_calendar_date(y, month, d).ok()?;
    let moved = if forward { date.next_day()? } else { date.previous_day()? };
    Some((moved.year(), moved.month() as u8, moved.day()))
}

// ---------------------------------------------------------------------
// "YYYY-MM-DD" dates
// ---------------------------------------------------------------------

/// "YYYY-MM-DD" for a year from 0 to 9999.
pub open spec fn iso_date(y: nat, m: nat, d: nat) -> Seq<char> {
    padded(y, 4) + "-"@ + padded(m, 2) + "-"@ + padded(d, 2)
}

/// Value of the digits of `s` between `from` and `to`.
pub open spec fn field_value(s: Seq<char>, from: int, to: int) -> int
    decreases to - from,
{
    if to <= from {
        0
    } else {
        field_value(s, from, to - 1) * 10 + digit_value(s[to - 1])
    }
}

/// Whether `s` has the shape "DDDD-DD-DD" with decimal digits.
pub open spec fn iso_shaped(s: Seq<char>) -> bool {
    &&& s.len() == 10
    &&& s[4] == '-'
    &&& s[7] == '-'
    &&& forall|k: int| 0 <= k < 10 && k != 4 && k != 7 ==> is_digit(#[trigger] s[k])
}

/// (year, month, day) of a "YYYY-MM-DD" text.
pub open spec fn iso_fields(s: Seq<char>) -> (int, int, int) {
    (field_value(s, 0, 4), field_value(s, 5, 7), field_value(s, 8, 10))
}

fn read_field(s: &str, from: usize, to: usize) -> (r: u32)
    requires
        from <= to <= s@.len(),
        to - from <= 4,
        forall|k: int| from <= k < to ==> is_digit(#[trigger] s@[k]),
    ensures
        r == field_value(s@, from as int, to as int),
{
    let mut acc: u32 = 0;
    let mut i: usize = from;
    while i < to
        invariant
            from <= i <= to,
            to <= s@.len(),
            to - from <= 4,
            forall|k: int| from <= k < to ==> is_digit(#[trigger] s@[k]),
            acc == field_value(s@, from as int, i as int),
            acc < pow10(i - from),
        decreases to - i,
    {
        let c = s.get_char(i);
        assert(is_digit(s@[i as int]));
        let d = c as u32 - '0' as u32;
        proof {
            assert(pow10(i + 1 - from) == pow10(i - from) * 10);
            assert(acc * 10 + d < pow10(i - from) * 10) by (nonlinear_arith)
                requires acc < pow10(i - from), d < 10;
            assert(pow10(i + 1 - from) <= 100000) by {
                lemma_pow10_small(i + 1 - from);
            }
        }
        acc = acc * 10 + d;
        i += 1;
    }
    acc
}

spec fn pow10(n: int) -> int
    decreases n,
{
    if n <= 0 {
        1
    } else {
        pow10(n - 1) * 10
    }
}

proof fn lemma_pow10_small(n: int)
    requires
        0 <= n <= 5,
    ensures
        pow10(n) <= 100000,
{
    reveal_with_fuel(pow10, 6);
}

/// Reads a "YYYY-MM-DD" text into (year, month, day).
pub fn parse_iso_date(s: &str) -> (r: Option<(u32, u32, u32)>)
    ensures
        r is Some == iso_shaped(s@),
        r matches Some(f) ==> (f.0 as int, f.1 as int, f.2 as int) == iso_fields(s@),
{
    if s.unicode_len() != 10 {
        return None;
    }
    let mut k: usize = 0;
    while k < 10
        invariant
            s@.len() == 10,
            k <= 10,
            forall|j: int| 0 <= j < k && j != 4 && j != 7 ==> is_digit(#[trigger] s@[j]),
            k > 4 ==> s@[4] == '-',
            k > 7 ==> s@[7] == '-',
        decreases 10 - k,
    {
        let c = s.get_char(k);
        if k == 4 || k == 7 {
            if c != '-' {
                return None;
            }
        } else if !('0' <= c && c <= '9') {
            return None;
        }
        k += 1;
    }
    let y = read_field(s, 0, 4);
    let m = read_field(s, 5, 7);
    let d = read_field(s, 8, 10);
    Some((y, m, d))
}

/// Writes (year, month, day) as "YYYY-MM-DD".
pub fn format_iso_date(y: u32, m: u32, d: u32) -> (r: String)
    ensures
        r@ == iso_date(y as nat, m as nat, d as nat),
{
    let mut out = padded_text(y as u64, 4);
    out.append("-");
    let mm = padded_text(m as u64, 2);
    out.append(mm.as_str());
    out.append("-");
    let dd = padded_text(d as u64, 2);
    out.append(dd.as_str());
    out
}

/// The date shown for a clock reading: "YYYY-MM-DD", with a sign for years
/// before the common era.
pub open spec fn clock_date(c: WallClock) -> Seq<char> {
    if c.year >= 0 {
        iso_date(c.year as nat, c.month as nat, c.day as nat)
    } else {
        "-"@ + padded((-c.year) as nat, 3) + "-"@ + padded(c.month as nat, 2) + "-"@ + padded(
            c.day as nat,
            2,
        )
    }
}

/// The "YYYY-MM-DD" date of a clock reading.
pub fn date_of(c: WallClock) -> (r: String)
    ensures
        r@ == clock_date(c),
{
    if c.year >= 0 {
        format_iso_date(c.year as u32, c.month as u32, c.day as u32)
    } else {
        let mut out = "-".to_owned();
        let y = padded_text((-(c.year as i64)) as u64, 3);
        out.append(y.as_str());
        out.append("-");
        let mm = padded_text(c.month as u64, 2);
        out.append(mm.as_str());
        out.append("-");
        let dd = padded_text(c.day as u64, 2);
        out.append(dd.as_str());
        out
    }
}

/// The date `step` days from the "YYYY-MM-DD" date `s` (one day forward or
/// back), when `s` names a valid day of a year from 1 to 9998.
pub open spec fn shifted_iso_date(s: Seq<char>, forward: bool) -> Option<Seq<char>> {
    if iso_shaped(s) {
        let (y, m, d) = iso_fields(s);
        if 1 <= y <= 9998 && valid_date(y, m, d) {
            let (ny, nm, nd) = if forward {
                next_date(y, m, d)
            } else {
                prev_date(y, m, d)
            };
            Some(iso_date(ny as nat, nm as nat, nd as nat))
        } else {
            None
        }
    } else {
        None
    }
}

/// The day after or before the "YYYY-MM-DD" date `s`.
pub fn shift_iso_date(s: &str, forward: bool) -> (r: Option<String>)
    ensures
        match shifted_iso_date(s@, forward) {
            Some(x) => r matches Some(v) && v@ == x,
            None => r is None,
        },
{
    let (y, m, d) = match parse_iso_date(s) {
        Some(f) => f,
        None => {
            return None;
        },
    };
    if y < 1 || y > 9998 || m > 12 || d > 31 {
        return None;
    }
    let shifted = step_day(y as i32, m as u8, d as u8, forward);
    match shifted {
        Some((ny, nm, nd)) => {
            if ny < 0 {
                return None;
            }
            Some(format_iso_date(ny as u32, nm as u32, nd as u32))
        },
        None => None,
    }
}

} // verus!
