//! The audit trail's file and the timestamp in front of each of its lines.

use vstd::prelude::*;

use crate::text::{zero_padded, zero_padded_string};

verus! {

/// Where the audit trail lies below a home directory.
pub open spec fn log_path_under(home: Seq<char>) -> Seq<char> {
    home + "/Library/Logs/SymbolSweep/deletions.log"@
}

/// The audit trail's file below `home`, or below `/tmp` when there is no home directory.
pub fn get_log_file_path(home: Option<&str>) -> (r: String)
    ensures
        home matches Some(h) ==> r@ == log_path_under(h@),
        home is None ==> r@ == log_path_under("/tmp"@),
{
    let mut r = match home {
        Some(h) => String::from_str(h),
        None => String::from_str("/tmp"),
    };
    r.append("/Library/Logs/SymbolSweep/deletions.log");
    r
}

pub open spec fn is_leap(y: int) -> bool {
    y % 4 == 0 && (y % 100 != 0 || y % 400 == 0)
}

pub open spec fn year_days(y: int) -> int {
    if is_leap(y) {
        366
    } else {
        365
    }
}

pub open spec fn month_days(y: int, m: int) -> int {
    if m == 2 {
        if is_leap(y) {
            29
        } else {
            28
        }
    } else if m == 4 || m == 6 || m == 9 || m == 11 {
        30
    } else {
        31
    }
}

/// Leap years among the years 1 to `n`.
pub open spec fn leaps_through(n: int) -> int {
    n / 4 - n / 100 + n / 400
}

/// Days from 1 January 1970 to 1 January of year `y`.
pub open spec fn days_before_year(y: int) -> int {
    365 * (y - 1970) + leaps_through(y - 1) - leaps_through(1969)
}

/// Days from 1 January to the first of month `m` in year `y`.
pub open spec fn days_before_month(y: int, m: int) -> int
    decreases m,
{
    if m <= 1 {
        0
    } else {
        days_before_month(y, m - 1) + month_days(y, m - 1)
    }
}

/// A day of the Gregorian calendar, from 1970 on.
#[derive(Debug, Clone, Copy, PartialEq, Eq, Structural)]
pub struct CivilDate {
    pub year: u64,
    pub month: u64,
    pub day: u64,
}

impl CivilDate {
    pub open spec fn valid(self) -> bool {
        &&& self.year >= 1970
        &&& 1 <= self.month <= 12
        &&& 1 <= self.day <= month_days(self.year as int, self.month as int)
    }

    /// Days from 1 January 1970 to this day.
    pub open spec fn epoch_day(self) -> int {
        days_before_year(self.year as int) + days_before_month(self.year as int, self.month as int)
            + self.day - 1
    }
}

proof fn lemma_div_step(y: int, d: int)
    requires
        y >= 1,
        d >= 1,
    ensures
        y / d - (y - 1) / d == if y % d == 0 {
            1int
        } else {
            0int
        },
{
    vstd::arithmetic::div_mod::lemma_fundamental_div_mod(y, d);
    vstd::arithmetic::div_mod::lemma_fundamental_div_mod(y - 1, d);
    let q = y / d;
    let r = y % d;
    assert(y == d * q + r);
    if r == 0 {
        assert(y - 1 == (q - 1) * d + (d - 1)) by (nonlinear_arith)
            requires
                y == d * q + r,
                r == 0,
        ;
        vstd::arithmetic::div_mod::lemma_fundamental_div_mod_converse(y - 1, d, q - 1, d - 1);
    } else {
        assert(y - 1 == q * d + (r - 1)) by (nonlinear_arith)
            requires
                y == d * q + r,
        ;
        vstd::arithmetic::div_mod::lemma_fundamental_div_mod_converse(y - 1, d, q, r - 1);
    }
}

proof fn lemma_next_year(y: int)
    requires
        y >= 1970,
    ensures
        days_before_year(y + 1) == days_before_year(y) + year_days(y),
{
    lemma_div_step(y, 4);
    lemma_div_step(y, 100);
    lemma_div_step(y, 400);
}

proof fn lemma_four_centuries(k: int)
    requires
        k >= 0,
    ensures
        days_before_year(1970 + 400 * k) == 146097 * k,
    decreases k,
{
    if k > 0 {
        lemma_four_centuries(k - 1);
        let y = 1970 + 400 * (k - 1);
        let n = y - 1;
        assert((n + 400) / 4 == n / 4 + 100) by {
            vstd::arithmetic::div_mod::lemma_fundamental_div_mod_converse(
                n + 400,
                4,
                n / 4 + 100,
                n % 4,
            );
            vstd::arithmetic::div_mod::lemma_fundamental_div_mod(n, 4);
        }
        assert((n + 400) / 100 == n / 100 + 4) by {
            vstd::arithmetic::div_mod::lemma_fundamental_div_mod_converse(
                n + 400,
                100,
                n / 100 + 4,
                n % 100,
            );
            vstd::arithmetic::div_mod::lemma_fundamental_div_mod(n, 100);
        }
        assert((n + 400) / 400 == n / 400 + 1) by {
            vstd::arithmetic::div_mod::lemma_fundamental_div_mod_converse(
                n + 400,
                400,
                n / 400 + 1,
                n % 400,
            );
            vstd::arithmetic::div_mod::lemma_fundamental_div_mod(n, 400);
        }
        assert(1970 + 400 * k == y + 400);
    }
}

proof fn lemma_months_fill_year(y: int)
    ensures
        days_before_month(y, 13) == year_days(y),
{
    reveal_with_fuel(days_before_month, 13);
}

fn year_length(year: u64) -> (r: u64)
    ensures
        r == year_days(year as int),
{
    if year % 4 == 0 && (year % 100 != 0 || year % 400 == 0) {
        366
    } else {
        365
    }
}

fn month_length(year: u64, month: u64) -> (r: u64)
    ensures
        r == month_days(year as int, month as int),
{
    if month == 2 {
        if year % 4 == 0 && (year % 100 != 0 || year % 400 == 0) {
            29
        } else {
            28
        }
    } else if month == 4 || month == 6 || month == 9 || month == 11 {
        30
    } else {
        31
    }
}

/// The calendar day that lies `days` days after 1 January 1970.
pub fn civil_from_days(days: u64) -> (r: CivilDate)
    ensures
        r.valid(),
        r.epoch_day() == days,
{
    let cycles = days / 146097;
    let mut rem = days % 146097;
    let mut year: u64 = 1970 + 400 * cycles;
    let ghost base = year as int;
    let ghost rem0 = rem as int;
    proof {
        lemma_four_centuries(cycles as int);
    }
    while rem >= year_length(year)
        invariant
            year >= 1970,
            year >= base,
            base == 1970 + 400 * cycles,
            cycles <= days / 146097,
            rem0 < 146097,
            365 * (year - base) + rem <= rem0,
            rem < 146097,
            days_before_year(year as int) + rem == days,
        decreases rem,
    {
        let len = year_length(year);
        proof {
            lemma_next_year(year as int);
        }
        rem = rem - len;
        year = year + 1;
    }
    assert(rem < year_days(year as int));
    let mut month: u64 = 1;
    proof {
        lemma_months_fill_year(year as int);
    }
    loop
        invariant
            1 <= month <= 12,
            rem < 146097,
            year >= 1970,
            days_before_year(year as int) + days_before_month(year as int, month as int) + rem
                == days,
            days_before_month(year as int, month as int) + rem < year_days(year as int),
            days_before_month(year as int, 13) == year_days(year as int),
        ensures
            1 <= month <= 12,
            days_before_year(year as int) + days_before_month(year as int, month as int) + rem
                == days,
            rem < month_days(year as int, month as int),
        decreases 13 - month,
    {
        let len = month_length(year, month);
        if rem < len {
            break ;
        }
        assert(days_before_month(year as int, month + 1) == days_before_month(
            year as int,
            month as int,
        ) + len);
        if month == 12 {
            assert(false);
        }
        rem = rem - len;
        month = month + 1;
    }
    CivilDate { year, month, day: rem + 1 }
}

/// `YYYY-MM-DD HH:MM:SS` for the day `date` and the second `secs` of that day.
pub open spec fn stamp_text(date: CivilDate, secs: nat) -> Seq<char> {
    zero_padded(date.year as nat, 4) + "-"@ + zero_padded(date.month as nat, 2) + "-"@
        + zero_padded(date.day as nat, 2) + " "@ + zero_padded(secs / 3600, 2) + ":"@
        + zero_padded((secs % 3600) / 60, 2) + ":"@ + zero_padded(secs % 60, 2)
}

/// The audit-trail timestamp of `secs` seconds after the epoch, in UTC on
/// the Gregorian calendar.
pub fn format_timestamp(secs: u64) -> (r: String)
    ensures
        exists|date: CivilDate|
            date.valid() && date.epoch_day() == secs / 86400 && r@ == #[trigger] stamp_text(
                date,
                (secs % 86400) as nat,
            ),
{
    let date = civil_from_days(secs / 86400);
    let of_day = secs % 86400;
    let mut r = zero_padded_string(date.year, 4);
    r.append("-");
    let part = zero_padded_string(date.month, 2);
    r.append(part.as_str());
    r.append("-");
    let part = zero_padded_string(date.day, 2);
    r.append(part.as_str());
    r.append(" ");
    let part = zero_padded_string(of_day / 3600, 2);
    r.append(part.as_str());
    r.append(":");
    let part = zero_padded_string((of_day % 3600) / 60, 2);
    r.append(part.as_str());
    r.append(":");
    let part = zero_padded_string(of_day % 60, 2);
    r.append(part.as_str());
    assert(r@ == stamp_text(date, of_day as nat));
    r
}

/// One line of the audit trail: `[YYYY-MM-DD HH:MM:SS] message` and a line break.
pub fn log_entry(secs: u64, message: &str) -> (r: String)
    ensures
        exists|date: CivilDate|
            date.valid() && date.epoch_day() == secs / 86400 && r@ == "["@ + #[trigger] stamp_text(
                date,
                (secs % 86400) as nat,
            ) + "] "@ + message@ + "\n"@,
{
    let stamp = format_timestamp(secs);
    let mut r = String::from_str("[");
    r.append(stamp.as_str());
    r.append("] ");
    r.append(message);
    r.append("\n");
    r
}

} // verus!
