use chrono::{Datelike, NaiveDate};
use vstd::prelude::*;

verus! {

/// Year of the northern winter solstice (taken as 21 December) on or
/// before the given civil date.
pub open spec fn spec_solstice_origin_year(year: int, month: int, day: int) -> int {
    if month == 12 && day >= 21 { year } else { year - 1 }
}

/// The year whose 21 December starts the season year containing the date:
/// dates from 21 December on count from this year's solstice, earlier
/// dates from last year's.
pub fn solstice_origin_year(year: i32, month: u32, day: u32) -> (origin: i32)
    requires
        year > i32::MIN,
    ensures
        origin == spec_solstice_origin_year(year as int, month as int, day as int),
{
    if month == 12 && day >= 21 {
        year
    } else {
        year - 1
    }
}

/// Seconds in a civil day.
pub const DAY_SECONDS: i64 = 86_400;

/// `total`, clamped into one civil day.
pub open spec fn clamp_day_second(total: int) -> int {
    if total < 0 { 0 } else if total > DAY_SECONDS - 1 { DAY_SECONDS - 1 } else { total }
}

/// Hours, minutes and seconds of a second of the day, after clamping it
/// into the day.
pub fn time_of_day(total: i64) -> (hms: (u32, u32, u32))
    ensures
        hms.0 < 24 && hms.1 < 60 && hms.2 < 60,
        hms.0 * 3600 + hms.1 * 60 + hms.2 == clamp_day_second(total as int),
{
    let t = if total < 0 { 0 } else if total > DAY_SECONDS - 1 { DAY_SECONDS - 1 } else { total };
    let h = (t / 3600) as u32;
    let m = ((t % 3600) / 60) as u32;
    let s = (t % 60) as u32;
    assert(t == (t / 3600) * 3600 + ((t % 3600) / 60) * 60 + t % 60) by (nonlinear_arith)
        requires
            0 <= t,
    ;
    (h, m, s)
}


/// Gregorian leap years.
pub open spec fn is_leap_year(year: int) -> bool {
    year % 4 == 0 && (year % 100 != 0 || year % 400 == 0)
}

/// Days in a month of a year.
pub open spec fn days_in_month(year: int, month: int) -> int {
    if month == 2 {
        if is_leap_year(year) { 29 } else { 28 }
    } else if month == 4 || month == 6 || month == 9 || month == 11 {
        30
    } else {
        31
    }
}

/// Days of the year before the first of the month.
pub open spec fn days_before_month(year: int, month: int) -> int {
    let common: int = if month <= 1 { 0 } else if month == 2 { 31 } else if month == 3 { 59 } else if month == 4 { 90 }
        else if month == 5 { 120 } else if month == 6 { 151 } else if month == 7 { 181 } else if month == 8 { 212 }
        else if month == 9 { 243 } else if month == 10 { 273 } else if month == 11 { 304 } else { 334 };
    if month > 2 && is_leap_year(year) { common + 1 } else { common }
}

/// Whether chrono's proleptic Gregorian calendar has the date: years
/// -262143 to 262142, months 1 to 12, days within the month.
pub open spec fn civil_date_exists(year: i32, month: u32, day: u32) -> bool {
    &&& -262143 <= year <= 262142
    &&& 1 <= month <= 12
    &&& 1 <= day <= days_in_month(year as int, month as int)
}

/// Day number of a date in the proleptic Gregorian calendar, 1 January of
/// year 1 being day 1.
pub open spec fn day_number(year: i32, month: u32, day: u32) -> int {
    let p = year - 1;
    365 * p + p / 4 - p / 100 + p / 400 + days_before_month(year as int, month as int) + day
}

/// Asks chrono (`NaiveDate::from_ymd_opt`) whether the date exists, which it
/// does for the years of chrono's range, months 1 to 12 and the days of the
/// month under Gregorian leap years.
#[verifier::external_body]
fn date_exists(year: i32, month: u32, day: u32) -> (exists: bool)
    ensures
        exists == civil_date_exists(year, month, day),
{
    NaiveDate::from_ymd_opt(year, month, day).is_some()
}

/// chrono's `Datelike::num_days_from_ce` of an existing date: the day number
/// in the proleptic Gregorian calendar, 1 January of year 1 being day 1.
#[verifier::external_body]
fn days_from_ce(year: i32, month: u32, day: u32) -> (n: i32)
    requires
        civil_date_exists(year, month, day),
    ensures
        n as int == day_number(year, month, day),
{
    NaiveDate::from_ymd_opt(year, month, day).map_or(0, |date| date.num_days_from_ce())
}

/// Days from the northern winter solstice on or before the date to the
/// date.
pub open spec fn spec_days_since_solstice(year: i32, month: u32, day: u32) -> int {
    let origin = spec_solstice_origin_year(year as int, month as int, day as int) as i32;
    day_number(year, month, day) - day_number(origin, 12, 21)
}

/// Days since the last northern winter solstice (21 December), the count
/// the season of a date is measured by.
pub fn days_since_solstice(year: i32, month: u32, day: u32) -> (days: i64)
    requires
        year > i32::MIN,
        civil_date_exists(year, month, day),
        civil_date_exists(spec_solstice_origin_year(year as int, month as int, day as int) as i32, 12, 21),
    ensures
        days == spec_days_since_solstice(year, month, day),
{
    let origin = solstice_origin_year(year, month, day);
    let date = days_from_ce(year, month, day) as i64;
    let start = days_from_ce(origin, 12, 21) as i64;
    date - start
}

/// Days since the last northern winter solstice, or `None` when chrono's
/// calendar has no such date or no such solstice (only at the ends of its
/// range).
pub fn checked_days_since_solstice(year: i32, month: u32, day: u32) -> (days: Option<i64>)
    ensures
        days is Some <==> (year > i32::MIN && civil_date_exists(year, month, day)
            && civil_date_exists(spec_solstice_origin_year(year as int, month as int, day as int) as i32, 12, 21)),
        days matches Some(d) ==> d == spec_days_since_solstice(year, month, day),
{
    if year == i32::MIN || !date_exists(year, month, day) {
        return None;
    }
    let origin = solstice_origin_year(year, month, day);
    if !date_exists(origin, 12, 21) {
        return None;
    }
    Some(days_since_solstice(year, month, day))
}


/// What the time zone makes of a local civil time, as UTC seconds.
#[derive(Debug, Clone, Copy, PartialEq, Eq, Structural)]
pub enum LocalLookup {
    /// Exactly one instant has this local time.
    Unique(i64),
    /// The clocks were set back: the earlier of the two instants.
    Ambiguous(i64),
    /// The clocks jumped over this local time.
    Gap,
}

/// The next move when resolving a local time.
#[derive(Debug, Clone, Copy, PartialEq, Eq, Structural)]
pub enum GapStep {
    /// The UTC instant was found.
    Done(i64),
    /// Try this later local time (local seconds) next.
    Retry(i64),
    /// Give up and read the requested local time as UTC.
    GiveUp,
}

/// Attempts made before a local time in a clock gap is given up.
pub const GAP_ATTEMPTS: u32 = 4;

/// One step of resolving a local time: a time the zone knows is taken (the
/// earlier instant when the clocks went back); a time in a spring-forward gap
/// is tried again one hour later, at most four attempts in all.
pub open spec fn spec_gap_step(attempt: u32, candidate: i64, lookup: LocalLookup) -> GapStep {
    match lookup {
        LocalLookup::Unique(t) => GapStep::Done(t),
        LocalLookup::Ambiguous(t) => GapStep::Done(t),
        LocalLookup::Gap => if attempt + 1 < GAP_ATTEMPTS && candidate + 3600 <= i64::MAX {
            GapStep::Retry((candidate + 3600) as i64)
        } else {
            GapStep::GiveUp
        },
    }
}

/// Decides the next step after looking up attempt `attempt` (counting from
/// 0) at local time `candidate`.
pub fn gap_step(attempt: u32, candidate: i64, lookup: LocalLookup) -> (step: GapStep)
    ensures
        step == spec_gap_step(attempt, candidate, lookup),
{
    match lookup {
        LocalLookup::Unique(t) => GapStep::Done(t),
        LocalLookup::Ambiguous(t) => GapStep::Done(t),
        LocalLookup::Gap => {
            if attempt < GAP_ATTEMPTS - 1 && candidate <= i64::MAX - 3600 {
                GapStep::Retry(candidate + 3600)
            } else {
                GapStep::GiveUp
            }
        },
    }
}

/// Resolving never loops: retries move one hour forward and stop after the
/// fourth attempt.
pub proof fn lemma_gap_steps_end(attempt: u32, candidate: i64, lookup: LocalLookup)
    ensures
        spec_gap_step(attempt, candidate, lookup) matches GapStep::Retry(next) ==> next == candidate + 3600 && attempt + 1 < GAP_ATTEMPTS,
        attempt + 1 >= GAP_ATTEMPTS ==> !(spec_gap_step(attempt, candidate, lookup) is Retry),
{
}


proof fn lemma_div_step(y: int, k: int)
    requires
        k > 0,
    ensures
        y / k - (y - 1) / k == if y % k == 0 { 1int } else { 0int },
{
    vstd::arithmetic::div_mod::lemma_fundamental_div_mod(y, k);
    vstd::arithmetic::div_mod::lemma_fundamental_div_mod(y - 1, k);
    let a = y / k;
    let b = (y - 1) / k;
    assert(0 <= y % k < k && 0 <= (y - 1) % k < k) by {
        vstd::arithmetic::div_mod::lemma_mod_bound(y, k);
        vstd::arithmetic::div_mod::lemma_mod_bound(y - 1, k);
    }
    assert(k * a + y % k == k * b + (y - 1) % k + 1);
    assert(k * (a - b) == (y - 1) % k + 1 - y % k) by (nonlinear_arith)
        requires
            k * a + y % k == k * b + (y - 1) % k + 1,
    ;
    if a - b >= 2 {
        assert(k * (a - b) >= 2 * k) by (nonlinear_arith)
            requires
                a - b >= 2,
                k > 0,
        ;
    }
    if a - b <= -1 {
        assert(k * (a - b) <= -k) by (nonlinear_arith)
            requires
                a - b <= -1,
                k > 0,
        ;
    }
    if a - b == 1 {
        assert(k * (a - b) == k) by (nonlinear_arith)
            requires
                a - b == 1,
        ;
    }
    if a - b == 0 {
        assert(k * (a - b) == 0) by (nonlinear_arith)
            requires
                a - b == 0,
        ;
    }
}

proof fn lemma_year_length(y: int)
    ensures
        (y / 4 - (y - 1) / 4) - (y / 100 - (y - 1) / 100) + (y / 400 - (y - 1) / 400) == if is_leap_year(y) { 1int } else { 0int },
{
    lemma_div_step(y, 4);
    lemma_div_step(y, 100);
    lemma_div_step(y, 400);
    if y % 100 == 0 {
        vstd::arithmetic::div_mod::lemma_fundamental_div_mod(y, 100);
        assert(y == 100 * (y / 100));
        assert(y % 4 == 0) by {
            vstd::arithmetic::div_mod::lemma_mod_multiples_basic(25 * (y / 100), 4);
            assert(y == (25 * (y / 100)) * 4) by (nonlinear_arith)
                requires
                    y == 100 * (y / 100),
            ;
        }
    }
    if y % 400 == 0 {
        vstd::arithmetic::div_mod::lemma_fundamental_div_mod(y, 400);
        assert(y % 100 == 0) by {
            vstd::arithmetic::div_mod::lemma_mod_multiples_basic(4 * (y / 400), 100);
            assert(y == (4 * (y / 400)) * 100) by (nonlinear_arith)
                requires
                    y == 400 * (y / 400),
            ;
        }
    }
}

/// The days since the last winter solstice always fall within one season
/// year: 0 on 21 December, at most 365 on the following 20 December.
pub proof fn lemma_days_since_solstice_in_year(year: i32, month: u32, day: u32)
    requires
        year > i32::MIN,
        civil_date_exists(year, month, day),
    ensures
        0 <= spec_days_since_solstice(year, month, day) <= 365,
        (month == 12 && day == 21) ==> spec_days_since_solstice(year, month, day) == 0,
{
    if !(month == 12 && day >= 21) {
        lemma_year_length(year - 1);
        let p = year - 1;
        let q = year - 2;
        assert(day_number(year, month, day) == 365 * p + p / 4 - p / 100 + p / 400 + days_before_month(year as int, month as int) + day);
        assert(day_number((year - 1) as i32, 12, 21) == 365 * q + q / 4 - q / 100 + q / 400 + days_before_month((year - 1) as int, 12) + 21);
    }
}

} // verus!
