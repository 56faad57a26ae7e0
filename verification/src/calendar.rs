//! The proleptic Gregorian calendar: dates, their day numbers, and the
//! conversion of a day count back to a date.

use vstd::prelude::*;

verus! {

/// Whether year `y` is a leap year.
pub open spec fn is_leap_year(y: int) -> bool {
    y % 4 == 0 && (y % 100 != 0 || y % 400 == 0)
}

/// The number of days of year `y`.
pub open spec fn year_length(y: int) -> nat {
    if is_leap_year(y) {
        366
    } else {
        365
    }
}

/// The number of days of month `m` (1 to 12) of year `y`.
pub open spec fn month_length(y: int, m: int) -> nat {
    if m == 2 {
        if is_leap_year(y) {
            29
        } else {
            28
        }
    } else if m == 4 || m == 6 || m == 9 || m == 11 {
        30
    } else {
        31
    }
}

/// The days of the months of year `y` before month `m`.
pub open spec fn days_before_month(y: int, m: int) -> nat
    decreases m,
{
    if m <= 1 {
        0
    } else {
        days_before_month(y, m - 1) + month_length(y, m - 1)
    }
}

/// The days of the years before year `y`, counted from the start of year 0.
pub open spec fn days_before_year(y: nat) -> nat
    decreases y,
{
    if y == 0 {
        0
    } else {
        days_before_year((y - 1) as nat) + year_length(y - 1)
    }
}

/// Whether `(y, m, d)` is a date: a month from 1 to 12 and a day of it.
pub open spec fn is_date(y: nat, m: nat, d: nat) -> bool {
    1 <= m <= 12 && 1 <= d <= month_length(y as int, m as int)
}

/// The number of days from 0000-01-01 to the date `(y, m, d)`.
pub open spec fn day_number(y: nat, m: nat, d: nat) -> int {
    days_before_year(y) + days_before_month(y as int, m as int) + d - 1
}

/// The day number of the Unix epoch, 1970-01-01.
pub open spec fn epoch_day() -> int {
    day_number(1970, 1, 1)
}

/// The number of days before year `y`: 365 a year and one more for each
/// leap year before it.
proof fn lemma_days_before_year(y: nat)
    ensures
        days_before_year(y) == 365 * y + (y + 3) / 4 - (y + 99) / 100 + (y + 399) / 400,
    decreases y,
{
    if y > 0 {
        let x = (y - 1) as nat;
        lemma_days_before_year(x);
        assert((x + 4) / 4 - (x + 3) / 4 == (if x % 4 == 0 { 1int } else { 0 }));
        assert((x + 100) / 100 - (x + 99) / 100 == (if x % 100 == 0 { 1int } else { 0 }));
        assert((x + 400) / 400 - (x + 399) / 400 == (if x % 400 == 0 { 1int } else { 0 }));
    }
}

/// The first day of year `k` of a 400-year era counted from March 1st.
pub open spec fn march_year_start(k: int) -> int {
    365 * k + k / 4 - k / 100
}

/// The year of the era that a day of the era falls in, counted from
/// March 1st: the day lies between that year's first day and the next's.
proof fn lemma_year_of_era(doe: int)
    requires
        0 <= doe < 146097,
    ensures
        ({
            let yoe = (doe - doe / 1460 + doe / 36524 - doe / 146096) / 365;
            &&& 0 <= yoe <= 399
            &&& march_year_start(yoe) <= doe
            &&& doe < march_year_start(yoe) + year_length(yoe + 1)
        }),
{
    let yoe = (doe - doe / 1460 + doe / 36524 - doe / 146096) / 365;
    assert(0 <= yoe <= 399 && march_year_start(yoe) <= doe && doe < march_year_start(yoe) + (if (yoe + 1) % 4 == 0 && ((yoe + 1) % 100 != 0 || (yoe + 1) % 400 == 0) { 366int } else { 365 })) by (nonlinear_arith)
        requires
            0 <= doe < 146097,
            yoe == (doe - doe / 1460 + doe / 36524 - doe / 146096) / 365,
    ;
}

/// The days of a year counted from March 1st before its month `mp`
/// (March is 0, February of the next year 11).
pub open spec fn march_days_before(mp: int) -> int {
    (153 * mp + 2) / 5
}

/// The month, counted from March, that a day of a year counted from March
/// 1st falls in, and that the day's offset in it is within the month.
proof fn lemma_month_of_march_year(doy: int, long: bool)
    requires
        0 <= doy < (if long { 366int } else { 365 }),
    ensures
        ({
            let mp = (5 * doy + 2) / 153;
            &&& 0 <= mp <= 11
            &&& march_days_before(mp) <= doy
            &&& mp < 10 ==> doy - march_days_before(mp) < month_length(1, mp + 3)
            &&& mp == 10 ==> doy - march_days_before(mp) < 31
            &&& mp == 11 ==> doy - march_days_before(mp) < (if long { 29int } else { 28 })
        }),
{
    let mp = (5 * doy + 2) / 153;
    assert(0 <= mp <= 11 && march_days_before(mp) <= doy && doy < march_days_before(mp + 1))
        by (nonlinear_arith)
        requires
            0 <= doy < 366,
            mp == (5 * doy + 2) / 153,
    ;
    assert(march_days_before(1) == 31);
    assert(march_days_before(2) == 61);
    assert(march_days_before(3) == 92);
    assert(march_days_before(4) == 122);
    assert(march_days_before(5) == 153);
    assert(march_days_before(6) == 184);
    assert(march_days_before(7) == 214);
    assert(march_days_before(8) == 245);
    assert(march_days_before(9) == 275);
    assert(march_days_before(10) == 306);
    assert(march_days_before(11) == 337);
}

/// The days of a year before its month `m`: those of the months from
/// March on count from March 1st, after the 59 days of January and February
/// and a leap day.
proof fn lemma_days_before_month(y: int, m: int)
    requires
        1 <= m <= 12,
    ensures
        m == 1 ==> days_before_month(y, m) == 0,
        m == 2 ==> days_before_month(y, m) == 31,
        m >= 3 ==> days_before_month(y, m) == 59 + (if is_leap_year(y) { 1int } else { 0 })
            + march_days_before(m - 3),
{
    reveal_with_fuel(days_before_month, 13);
}

/// The date of day `days` after 1970-01-01, computed over 400-year eras
/// of 146097 days counted from 0000-03-01 (day 719468 before the epoch):
/// the year of the era, the day of that year, then the month counted from
/// March and the day of the month.
pub open spec fn era_civil(days: nat) -> (nat, nat, nat) {
    let z = days + 719468;
    let era = z / 146097;
    let doe = z % 146097;
    let yoe = (doe - doe / 1460 + doe / 36524 - doe / 146096) / 365;
    let doy = doe - march_year_start(yoe);
    let mp = (5 * doy + 2) / 153;
    let d = doy - march_days_before(mp) + 1;
    if mp < 10 {
        ((yoe + era * 400) as nat, (mp + 3) as nat, d as nat)
    } else {
        ((yoe + era * 400 + 1) as nat, (mp - 9) as nat, d as nat)
    }
}

/// Shifting a year by whole 400-year eras keeps whether it is a leap year.
proof fn lemma_leap_shift(y: int, era: int)
    ensures
        is_leap_year(y + era * 400) == is_leap_year(y),
{
    assert((y + era * 400) % 4 == y % 4);
    assert((y + era * 400) % 100 == y % 100);
    assert((y + era * 400) % 400 == y % 400);
}

/// The days before year `yoe + 400 * era`: whole eras of 146097 days, then
/// the years of the era.
proof fn lemma_days_before_era_year(era: nat, yoe: nat)
    requires
        yoe <= 400,
    ensures
        days_before_year(yoe + era * 400) == 146097 * era + 365 * yoe + (yoe + 3) / 4 - (yoe
            + 99) / 100 + (yoe + 399) / 400,
{
    lemma_days_before_year(yoe + era * 400);
    assert((yoe + era * 400 + 3) / 4 == (yoe + 3) / 4 + era * 100);
    assert((yoe + era * 400 + 99) / 100 == (yoe + 99) / 100 + era * 4);
    assert((yoe + era * 400 + 399) / 400 == (yoe + 399) / 400 + era);
}

/// The date that day `doy` of year `yoe` of an era, both counted from
/// March 1st, falls on: the month counted from March, then the calendar
/// month and year.
pub open spec fn march_date(era: nat, yoe: int, doy: int) -> (nat, nat, nat) {
    let mp = (5 * doy + 2) / 153;
    let d = doy - march_days_before(mp) + 1;
    if mp < 10 {
        ((yoe + era * 400) as nat, (mp + 3) as nat, d as nat)
    } else {
        ((yoe + era * 400 + 1) as nat, (mp - 9) as nat, d as nat)
    }
}

/// Day `doy` of year `yoe` of era `era`, counted from March 1st, is a date
/// 60 days (January and the leap February of year 0) after the start of
/// the era's count.
proof fn lemma_march_date(era: nat, yoe: int, doy: int)
    requires
        0 <= yoe <= 399,
        0 <= doy < year_length(yoe + 1),
    ensures
        is_date(march_date(era, yoe, doy).0, march_date(era, yoe, doy).1, march_date(
            era,
            yoe,
            doy,
        ).2),
        day_number(march_date(era, yoe, doy).0, march_date(era, yoe, doy).1, march_date(
            era,
            yoe,
            doy,
        ).2) == 146097 * era + march_year_start(yoe) + doy + 60,
{
    let long = is_leap_year(yoe + 1);
    lemma_month_of_march_year(doy, long);
    let mp = (5 * doy + 2) / 153;
    lemma_leap_shift(yoe, era as int);
    lemma_leap_shift(yoe + 1, era as int);
    assert((yoe + 3) / 4 - (yoe + 99) / 100 + (yoe + 399) / 400 + (if is_leap_year(yoe) {
        1int
    } else {
        0
    }) == yoe / 4 - yoe / 100 + 1);
    if mp < 10 {
        lemma_days_before_era_year(era, yoe as nat);
        lemma_days_before_month(yoe + era * 400, mp + 3);
    } else {
        lemma_days_before_era_year(era, (yoe + 1) as nat);
        assert(yoe + 1 + era * 400 == yoe + era * 400 + 1);
        lemma_days_before_month(yoe + era * 400 + 1, mp - 9);
    }
}

/// The era computation gives the date of the day.
pub proof fn lemma_era_civil(days: nat)
    ensures
        is_date(era_civil(days).0, era_civil(days).1, era_civil(days).2),
        day_number(era_civil(days).0, era_civil(days).1, era_civil(days).2) == days + epoch_day(),
{
    let z = days + 719468;
    let era = z / 146097;
    let doe = z % 146097;
    lemma_year_of_era(doe as int);
    let yoe = (doe - doe / 1460 + doe / 36524 - doe / 146096) / 365;
    let doy = doe - march_year_start(yoe);
    lemma_march_date(era, yoe, doy);
    assert(era_civil(days) == march_date(era, yoe, doy));
    lemma_epoch_day();
}

/// The date of day `days` after 1970-01-01 (before it when negative): the
/// date whose day number is that many days after the epoch's.
pub open spec fn civil_date(days: int) -> (nat, nat, nat) {
    choose|y: nat, m: nat, d: nat| is_date(y, m, d) && day_number(y, m, d) == days + epoch_day()
}

proof fn lemma_days_before_year_grows(a: nat, b: nat)
    requires
        a <= b,
    ensures
        days_before_year(a) <= days_before_year(b),
    decreases b - a,
{
    if a < b {
        lemma_days_before_year_grows(a, (b - 1) as nat);
    }
}

proof fn lemma_days_before_month_grows(y: int, m1: int, m2: int)
    requires
        1 <= m1 < m2,
    ensures
        days_before_month(y, m1) + month_length(y, m1) <= days_before_month(y, m2),
    decreases m2 - m1,
{
    if m2 > m1 + 1 {
        lemma_days_before_month_grows(y, m1, m2 - 1);
    }
}

/// A date's day lies within its year: from the year's first day to the
/// next year's.
proof fn lemma_date_within_year(y: nat, m: nat, d: nat)
    requires
        is_date(y, m, d),
    ensures
        days_before_year(y) <= day_number(y, m, d) < days_before_year(y + 1),
{
    reveal_with_fuel(days_before_month, 14);
    if m < 13 {
        lemma_days_before_month_grows(y as int, m as int, 13);
    }
    assert(days_before_month(y as int, 13) == year_length(y as int));
}

/// Two dates with the same day number are the same date.
pub proof fn lemma_date_unique(y1: nat, m1: nat, d1: nat, y2: nat, m2: nat, d2: nat)
    requires
        is_date(y1, m1, d1),
        is_date(y2, m2, d2),
        day_number(y1, m1, d1) == day_number(y2, m2, d2),
    ensures
        y1 == y2 && m1 == m2 && d1 == d2,
{
    lemma_date_within_year(y1, m1, d1);
    lemma_date_within_year(y2, m2, d2);
    if y1 < y2 {
        lemma_days_before_year_grows(y1 + 1, y2);
    } else if y2 < y1 {
        lemma_days_before_year_grows(y2 + 1, y1);
    } else if m1 < m2 {
        lemma_days_before_month_grows(y1 as int, m1 as int, m2 as int);
    } else if m2 < m1 {
        lemma_days_before_month_grows(y1 as int, m2 as int, m1 as int);
    }
}

/// Every day from the epoch on is exactly one date, the one the era
/// computation gives.
pub proof fn law_civil_date(days: nat)
    ensures
        is_date(civil_date(days as int).0, civil_date(days as int).1, civil_date(days as int).2),
        day_number(civil_date(days as int).0, civil_date(days as int).1, civil_date(days as int).2)
            == days + epoch_day(),
        civil_date(days as int) == era_civil(days),
{
    lemma_era_civil(days);
    let (y, m, d) = era_civil(days);
    assert(is_date(y, m, d) && day_number(y, m, d) == days + epoch_day());
    let (y2, m2, d2) = civil_date(days as int);
    lemma_date_unique(y, m, d, y2, m2, d2);
}

/// A date from the epoch on is the date of its own day count: converting a
/// date to days since the epoch and back gives the date.
pub proof fn law_date_round_trip(y: nat, m: nat, d: nat)
    requires
        is_date(y, m, d),
        day_number(y, m, d) >= epoch_day(),
    ensures
        civil_date(day_number(y, m, d) - epoch_day()) == (y, m, d),
{
    let days = (day_number(y, m, d) - epoch_day()) as nat;
    law_civil_date(days);
    let (y2, m2, d2) = civil_date(days as int);
    lemma_date_unique(y, m, d, y2, m2, d2);
}

/// The Unix epoch is day 719528.
pub proof fn lemma_epoch_day()
    ensures
        epoch_day() == 719528,
{
    lemma_days_before_year(1970);
}

} // verus!
