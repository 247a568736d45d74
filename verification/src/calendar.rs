//! Proleptic-Gregorian calendar dates and signed whole-day differences.
//!
//! A date is modelled by its day number: how many days lie between the
//! earliest representable date and the date itself. The signed difference
//! of two day numbers is the day delta the rest of the crate works with.

use vstd::arithmetic::div_mod::lemma_mod_multiples_vanish;
use vstd::prelude::*;

verus! {

/// True exactly when `y` is a leap year of the proleptic Gregorian calendar.
pub open spec fn is_leap_year(y: int) -> bool {
    (y % 4 == 0 && y % 100 != 0) || y % 400 == 0
}

/// Number of days in month `m` of year `y`, for `1 <= m <= 12`.
pub open spec fn days_in_month(y: int, m: int) -> int {
    if m == 2 {
        if is_leap_year(y) {
            29
        } else {
            28
        }
    } else if m == 4 || m == 6 || m == 9 || m == 11 {
        30
    } else {
        31
    }
}

/// Years outside `MIN_YEAR..=MAX_YEAR` are not representable.
pub const MIN_YEAR: i16 = -9999;

pub const MAX_YEAR: i16 = 9999;

/// A (year, month, day) triple that names an actual calendar date.
pub open spec fn valid_date(y: int, m: int, d: int) -> bool {
    &&& MIN_YEAR as int <= y <= MAX_YEAR as int
    &&& 1 <= m <= 12
    &&& 1 <= d <= days_in_month(y, m)
}

pub open spec fn days_in_year(y: int) -> int {
    if is_leap_year(y) {
        366
    } else {
        365
    }
}

/// Days in all years from `MIN_YEAR` (inclusive) up to `y` (exclusive).
pub open spec fn days_before_year(y: int) -> int
    decreases y - MIN_YEAR,
{
    if y <= MIN_YEAR as int {
        0
    } else {
        days_before_year(y - 1) + days_in_year(y - 1)
    }
}

/// Days in all months of year `y` before month `m`.
pub open spec fn days_before_month(y: int, m: int) -> int
    decreases m,
{
    if m <= 1 {
        0
    } else {
        days_before_month(y, m - 1) + days_in_month(y, m - 1)
    }
}

/// The day number of a date: zero for the first day of `MIN_YEAR`,
/// increasing by one for each following calendar day.
pub open spec fn day_number(y: int, m: int, d: int) -> int {
    days_before_year(y) + days_before_month(y, m) + (d - 1)
}

/// A proleptic-Gregorian civil date: no time of day, no time zone.
#[derive(Clone, Copy, Debug, PartialEq, Eq, Structural)]
pub struct CalendarDate {
    pub year: i16,
    pub month: i8,
    pub day: i8,
}

impl CalendarDate {
    /// The fields name an actual calendar date.
    pub open spec fn valid(self) -> bool {
        valid_date(self.year as int, self.month as int, self.day as int)
    }

    /// The date's day number (see `day_number`).
    pub open spec fn number(self) -> int {
        day_number(self.year as int, self.month as int, self.day as int)
    }

    /// Builds a date after checking that the fields name one.
    pub fn new(year: i16, month: i8, day: i8) -> (r: Option<CalendarDate>)
        ensures
            match r {
                Some(d) => valid_date(year as int, month as int, day as int) && d == (CalendarDate {
                    year,
                    month,
                    day,
                }),
                None => !valid_date(year as int, month as int, day as int),
            },
    {
        if MIN_YEAR <= year && year <= MAX_YEAR && 1 <= month && month <= 12 && 1 <= day
            && day as u8 <= month_length(year, month) {
            Some(CalendarDate { year, month, day })
        } else {
            None
        }
    }

    /// Runtime check for `valid`; callers outside verified code use it
    /// before handing a date to a function that requires validity.
    pub fn is_valid(&self) -> (r: bool)
        ensures
            r == self.valid(),
    {
        MIN_YEAR <= self.year && self.year <= MAX_YEAR && 1 <= self.month && self.month <= 12
            && 1 <= self.day && self.day as u8 <= month_length(self.year, self.month)
    }

    /// Computes the date's day number.
    pub fn epoch_days(&self) -> (r: u32)
        requires
            self.valid(),
        ensures
            r as int == self.number(),
    {
        let years: u32 = year_offset(self.year);
        let months: u16 = month_offset(self.year, self.month);
        proof {
            lemma_days_before_year_bound(self.year as int);
        }
        years + months as u32 + (self.day - 1) as u32
    }
}

/// The signed day delta `to - from`, the quantity this crate computes.
pub open spec fn delta_spec(to: CalendarDate, from: CalendarDate) -> int {
    to.number() - from.number()
}

/// Swapping the two dates flips the sign of the delta.
pub proof fn lemma_delta_antisymmetric(a: CalendarDate, b: CalendarDate)
    ensures
        delta_spec(a, b) == -delta_spec(b, a),
{
}

/// Calendar order on dates: `a` comes strictly before `b`.
pub open spec fn precedes(a: CalendarDate, b: CalendarDate) -> bool {
    ||| a.year < b.year
    ||| (a.year == b.year && a.month < b.month)
    ||| (a.year == b.year && a.month == b.month && a.day < b.day)
}

proof fn lemma_days_before_year_mono(y1: int, y2: int)
    requires
        MIN_YEAR as int <= y1 <= y2,
    ensures
        days_before_year(y1) <= days_before_year(y2),
    decreases y2 - y1,
{
    if y1 < y2 {
        lemma_days_before_year_mono(y1, y2 - 1);
    }
}

proof fn lemma_days_before_month_mono(y: int, m1: int, m2: int)
    requires
        1 <= m1 <= m2,
    ensures
        days_before_month(y, m1) <= days_before_month(y, m2),
    decreases m2 - m1,
{
    if m1 < m2 {
        lemma_days_before_month_mono(y, m1, m2 - 1);
    }
}

proof fn lemma_year_holds_its_months(y: int)
    ensures
        days_before_month(y, 13) == days_in_year(y),
{
    reveal_with_fuel(days_before_month, 13);
}

/// A valid date's day number lies within its year's days.
proof fn lemma_day_within_year(y: int, m: int, d: int)
    requires
        valid_date(y, m, d),
    ensures
        0 <= days_before_month(y, m) + (d - 1) < days_in_year(y),
{
    lemma_days_before_month_bound(y, m);
    lemma_days_before_month_mono(y, m + 1, 13);
    lemma_year_holds_its_months(y);
}

/// Day numbers are strictly monotone in calendar order.
pub proof fn lemma_day_number_strict_mono(a: CalendarDate, b: CalendarDate)
    requires
        a.valid(),
        b.valid(),
        precedes(a, b),
    ensures
        a.number() < b.number(),
{
    lemma_day_within_year(a.year as int, a.month as int, a.day as int);
    lemma_day_within_year(b.year as int, b.month as int, b.day as int);
    if a.year < b.year {
        lemma_days_before_year_mono(a.year as int + 1, b.year as int);
    } else if a.month < b.month {
        lemma_days_before_month_mono(a.year as int, a.month as int + 1, b.month as int);
    }
}

/// The sign of the delta mirrors calendar order: negative exactly when
/// the "to" date precedes the "from" date, zero exactly on the same
/// date, positive exactly when it follows it.
pub proof fn lemma_sign_convention(to: CalendarDate, from: CalendarDate)
    requires
        to.valid(),
        from.valid(),
    ensures
        delta_spec(to, from) < 0 <==> precedes(to, from),
        delta_spec(to, from) == 0 <==> to == from,
        delta_spec(to, from) > 0 <==> precedes(from, to),
{
    if precedes(to, from) {
        lemma_day_number_strict_mono(to, from);
    } else if precedes(from, to) {
        lemma_day_number_strict_mono(from, to);
    }
}

/// The delta of a date with itself is zero.
pub proof fn lemma_delta_self_zero(a: CalendarDate)
    ensures
        delta_spec(a, a) == 0,
{
}

fn leap_year(y: i16) -> (r: bool)
    requires
        MIN_YEAR as int <= y as int,
    ensures
        r == is_leap_year(y as int),
{
    let z: i32 = y as i32 + 10000;
    proof {
        lemma_mod_multiples_vanish(2500, y as int, 4);
        lemma_mod_multiples_vanish(100, y as int, 100);
        lemma_mod_multiples_vanish(25, y as int, 400);
    }
    (z % 4 == 0 && z % 100 != 0) || z % 400 == 0
}

fn month_length(y: i16, m: i8) -> (r: u8)
    requires
        MIN_YEAR as int <= y as int,
        1 <= m as int <= 12,
    ensures
        r as int == days_in_month(y as int, m as int),
{
    if m == 2 {
        if leap_year(y) {
            29
        } else {
            28
        }
    } else if m == 4 || m == 6 || m == 9 || m == 11 {
        30
    } else {
        31
    }
}

fn month_offset(y: i16, m: i8) -> (r: u16)
    requires
        MIN_YEAR as int <= y as int,
        1 <= m as int <= 12,
    ensures
        r as int == days_before_month(y as int, m as int),
{
    let mut acc: u16 = 0;
    let mut i: i8 = 1;
    while i < m
        invariant
            1 <= i as int <= m as int,
            m as int <= 12,
            MIN_YEAR as int <= y as int,
            acc as int == days_before_month(y as int, i as int),
            acc as int <= 31 * (i as int - 1),
        decreases m as int - i as int,
    {
        acc = acc + month_length(y, i) as u16;
        i = i + 1;
    }
    acc
}

proof fn lemma_days_before_year_bound(y: int)
    requires
        MIN_YEAR as int <= y <= MAX_YEAR as int + 1,
    ensures
        0 <= days_before_year(y) <= 366 * (y - MIN_YEAR as int),
    decreases y - MIN_YEAR as int,
{
    if y > MIN_YEAR as int {
        lemma_days_before_year_bound(y - 1);
    }
}

fn year_offset(y: i16) -> (r: u32)
    requires
        MIN_YEAR as int <= y as int <= MAX_YEAR as int,
    ensures
        r as int == days_before_year(y as int),
{
    let mut acc: u32 = 0;
    let mut i: i16 = MIN_YEAR;
    while i < y
        invariant
            MIN_YEAR as int <= i as int <= y as int,
            y as int <= MAX_YEAR as int,
            acc as int == days_before_year(i as int),
            acc as int <= 366 * (i as int - MIN_YEAR as int),
        decreases y as int - i as int,
    {
        acc = acc + if leap_year(i) {
            366
        } else {
            365
        };
        i = i + 1;
    }
    acc
}

/// The day number of any valid date fits comfortably in 23 bits.
pub proof fn lemma_day_number_bounds(y: int, m: int, d: int)
    requires
        valid_date(y, m, d),
    ensures
        0 <= day_number(y, m, d) < 7400000,
{
    lemma_days_before_year_bound(y);
    lemma_days_before_month_bound(y, m);
}

proof fn lemma_days_before_month_bound(y: int, m: int)
    requires
        1 <= m <= 12,
    ensures
        0 <= days_before_month(y, m) <= 31 * (m - 1),
    decreases m,
{
    if m > 1 {
        lemma_days_before_month_bound(y, m - 1);
    }
}

/// Computes the signed day delta `to - from`.
pub fn delta_days(to: &CalendarDate, from: &CalendarDate) -> (r: i32)
    requires
        to.valid(),
        from.valid(),
    ensures
        r as int == delta_spec(*to, *from),
{
    let a: u32 = to.epoch_days();
    let b: u32 = from.epoch_days();
    proof {
        lemma_day_number_bounds(to.year as int, to.month as int, to.day as int);
        lemma_day_number_bounds(from.year as int, from.month as int, from.day as int);
    }
    (a as i64 - b as i64) as i32
}

} // verus!
