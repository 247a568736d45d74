//! Date resolution and the one output line: parse the "to" text, parse
//! the "from" text or substitute today's date, subtract, and render
//! either the bare signed day count or the verbose sentence.

use crate::calendar::{day_number, delta_days, valid_date, CalendarDate};
use crate::pattern::{strftime_of, strptime_of, DateFormat, DateParseError, UnparsedDate};
use crate::render::{delta_string, signed_decimal, verbose_message, verbose_message_spec};
use vstd::prelude::*;

verus! {

/// The text of an optional "from" argument.
pub open spec fn opt_text(date_from: Option<&UnparsedDate>) -> Option<Seq<char>> {
    match date_from {
        Some(t) => Some(t@),
        None => None,
    }
}

/// The (year, month, day) the "from" side resolves to: the parse of its
/// text when one was supplied, else `today` with no parsing involved.
pub open spec fn resolved_from(
    pattern: Seq<char>,
    from_text: Option<Seq<char>>,
    today: CalendarDate,
) -> Option<(int, int, int)> {
    match from_text {
        Some(t) => strptime_of(pattern, t),
        None => Some((today.year as int, today.month as int, today.day as int)),
    }
}

/// Omitting the "from" argument always resolves it to `today`.
pub proof fn lemma_default_from(pattern: Seq<char>, today: CalendarDate)
    ensures
        resolved_from(pattern, None, today) == Some(
            (today.year as int, today.month as int, today.day as int),
        ),
{
}

/// Turns the "to" and optional "from" arguments into two calendar
/// dates. Fails on the first text that does not parse, and names it.
pub fn resolve_dates(
    fmt: &DateFormat,
    date_to: &UnparsedDate,
    date_from: Option<&UnparsedDate>,
    today: CalendarDate,
) -> (r: Result<(CalendarDate, CalendarDate), DateParseError>)
    requires
        today.valid(),
    ensures
        match r {
            Ok(p) => {
                &&& p.0.valid()
                &&& p.1.valid()
                &&& strptime_of(fmt@, date_to@) == Some(
                    (p.0.year as int, p.0.month as int, p.0.day as int),
                )
                &&& resolved_from(fmt@, opt_text(date_from), today) == Some(
                    (p.1.year as int, p.1.month as int, p.1.day as int),
                )
            },
            Err(e) => {
                &&& e.pattern@ == fmt@
                &&& if strptime_of(fmt@, date_to@) is None {
                    e.text@ == date_to@
                } else {
                    &&& date_from is Some
                    &&& e.text@ == date_from->Some_0@
                    &&& strptime_of(fmt@, date_from->Some_0@) is None
                }
            },
        },
        r is Ok <==> strptime_of(fmt@, date_to@) is Some && resolved_from(
            fmt@,
            opt_text(date_from),
            today,
        ) is Some,
{
    let to = match fmt.parse(date_to) {
        Ok(d) => d,
        Err(e) => {
            return Err(e);
        },
    };
    let from = match date_from {
        Some(t) => match fmt.parse(t) {
            Ok(d) => d,
            Err(e) => {
                return Err(e);
            },
        },
        None => today,
    };
    Ok((to, from))
}

/// The line the program prints when both dates resolve to `to` and
/// `from`: the verbose sentence over the pattern-rendered dates, or the
/// bare signed day count.
pub open spec fn line_for(
    pattern: Seq<char>,
    to: (int, int, int),
    from: (int, int, int),
    verbose: bool,
) -> Seq<char> {
    let delta = day_number(to.0, to.1, to.2) - day_number(from.0, from.1, from.2);
    if verbose {
        verbose_message_spec(
            delta,
            strftime_of(pattern, to.0, to.1, to.2),
            strftime_of(pattern, from.0, from.1, from.2),
        )
    } else {
        signed_decimal(delta)
    }
}

/// The whole run as a value: `Some` of the printed line when both dates
/// resolve, `None` when some date text fails to parse.
pub open spec fn run_spec(
    pattern: Seq<char>,
    to_text: Seq<char>,
    from_text: Option<Seq<char>>,
    today: CalendarDate,
    verbose: bool,
) -> Option<Seq<char>> {
    match strptime_of(pattern, to_text) {
        None => None,
        Some(to) => match resolved_from(pattern, from_text, today) {
            None => None,
            Some(from) => Some(line_for(pattern, to, from, verbose)),
        },
    }
}

/// Resolves both dates and produces the single output line, or the
/// error naming the first date text that failed to parse and the
/// pattern it was parsed with.
pub fn run(
    fmt: &DateFormat,
    date_to: &UnparsedDate,
    date_from: Option<&UnparsedDate>,
    today: CalendarDate,
    verbose: bool,
) -> (r: Result<String, DateParseError>)
    requires
        today.valid(),
    ensures
        match r {
            Ok(line) => run_spec(fmt@, date_to@, opt_text(date_from), today, verbose) == Some(
                line@,
            ),
            Err(e) => {
                &&& run_spec(fmt@, date_to@, opt_text(date_from), today, verbose) is None
                &&& e.pattern@ == fmt@
                &&& if strptime_of(fmt@, date_to@) is None {
                    e.text@ == date_to@
                } else {
                    &&& date_from is Some
                    &&& e.text@ == date_from->Some_0@
                    &&& strptime_of(fmt@, date_from->Some_0@) is None
                }
            },
        },
        r is Ok <==> run_spec(fmt@, date_to@, opt_text(date_from), today, verbose) is Some,
{
    let (to, from) = match resolve_dates(fmt, date_to, date_from, today) {
        Ok(p) => p,
        Err(e) => {
            return Err(e);
        },
    };
    let delta: i32 = delta_days(&to, &from);
    if verbose {
        let dt = fmt.format(&to);
        let df = fmt.format(&from);
        Ok(verbose_message(delta, dt.as_str(), df.as_str()))
    } else {
        Ok(delta_string(delta))
    }
}

/// Relies on `jiff::Zoned::now` (panics only when the system clock is
/// outside jiff's supported range) and `jiff::civil::Date::from(Zoned)`:
/// the current local calendar date, always a valid proleptic-Gregorian
/// date with year in `-9999..=9999`.
#[verifier::external_body]
fn now_ymd() -> (r: (i16, i8, i8))
    ensures
        valid_date(r.0 as int, r.1 as int, r.2 as int),
{
    let d = jiff::civil::Date::from(jiff::Zoned::now());
    (d.year(), d.month(), d.day())
}

/// Reads the process clock once and returns the current local calendar
/// date. Nothing more is promised of the value: every caller works for
/// whatever date comes back.
pub fn current_date() -> (r: CalendarDate)
    ensures
        r.valid(),
{
    let t = now_ymd();
    CalendarDate { year: t.0, month: t.1, day: t.2 }
}

} // verus!
