//! The strptime/strftime pattern: one format string used both to parse
//! date text into a `CalendarDate` and to render a `CalendarDate` back
//! to text. Parsing and rendering themselves are jiff's; their results
//! are named by uninterpreted spec functions.

use crate::calendar::{valid_date, CalendarDate};
use vstd::prelude::*;
use vstd::string::StringExecFns;

verus! {

/// What `jiff::civil::Date::strptime` returns for a pattern and an
/// input text: the parsed (year, month, day), or `None` when the text
/// does not match the pattern or names no actual calendar date.
pub uninterp spec fn strptime_of(pattern: Seq<char>, text: Seq<char>) -> Option<(int, int, int)>;

/// What `jiff::civil::Date::strftime` renders for a pattern and a
/// date. Rendering is lenient and total: every pattern produces some
/// text.
pub uninterp spec fn strftime_of(pattern: Seq<char>, y: int, m: int, d: int) -> Seq<char>;

/// Relies on `jiff::civil::Date::strptime(format, input)`: it parses
/// `text` against the strptime-style `pattern` and errs when the text
/// does not match or names no real date; a returned `jiff::civil::Date`
/// always holds a valid proleptic-Gregorian date, its `year()` in
/// `-9999..=9999`, `month()` in `1..=12` and `day()` valid for the
/// month.
#[verifier::external_body]
fn strptime_ymd(pattern: &str, text: &str) -> (r: Option<(i16, i8, i8)>)
    ensures
        match r {
            Some(t) => strptime_of(pattern@, text@) == Some(
                (t.0 as int, t.1 as int, t.2 as int),
            ) && valid_date(t.0 as int, t.1 as int, t.2 as int),
            None => strptime_of(pattern@, text@) is None,
        },
{
    match jiff::civil::Date::strptime(pattern, text) {
        Ok(d) => Some((d.year(), d.month(), d.day())),
        Err(_) => None,
    }
}

/// Relies on `jiff::civil::Date::strftime`, which documents that it
/// never errs or panics (lenient mode), and on `jiff::civil::Date::new`,
/// which returns `Ok` for every valid date.
#[verifier::external_body]
fn strftime_ymd(pattern: &str, y: i16, m: i8, d: i8) -> (r: String)
    requires
        valid_date(y as int, m as int, d as int),
    ensures
        r@ == strftime_of(pattern@, y as int, m as int, d as int),
{
    match jiff::civil::Date::new(y, m, d) {
        Ok(date) => date.strftime(pattern).to_string(),
        Err(_) => String::new(),
    }
}

/// A failed parse: the text that did not parse and the pattern it was
/// parsed with.
#[derive(Clone, Debug)]
pub struct DateParseError {
    pub text: String,
    pub pattern: String,
}

/// The one-line description of a failed parse, naming text and pattern.
pub open spec fn parse_error_message(text: Seq<char>, pattern: Seq<char>) -> Seq<char> {
    "could not parse date \""@ + text + "\" with pattern \""@ + pattern + "\""@
}

impl DateParseError {
    /// Renders the error for the user, naming the offending text and
    /// the pattern that was used.
    pub fn message(&self) -> (r: String)
        ensures
            r@ == parse_error_message(self.text@, self.pattern@),
    {
        let mut s = String::from_str("could not parse date \"");
        s.append(self.text.as_str());
        s.append("\" with pattern \"");
        s.append(self.pattern.as_str());
        s.append("\"");
        s
    }
}

/// A strptime/strftime-style format string, used in both directions.
#[derive(Clone, Debug)]
pub struct DateFormat(pub String);

impl View for DateFormat {
    type V = Seq<char>;

    open spec fn view(&self) -> Seq<char> {
        self.0@
    }
}

impl From<String> for DateFormat {
    fn from(value: String) -> (r: Self) {
        DateFormat(value)
    }
}

impl vstd::std_specs::convert::FromSpecImpl<String> for DateFormat {
    open spec fn obeys_from_spec() -> bool {
        true
    }

    open spec fn from_spec(t: String) -> Self {
        DateFormat(t)
    }
}

/// Raw user input that has not yet been interpreted as a date.
#[derive(Clone, Debug)]
pub struct UnparsedDate(pub String);

impl View for UnparsedDate {
    type V = Seq<char>;

    open spec fn view(&self) -> Seq<char> {
        self.0@
    }
}

impl From<String> for UnparsedDate {
    fn from(value: String) -> (r: Self) {
        UnparsedDate(value)
    }
}

impl vstd::std_specs::convert::FromSpecImpl<String> for UnparsedDate {
    open spec fn obeys_from_spec() -> bool {
        true
    }

    open spec fn from_spec(t: String) -> Self {
        UnparsedDate(t)
    }
}

impl DateFormat {
    /// Parses `date` against the pattern. Returns the parsed calendar
    /// date exactly when jiff's strptime accepts the text, and an error
    /// naming the text and the pattern otherwise.
    pub fn parse(&self, date: &UnparsedDate) -> (r: Result<CalendarDate, DateParseError>)
        ensures
            match r {
                Ok(d) => {
                    &&& d.valid()
                    &&& strptime_of(self@, date@) == Some(
                        (d.year as int, d.month as int, d.day as int),
                    )
                },
                Err(e) => {
                    &&& strptime_of(self@, date@) is None
                    &&& e.text@ == date@
                    &&& e.pattern@ == self@
                },
            },
    {
        match strptime_ymd(self.0.as_str(), date.0.as_str()) {
            Some(t) => Ok(CalendarDate { year: t.0, month: t.1, day: t.2 }),
            None => Err(DateParseError { text: date.0.clone(), pattern: self.0.clone() }),
        }
    }

    /// Renders `date` with the pattern; total for every valid date.
    pub fn format(&self, date: &CalendarDate) -> (r: String)
        requires
            date.valid(),
        ensures
            r@ == strftime_of(self@, date.year as int, date.month as int, date.day as int),
    {
        strftime_ymd(self.0.as_str(), date.year, date.month, date.day)
    }
}

} // verus!
