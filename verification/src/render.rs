//! Rendering of the day delta: a bare signed decimal, or the verbose
//! sentence chosen by the delta's sign and magnitude.

use vstd::prelude::*;
use vstd::string::StringExecFns;

verus! {

/// The decimal digit character for `d` in `0..=9`.
pub open spec fn digit_char(d: int) -> char {
    if d == 0 {
        '0'
    } else if d == 1 {
        '1'
    } else if d == 2 {
        '2'
    } else if d == 3 {
        '3'
    } else if d == 4 {
        '4'
    } else if d == 5 {
        '5'
    } else if d == 6 {
        '6'
    } else if d == 7 {
        '7'
    } else if d == 8 {
        '8'
    } else {
        '9'
    }
}

/// The decimal digits of `n`, most significant first, no leading zeros
/// (a single `'0'` for zero).
pub open spec fn dec_digits(n: nat) -> Seq<char>
    decreases n,
{
    if n < 10 {
        seq![digit_char(n as int)]
    } else {
        dec_digits(n / 10) + seq![digit_char((n % 10) as int)]
    }
}

/// `n` in decimal, with a leading `'-'` exactly when `n` is negative.
pub open spec fn signed_decimal(n: int) -> Seq<char> {
    if n < 0 {
        seq!['-'] + dec_digits((-n) as nat)
    } else {
        dec_digits(n as nat)
    }
}

fn digit_str(d: u32) -> (r: &'static str)
    requires
        d < 10,
    ensures
        r@ == seq![digit_char(d as int)],
{
    let r: &'static str = match d {
        0 => "0",
        1 => "1",
        2 => "2",
        3 => "3",
        4 => "4",
        5 => "5",
        6 => "6",
        7 => "7",
        8 => "8",
        _ => "9",
    };
    proof {
        reveal_strlit("0");
        reveal_strlit("1");
        reveal_strlit("2");
        reveal_strlit("3");
        reveal_strlit("4");
        reveal_strlit("5");
        reveal_strlit("6");
        reveal_strlit("7");
        reveal_strlit("8");
        reveal_strlit("9");
        assert(r@ =~= seq![digit_char(d as int)]);
    }
    r
}

/// Renders `n` as its decimal digits.
pub fn decimal_string(n: u32) -> (r: String)
    ensures
        r@ == dec_digits(n as nat),
    decreases n,
{
    if n < 10 {
        String::from_str(digit_str(n))
    } else {
        let mut s = decimal_string(n / 10);
        s.append(digit_str(n % 10));
        s
    }
}

/// Renders `delta` as a signed decimal: a leading `-` for negative
/// values, no sign otherwise.
pub fn delta_string(delta: i32) -> (r: String)
    ensures
        r@ == signed_decimal(delta as int),
{
    if delta >= 0 {
        decimal_string(delta as u32)
    } else {
        let mag: u32 = (-(delta as i64)) as u32;
        let mut s = String::from_str("-");
        s.append(decimal_string(mag).as_str());
        proof {
            reveal_strlit("-");
            assert(s@ =~= signed_decimal(delta as int));
        }
        s
    }
}

/// The sentence used when the two dates are the same calendar day.
pub open spec fn same_day_message(df: Seq<char>) -> Seq<char> {
    "Both dates are the same ("@ + df + ")."@
}

/// Singular for magnitude one, plural for every other magnitude.
pub open spec fn day_word(mag: int) -> Seq<char> {
    if mag == 1 {
        " day "@
    } else {
        " days "@
    }
}

pub open spec fn direction_word(delta: int) -> Seq<char> {
    if delta < 0 {
        "before "@
    } else {
        "after "@
    }
}

pub open spec fn abs_delta(delta: int) -> int {
    if delta < 0 {
        -delta
    } else {
        delta
    }
}

/// The sentence used when the dates differ: "{to} is {n} day(s)
/// before/after {from}."
pub open spec fn before_after_message(delta: int, dt: Seq<char>, df: Seq<char>) -> Seq<char> {
    dt + " is "@ + dec_digits(abs_delta(delta) as nat) + day_word(abs_delta(delta))
        + direction_word(delta) + df + "."@
}

/// The verbose line for delta `delta` between the rendered dates `dt`
/// ("to") and `df` ("from").
pub open spec fn verbose_message_spec(delta: int, dt: Seq<char>, df: Seq<char>) -> Seq<char> {
    if delta == 0 {
        same_day_message(df)
    } else {
        before_after_message(delta, dt, df)
    }
}

/// A zero delta always yields the "same date" sentence and never the
/// before/after form; every other delta yields the before/after form.
pub proof fn lemma_zero_uses_same_form(dt: Seq<char>, df: Seq<char>)
    ensures
        verbose_message_spec(0, dt, df) == same_day_message(df),
        forall|delta: int|
            delta != 0 ==> verbose_message_spec(delta, dt, df) == before_after_message(
                delta,
                dt,
                df,
            ),
{
}

/// The before/after sentence pluralizes "day" exactly when the
/// magnitude of the delta is not one.
pub proof fn lemma_pluralization_boundary(delta: int, dt: Seq<char>, df: Seq<char>)
    requires
        delta != 0,
    ensures
        abs_delta(delta) == 1 ==> before_after_message(delta, dt, df) == dt + " is "@ + dec_digits(
            1,
        ) + " day "@ + direction_word(delta) + df + "."@,
        abs_delta(delta) != 1 ==> before_after_message(delta, dt, df) == dt + " is "@ + dec_digits(
            abs_delta(delta) as nat,
        ) + " days "@ + direction_word(delta) + df + "."@,
{
}

/// Builds the verbose line for `delta` between the rendered dates `dt`
/// and `df`.
pub fn verbose_message(delta: i32, dt: &str, df: &str) -> (r: String)
    ensures
        r@ == verbose_message_spec(delta as int, dt@, df@),
{
    if delta == 0 {
        let mut s = String::from_str("Both dates are the same (");
        s.append(df);
        s.append(").");
        s
    } else {
        let mag: u32 = if delta < 0 {
            (-(delta as i64)) as u32
        } else {
            delta as u32
        };
        let mut s = String::from_str(dt);
        s.append(" is ");
        s.append(decimal_string(mag).as_str());
        if mag == 1 {
            s.append(" day ");
        } else {
            s.append(" days ");
        }
        if delta < 0 {
            s.append("before ");
        } else {
            s.append("after ");
        }
        s.append(df);
        s.append(".");
        proof {
            assert(s@ =~= verbose_message_spec(delta as int, dt@, df@));
        }
        s
    }
}

} // verus!
