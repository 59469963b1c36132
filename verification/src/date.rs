//! Release dates: the calendar parts of a date and their text form.

use chrono::Datelike;
use vstd::prelude::*;
use vstd::string::StringExecFns;

verus! {

/// `chrono::NaiveDate`, a calendar date without a time zone. Opaque here.
#[verifier::external_type_specification]
#[verifier::external_body]
pub struct ExNaiveDate(chrono::NaiveDate);

/// The character of one decimal digit.
pub open spec fn digit_char(d: nat) -> char
    recommends
        d < 10,
{
    if d == 0 {
        '0'
    } else if d == 1 {
        '1'
    } else if d == 2 {
        '2'
    } else if d == 3 {
        '3'
    } else if d == 4 {
        '4'
    } else if d == 5 {
        '5'
    } else if d == 6 {
        '6'
    } else if d == 7 {
        '7'
    } else if d == 8 {
        '8'
    } else {
        '9'
    }
}

/// The decimal digits of `n`, most significant first, without padding.
pub open spec fn decimal(n: nat) -> Seq<char>
    decreases n,
{
    if n < 10 {
        seq![digit_char(n)]
    } else {
        decimal(n / 10).push(digit_char(n % 10))
    }
}

/// `n` in decimal, padded with a zero on the left to at least two digits.
pub open spec fn two_digits(n: nat) -> Seq<char> {
    if n < 10 {
        seq!['0'] + decimal(n)
    } else {
        decimal(n)
    }
}

/// `n` in decimal, padded with zeros on the left to at least four digits.
pub open spec fn four_digits(n: nat) -> Seq<char> {
    if n < 10 {
        seq!['0', '0', '0'] + decimal(n)
    } else if n < 100 {
        seq!['0', '0'] + decimal(n)
    } else if n < 1000 {
        seq!['0'] + decimal(n)
    } else {
        decimal(n)
    }
}

/// The text of a year: four digits from 0 to 9999, padded with zeros; all
/// its digits above 9999; and below 0 a minus sign before the year's
/// distance from 0, written in the same way.
pub open spec fn year_text(year: int) -> Seq<char> {
    if year < 0 {
        seq!['-'] + four_digits((-year) as nat)
    } else {
        four_digits(year as nat)
    }
}

/// The text of a date: the year in four digits, then month and day in two
/// digits each, joined by hyphens.
pub open spec fn date_text(year: int, month: nat, day: nat) -> Seq<char> {
    year_text(year) + seq!['-'] + two_digits(month) + seq!['-'] + two_digits(day)
}

/// `a` stands before `b` where texts are ordered character by character,
/// a text before every text that it begins.
pub open spec fn text_before(a: Seq<char>, b: Seq<char>) -> bool
    decreases a.len(),
{
    if b.len() == 0 {
        false
    } else if a.len() == 0 {
        true
    } else if a[0] != b[0] {
        (a[0] as u32) < (b[0] as u32)
    } else {
        text_before(a.drop_first(), b.drop_first())
    }
}

/// One date stands before another in the calendar.
pub open spec fn date_before(y1: int, m1: nat, d1: nat, y2: int, m2: nat, d2: nat) -> bool {
    y1 < y2 || (y1 == y2 && (m1 < m2 || (m1 == m2 && d1 < d2)))
}

/// The year of a date, as `Datelike::year` returns it.
pub uninterp spec fn date_year(date: chrono::NaiveDate) -> int;

/// The month of a date, as `Datelike::month` returns it.
pub uninterp spec fn date_month(date: chrono::NaiveDate) -> nat;

/// The day of the month of a date, as `Datelike::day` returns it.
pub uninterp spec fn date_day(date: chrono::NaiveDate) -> nat;

fn digit_text(d: u32) -> (text: &'static str)
    requires
        d < 10,
    ensures
        text@ == seq![digit_char(d as nat)],
{
    proof {
        reveal_strlit("0");
        reveal_strlit("1");
        reveal_strlit("2");
        reveal_strlit("3");
        reveal_strlit("4");
        reveal_strlit("5");
        reveal_strlit("6");
        reveal_strlit("7");
        reveal_strlit("8");
        reveal_strlit("9");
    }
    let text = if d == 0 {
        "0"
    } else if d == 1 {
        "1"
    } else if d == 2 {
        "2"
    } else if d == 3 {
        "3"
    } else if d == 4 {
        "4"
    } else if d == 5 {
        "5"
    } else if d == 6 {
        "6"
    } else if d == 7 {
        "7"
    } else if d == 8 {
        "8"
    } else {
        "9"
    };
    assert(text@ =~= seq![digit_char(d as nat)]);
    text
}

fn push_decimal(out: &mut String, n: u32)
    ensures
        final(out)@ == old(out)@ + decimal(n as nat),
    decreases n,
{
    if n >= 10 {
        push_decimal(out, n / 10);
    }
    out.append(digit_text(n % 10));
    proof {
        assert(final(out)@ =~= old(out)@ + decimal(n as nat));
    }
}

fn push_two_digits(out: &mut String, n: u32)
    ensures
        final(out)@ == old(out)@ + two_digits(n as nat),
{
    if n < 10 {
        out.append(digit_text(0));
    }
    push_decimal(out, n);
    proof {
        assert(final(out)@ =~= old(out)@ + two_digits(n as nat));
    }
}

fn push_four_digits(out: &mut String, n: u32)
    ensures
        final(out)@ == old(out)@ + four_digits(n as nat),
{
    if n < 1000 {
        out.append(digit_text(0));
    }
    if n < 100 {
        out.append(digit_text(0));
    }
    if n < 10 {
        out.append(digit_text(0));
    }
    push_decimal(out, n);
    proof {
        assert(final(out)@ =~= old(out)@ + four_digits(n as nat));
    }
}

/// Writes a date as text.
pub fn format_date(year: i32, month: u32, day: u32) -> (text: String)
    ensures
        text@ == date_text(year as int, month as nat, day as nat),
{
    proof {
        reveal_strlit("-");
    }
    let mut out = String::new();
    if year < 0 {
        out.append("-");
        let magnitude: u32 = (-(year as i64)) as u32;
        push_four_digits(&mut out, magnitude);
    } else {
        push_four_digits(&mut out, year as u32);
    }
    out.append("-");
    push_two_digits(&mut out, month);
    out.append("-");
    push_two_digits(&mut out, day);
    proof {
        assert(out@ =~= date_text(year as int, month as nat, day as nat));
    }
    out
}

/// `Datelike::year` on a `NaiveDate`: the year of the calendar date.
#[verifier::external_body]
pub(crate) fn year_of(date: &chrono::NaiveDate) -> (year: i32)
    ensures
        year as int == date_year(*date),
{
    date.year()
}

/// `Datelike::month` on a `NaiveDate`: the month, counted from 1 to 12.
#[verifier::external_body]
pub(crate) fn month_of(date: &chrono::NaiveDate) -> (month: u32)
    ensures
        month as nat == date_month(*date),
        1 <= month <= 12,
{
    date.month()
}

/// `Datelike::day` on a `NaiveDate`: the day of the month, counted from 1 to 31.
#[verifier::external_body]
pub(crate) fn day_of(date: &chrono::NaiveDate) -> (day: u32)
    ensures
        day as nat == date_day(*date),
        1 <= day <= 31,
{
    date.day()
}

} // verus!
