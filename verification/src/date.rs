use vstd::arithmetic::div_mod::{
    lemma_fundamental_div_mod, lemma_fundamental_div_mod_converse_div,
    lemma_fundamental_div_mod_converse_mod, lemma_mod_division_less_than_divisor,
    lemma_mod_multiples_vanish, lemma_small_mod,
};
use vstd::prelude::*;

verus! {

/// A proleptic Gregorian calendar date, held as plain year/month/day values.
///
/// Only dates whose year fits the four-digit day-key format are considered
/// valid, which is exactly the range the persisted analytics keys can name.
#[derive(Clone, Copy, PartialEq, Eq, Structural, Debug)]
pub struct Date {
    pub year: i32,
    pub month: u8,
    pub day: u8,
}

pub open spec fn is_leap_year(y: int) -> bool {
    (y % 4 == 0 && y % 100 != 0) || y % 400 == 0
}

pub open spec fn spec_days_in_month(y: int, m: int) -> int {
    if m == 2 {
        if is_leap_year(y) {
            29
        } else {
            28
        }
    } else if m == 4 || m == 6 || m == 9 || m == 11 {
        30
    } else {
        31
    }
}

pub open spec fn date_valid(d: Date) -> bool {
    &&& 0 <= d.year <= 9999
    &&& 1 <= d.month <= 12
    &&& 1 <= d.day <= spec_days_in_month(d.year as int, d.month as int)
}

/// How many leap years lie in `[0, y)`.
pub open spec fn leap_days_before(y: int) -> int
    decreases y,
{
    if y <= 0 {
        0
    } else {
        leap_days_before(y - 1) + if is_leap_year(y - 1) {
            1int
        } else {
            0int
        }
    }
}

/// How many days of year `y` lie before the first of month `m`.
pub open spec fn days_before_month(y: int, m: int) -> int
    decreases m,
{
    if m <= 1 {
        0
    } else {
        days_before_month(y, m - 1) + spec_days_in_month(y, m - 1)
    }
}

/// Days elapsed from 0000-01-01 to `d`; the canonical linear order on dates.
pub open spec fn day_number(d: Date) -> int {
    365 * d.year + leap_days_before(d.year as int) + days_before_month(
        d.year as int,
        d.month as int,
    ) + d.day - 1
}

proof fn lemma_leap_days_before_bounds(y: int)
    requires
        0 <= y,
    ensures
        0 <= leap_days_before(y) <= y,
    decreases y,
{
    if y > 0 {
        lemma_leap_days_before_bounds(y - 1);
    }
}

proof fn lemma_days_before_month_bounds(y: int, m: int)
    requires
        1 <= m <= 13,
    ensures
        0 <= days_before_month(y, m) <= 31 * (m - 1),
    decreases m,
{
    if m > 1 {
        lemma_days_before_month_bounds(y, m - 1);
    }
}

pub proof fn lemma_day_number_bounds(d: Date)
    requires
        date_valid(d),
    ensures
        0 <= day_number(d) < 3700000,
{
    lemma_leap_days_before_bounds(d.year as int);
    lemma_days_before_month_bounds(d.year as int, d.month as int);
}

pub fn is_leap(y: i32) -> (r: bool)
    requires
        0 <= y,
    ensures
        r == is_leap_year(y as int),
{
    (y % 4 == 0 && y % 100 != 0) || y % 400 == 0
}

pub fn days_in_month(y: i32, m: u8) -> (r: u8)
    requires
        0 <= y,
        1 <= m <= 12,
    ensures
        r == spec_days_in_month(y as int, m as int),
{
    if m == 2 {
        if is_leap(y) {
            29
        } else {
            28
        }
    } else if m == 4 || m == 6 || m == 9 || m == 11 {
        30
    } else {
        31
    }
}

/// Whether a date is valid, decided at run time.
pub fn is_valid_date(d: Date) -> (r: bool)
    ensures
        r == date_valid(d),
{
    0 <= d.year && d.year <= 9999 && 1 <= d.month && d.month <= 12 && 1 <= d.day && d.day
        <= days_in_month(d.year, d.month)
}

/// Computes the day number of a valid date.
pub fn day_number_of(d: Date) -> (n: i64)
    requires
        date_valid(d),
    ensures
        n == day_number(d),
        0 <= n < 3700000,
{
    let mut leaps: i64 = 0;
    let mut y: i32 = 0;
    while y < d.year
        invariant
            0 <= y <= d.year,
            d.year <= 9999,
            leaps == leap_days_before(y as int),
            0 <= leaps <= y,
        decreases d.year - y,
    {
        if is_leap(y) {
            leaps = leaps + 1;
        }
        y = y + 1;
    }
    let mut before: i64 = 0;
    let mut m: u8 = 1;
    while m < d.month
        invariant
            1 <= m <= d.month,
            date_valid(d),
            before == days_before_month(d.year as int, m as int),
            0 <= before <= 372,
        decreases d.month - m,
    {
        proof {
            lemma_days_before_month_bounds(d.year as int, m as int + 1);
        }
        before = before + days_in_month(d.year, m) as i64;
        m = m + 1;
    }
    proof {
        lemma_day_number_bounds(d);
    }
    365 * (d.year as i64) + leaps + before + (d.day as i64) - 1
}

/// The date one day earlier, as a specification value.
pub open spec fn spec_prev_day(d: Date) -> Date {
    if d.day > 1 {
        (Date { year: d.year, month: d.month, day: (d.day - 1) as u8 })
    } else if d.month > 1 {
        (Date {
            year: d.year,
            month: (d.month - 1) as u8,
            day: spec_days_in_month(d.year as int, d.month as int - 1) as u8,
        })
    } else {
        (Date { year: (d.year - 1) as i32, month: 12, day: 31 })
    }
}

proof fn lemma_days_before_december(y: int)
    ensures
        days_before_month(y, 12) == 334 + if is_leap_year(y) {
            1int
        } else {
            0int
        },
{
    reveal_with_fuel(days_before_month, 13);
}

pub proof fn lemma_prev_day(d: Date)
    requires
        date_valid(d),
        day_number(d) >= 1,
    ensures
        date_valid(spec_prev_day(d)),
        day_number(spec_prev_day(d)) == day_number(d) - 1,
{
    if d.day > 1 {
    } else if d.month > 1 {
    } else {
        if d.year == 0 {
            assert(day_number(d) == 0);
        }
        assert(d.year >= 1);
        lemma_days_before_december(d.year as int - 1);
        assert(leap_days_before(d.year as int) == leap_days_before(d.year as int - 1)
            + if is_leap_year(d.year as int - 1) {
            1int
        } else {
            0int
        });
    }
}

/// The date one day before `d`.
pub fn prev_day(d: Date) -> (r: Date)
    requires
        date_valid(d),
        day_number(d) >= 1,
    ensures
        r == spec_prev_day(d),
        date_valid(r),
        day_number(r) == day_number(d) - 1,
{
    proof {
        lemma_prev_day(d);
    }
    if d.day > 1 {
        Date { year: d.year, month: d.month, day: d.day - 1 }
    } else if d.month > 1 {
        Date { year: d.year, month: d.month - 1, day: days_in_month(d.year, d.month - 1) }
    } else {
        Date { year: d.year - 1, month: 12, day: 31 }
    }
}

/// The date `k` days before `d`, as a specification value.
pub open spec fn spec_minus_days(d: Date, k: nat) -> Date
    decreases k,
{
    if k == 0 {
        d
    } else {
        spec_prev_day(spec_minus_days(d, (k - 1) as nat))
    }
}

pub open spec fn digit_char(v: int) -> char {
    if v == 0 {
        '0'
    } else if v == 1 {
        '1'
    } else if v == 2 {
        '2'
    } else if v == 3 {
        '3'
    } else if v == 4 {
        '4'
    } else if v == 5 {
        '5'
    } else if v == 6 {
        '6'
    } else if v == 7 {
        '7'
    } else if v == 8 {
        '8'
    } else {
        '9'
    }
}

pub open spec fn is_digit(c: char) -> bool {
    48 <= c as int <= 57
}

pub open spec fn digit_val(c: char) -> int {
    c as int - 48
}

/// The canonical ten-character `YYYY-MM-DD` key of a date.
pub open spec fn day_key_seq(d: Date) -> Seq<char> {
    seq![
        digit_char(d.year as int / 1000 % 10),
        digit_char(d.year as int / 100 % 10),
        digit_char(d.year as int / 10 % 10),
        digit_char(d.year as int % 10),
        '-',
        digit_char(d.month as int / 10),
        digit_char(d.month as int % 10),
        '-',
        digit_char(d.day as int / 10),
        digit_char(d.day as int % 10),
    ]
}

/// What a day-key string denotes: a valid date for a strict `YYYY-MM-DD`
/// string, and nothing for anything else.
pub open spec fn parse_day_key_spec(s: Seq<char>) -> Option<Date> {
    if s.len() == 10 && is_digit(s[0]) && is_digit(s[1]) && is_digit(s[2]) && is_digit(s[3]) && s[4]
        == '-' && is_digit(s[5]) && is_digit(s[6]) && s[7] == '-' && is_digit(s[8]) && is_digit(
        s[9],
    ) {
        let y = 1000 * digit_val(s[0]) + 100 * digit_val(s[1]) + 10 * digit_val(s[2]) + digit_val(
            s[3],
        );
        let m = 10 * digit_val(s[5]) + digit_val(s[6]);
        let day = 10 * digit_val(s[8]) + digit_val(s[9]);
        if 1 <= m <= 12 && 1 <= day <= spec_days_in_month(y, m) {
            Some(Date { year: y as i32, month: m as u8, day: day as u8 })
        } else {
            None
        }
    } else {
        None
    }
}

fn digit_str(v: u8) -> (r: &'static str)
    requires
        v <= 9,
    ensures
        r@ =~= seq![digit_char(v as int)],
{
    proof {
        reveal_strlit("0");
        reveal_strlit("1");
        reveal_strlit("2");
        reveal_strlit("3");
        reveal_strlit("4");
        reveal_strlit("5");
        reveal_strlit("6");
        reveal_strlit("7");
        reveal_strlit("8");
        reveal_strlit("9");
    }
    match v {
        0 => "0",
        1 => "1",
        2 => "2",
        3 => "3",
        4 => "4",
        5 => "5",
        6 => "6",
        7 => "7",
        8 => "8",
        _ => "9",
    }
}

/// Formats a date as its `YYYY-MM-DD` day key.
pub fn day_key(date: Date) -> (r: String)
    requires
        date_valid(date),
    ensures
        r@ == day_key_seq(date),
{
    proof {
        reveal_strlit("-");
    }
    let y = date.year;
    let mut s = String::new();
    s.append(digit_str((y / 1000) as u8));
    s.append(digit_str((y / 100 % 10) as u8));
    s.append(digit_str((y / 10 % 10) as u8));
    s.append(digit_str((y % 10) as u8));
    s.append("-");
    s.append(digit_str(date.month / 10));
    s.append(digit_str(date.month % 10));
    s.append("-");
    s.append(digit_str(date.day / 10));
    s.append(digit_str(date.day % 10));
    proof {
        assert(s@ =~= day_key_seq(date));
    }
    s
}

fn char_digit(c: char) -> (r: Option<u8>)
    ensures
        r is Some <==> is_digit(c),
        r is Some ==> r->0 == digit_val(c) && r->0 <= 9,
{
    let v = c as u32;
    if 48 <= v && v <= 57 {
        Some((v - 48) as u8)
    } else {
        None
    }
}

/// Parses a strict `YYYY-MM-DD` day key; anything else yields nothing.
pub fn parse_day_key(value: &str) -> (r: Option<Date>)
    ensures
        r == parse_day_key_spec(value@),
        r is Some ==> date_valid(r->0),
{
    if value.unicode_len() != 10 {
        return None;
    }
    let d0 = char_digit(value.get_char(0));
    let d1 = char_digit(value.get_char(1));
    let d2 = char_digit(value.get_char(2));
    let d3 = char_digit(value.get_char(3));
    let h4 = value.get_char(4);
    let d5 = char_digit(value.get_char(5));
    let d6 = char_digit(value.get_char(6));
    let h7 = value.get_char(7);
    let d8 = char_digit(value.get_char(8));
    let d9 = char_digit(value.get_char(9));
    match (d0, d1, d2, d3, d5, d6, d8, d9) {
        (
            Some(v0),
            Some(v1),
            Some(v2),
            Some(v3),
            Some(v5),
            Some(v6),
            Some(v8),
            Some(v9),
        ) => {
            if h4 != '-' || h7 != '-' {
                return None;
            }
            let y: i32 = 1000 * (v0 as i32) + 100 * (v1 as i32) + 10 * (v2 as i32) + (v3 as i32);
            let m: u8 = 10 * v5 + v6;
            let day: u8 = 10 * v8 + v9;
            if 1 <= m && m <= 12 && 1 <= day && day <= days_in_month(y, m) {
                Some(Date { year: y, month: m, day })
            } else {
                None
            }
        },
        _ => None,
    }
}

proof fn lemma_four_digits(y: int)
    requires
        0 <= y <= 9999,
    ensures
        1000 * (y / 1000 % 10) + 100 * (y / 100 % 10) + 10 * (y / 10 % 10) + y % 10 == y,
{
    let a = y / 1000;
    let r1 = y % 1000;
    lemma_fundamental_div_mod(y, 1000);
    lemma_mod_division_less_than_divisor(y, 1000);
    let b = r1 / 100;
    let r2 = r1 % 100;
    lemma_fundamental_div_mod(r1, 100);
    lemma_mod_division_less_than_divisor(r1, 100);
    let c = r2 / 10;
    let r3 = r2 % 10;
    lemma_fundamental_div_mod(r2, 10);
    lemma_mod_division_less_than_divisor(r2, 10);
    assert(y == 1000 * a + 100 * b + 10 * c + r3);
    lemma_small_mod(a as nat, 10);
    lemma_fundamental_div_mod_converse_div(y, 100, 10 * a + b, 10 * c + r3);
    lemma_mod_multiples_vanish(a, b, 10);
    lemma_small_mod(b as nat, 10);
    lemma_fundamental_div_mod_converse_div(y, 10, 100 * a + 10 * b + c, r3);
    lemma_mod_multiples_vanish(10 * a + b, c, 10);
    lemma_small_mod(c as nat, 10);
    lemma_fundamental_div_mod_converse_mod(y, 10, 100 * a + 10 * b + c, r3);
}

/// A strict day key names its date unambiguously: formatting a valid date and
/// parsing the result gives the date back.
pub proof fn lemma_day_key_roundtrip(d: Date)
    requires
        date_valid(d),
    ensures
        parse_day_key_spec(day_key_seq(d)) == Some(d),
{
    let y = d.year as int;
    lemma_four_digits(y);
    lemma_fundamental_div_mod(d.month as int, 10);
    lemma_fundamental_div_mod(d.day as int, 10);
}

/// Index of the weekday of `d`, with Monday as 0 through Sunday as 6.
pub open spec fn spec_weekday_index(d: Date) -> int {
    (day_number(d) + 5) % 7
}

pub fn weekday_index(d: Date) -> (r: u8)
    requires
        date_valid(d),
    ensures
        r == spec_weekday_index(d),
        r < 7,
{
    let n = day_number_of(d);
    ((n + 5) % 7) as u8
}

} // verus!
