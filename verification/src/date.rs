//! Calendar dates for publish instants.
//!
//! A post's publish instant is its `YYYY-MM-DD` date taken at midnight UTC,
//! so a plain calendar date carries all the information the pipeline needs:
//! ordering is by the date alone, and feed timestamps are the date rendered
//! at midnight. This module parses the date form, orders dates by a numeric
//! key, and renders them in RFC 3339 form.

use vstd::prelude::*;
use vstd::string::*;

verus! {

/// A calendar date; `date_valid` says when the fields name a real day.
#[derive(Debug, Clone, Copy, PartialEq, Eq, Structural)]
pub struct Date {
    pub year: u32,
    pub month: u32,
    pub day: u32,
}

pub open spec fn is_leap_year(y: int) -> bool {
    (y % 4 == 0 && y % 100 != 0) || y % 400 == 0
}

pub open spec fn days_in_month(y: int, m: int) -> int {
    if m == 2 {
        if is_leap_year(y) {
            29
        } else {
            28
        }
    } else if m == 4 || m == 6 || m == 9 || m == 11 {
        30
    } else {
        31
    }
}

pub open spec fn date_valid(d: Date) -> bool {
    &&& d.year <= 9999
    &&& 1 <= d.month <= 12
    &&& 1 <= d.day <= days_in_month(d.year as int, d.month as int)
}

/// Total order on dates: later days have larger keys, and no two distinct
/// valid dates share a key.
pub open spec fn date_key(d: Date) -> int {
    d.year * 10000 + d.month * 100 + d.day
}

pub open spec fn is_digit(c: char) -> bool {
    48 <= c as int <= 57
}

pub open spec fn digit_val(c: char) -> int {
    c as int - 48
}

/// What parsing a date string yields: `Some` exactly on ten-character
/// `YYYY-MM-DD` strings that name a real calendar day.
pub open spec fn spec_parse_date(s: Seq<char>) -> Option<Date> {
    if s.len() == 10 && is_digit(s[0]) && is_digit(s[1]) && is_digit(s[2]) && is_digit(s[3])
        && s[4] == '-' && is_digit(s[5]) && is_digit(s[6]) && s[7] == '-' && is_digit(s[8])
        && is_digit(s[9]) {
        let y = digit_val(s[0]) * 1000 + digit_val(s[1]) * 100 + digit_val(s[2]) * 10 + digit_val(
            s[3],
        );
        let m = digit_val(s[5]) * 10 + digit_val(s[6]);
        let d = digit_val(s[8]) * 10 + digit_val(s[9]);
        if 1 <= m <= 12 && 1 <= d <= days_in_month(y, m) {
            Some(Date { year: y as u32, month: m as u32, day: d as u32 })
        } else {
            None
        }
    } else {
        None
    }
}

pub proof fn lemma_parse_date_valid(s: Seq<char>)
    requires
        spec_parse_date(s) is Some,
    ensures
        date_valid(spec_parse_date(s)->0),
{
}

fn digit_of(c: char) -> (r: Option<u32>)
    ensures
        r is Some <==> is_digit(c),
        r is Some ==> r->0 == digit_val(c) && r->0 < 10,
{
    let v = c as u32;
    if 48 <= v && v <= 57 {
        Some(v - 48)
    } else {
        None
    }
}

/// Parse a `YYYY-MM-DD` date string, accepting exactly the strings that
/// `spec_parse_date` accepts.
pub fn parse_date(s: &str) -> (r: Option<Date>)
    ensures
        r == spec_parse_date(s@),
{
    if s.unicode_len() != 10 {
        return None;
    }
    if s.get_char(4) != '-' || s.get_char(7) != '-' {
        return None;
    }
    let d0 = digit_of(s.get_char(0));
    let d1 = digit_of(s.get_char(1));
    let d2 = digit_of(s.get_char(2));
    let d3 = digit_of(s.get_char(3));
    let d5 = digit_of(s.get_char(5));
    let d6 = digit_of(s.get_char(6));
    let d8 = digit_of(s.get_char(8));
    let d9 = digit_of(s.get_char(9));
    match (d0, d1, d2, d3, d5, d6, d8, d9) {
        (
            Some(y0),
            Some(y1),
            Some(y2),
            Some(y3),
            Some(m0),
            Some(m1),
            Some(a0),
            Some(a1),
        ) => {
            let y = y0 * 1000 + y1 * 100 + y2 * 10 + y3;
            let m = m0 * 10 + m1;
            let d = a0 * 10 + a1;
            if 1 <= m && m <= 12 && 1 <= d && d <= days_in_month_exec(y, m) {
                Some(Date { year: y, month: m, day: d })
            } else {
                None
            }
        },
        _ => None,
    }
}

fn days_in_month_exec(y: u32, m: u32) -> (r: u32)
    ensures
        r == days_in_month(y as int, m as int),
{
    if m == 2 {
        if (y % 4 == 0 && y % 100 != 0) || y % 400 == 0 {
            29
        } else {
            28
        }
    } else if m == 4 || m == 6 || m == 9 || m == 11 {
        30
    } else {
        31
    }
}

/// The date's key as a machine integer, for comparisons in executable code.
pub fn date_key_num(d: &Date) -> (k: u64)
    ensures
        k == date_key(*d),
{
    (d.year as u64) * 10000 + (d.month as u64) * 100 + (d.day as u64)
}

pub open spec fn digit_char(v: int) -> char {
    if v == 0 {
        '0'
    } else if v == 1 {
        '1'
    } else if v == 2 {
        '2'
    } else if v == 3 {
        '3'
    } else if v == 4 {
        '4'
    } else if v == 5 {
        '5'
    } else if v == 6 {
        '6'
    } else if v == 7 {
        '7'
    } else if v == 8 {
        '8'
    } else {
        '9'
    }
}

pub open spec fn spec_decimal4(v: int) -> Seq<char> {
    seq![
        digit_char(v / 1000 % 10),
        digit_char(v / 100 % 10),
        digit_char(v / 10 % 10),
        digit_char(v % 10),
    ]
}

pub open spec fn spec_decimal2(v: int) -> Seq<char> {
    seq![digit_char(v / 10 % 10), digit_char(v % 10)]
}

/// The date at midnight UTC in RFC 3339 form, for instance
/// `2024-01-05T00:00:00+00:00`.
pub open spec fn spec_rfc3339_midnight(d: Date) -> Seq<char> {
    spec_decimal4(d.year as int) + seq!['-'] + spec_decimal2(d.month as int) + seq!['-']
        + spec_decimal2(d.day as int) + seq!['T', '0', '0', ':', '0', '0', ':', '0', '0', '+', '0', '0', ':', '0', '0']
}

fn digit_str(v: u32) -> (r: &'static str)
    requires
        v < 10,
    ensures
        r@ == seq![digit_char(v as int)],
{
    if v == 0 {
        proof {
            reveal_strlit("0");
        }
        "0"
    } else if v == 1 {
        proof {
            reveal_strlit("1");
        }
        "1"
    } else if v == 2 {
        proof {
            reveal_strlit("2");
        }
        "2"
    } else if v == 3 {
        proof {
            reveal_strlit("3");
        }
        "3"
    } else if v == 4 {
        proof {
            reveal_strlit("4");
        }
        "4"
    } else if v == 5 {
        proof {
            reveal_strlit("5");
        }
        "5"
    } else if v == 6 {
        proof {
            reveal_strlit("6");
        }
        "6"
    } else if v == 7 {
        proof {
            reveal_strlit("7");
        }
        "7"
    } else if v == 8 {
        proof {
            reveal_strlit("8");
        }
        "8"
    } else {
        proof {
            reveal_strlit("9");
        }
        "9"
    }
}

fn push_decimal4(out: &mut String, v: u32)
    ensures
        final(out)@ == old(out)@ + spec_decimal4(v as int),
{
    out.append(digit_str(v / 1000 % 10));
    out.append(digit_str(v / 100 % 10));
    out.append(digit_str(v / 10 % 10));
    out.append(digit_str(v % 10));
    assert(out@ =~= old(out)@ + spec_decimal4(v as int));
}

fn push_decimal2(out: &mut String, v: u32)
    ensures
        final(out)@ == old(out)@ + spec_decimal2(v as int),
{
    out.append(digit_str(v / 10 % 10));
    out.append(digit_str(v % 10));
    assert(out@ =~= old(out)@ + spec_decimal2(v as int));
}

/// Render the date at midnight UTC in RFC 3339 form.
pub fn rfc3339_midnight(d: &Date) -> (r: String)
    ensures
        r@ == spec_rfc3339_midnight(*d),
{
    let mut out = String::new();
    push_decimal4(&mut out, d.year);
    out.append("-");
    push_decimal2(&mut out, d.month);
    out.append("-");
    push_decimal2(&mut out, d.day);
    out.append("T00:00:00+00:00");
    proof {
        reveal_strlit("-");
        reveal_strlit("T00:00:00+00:00");
        assert(out@ =~= spec_rfc3339_midnight(*d));
    }
    out
}

} // verus!
