//! Date resolution for entry records.
//!
//! A record's display date (`YYYY-MM-DD`) and sortable date
//! (`YYYY-MM-DDTHH:MM:SS`) come from the first source that parses: a
//! long-form RFC 2822 `date` field, an RFC 3339 `sent_at` field (tried
//! with a timezone and then without), or a `YYYY-MM-DD` prefix of the file
//! name, optionally followed by `-HHMM`. When none parses, both dates are
//! empty. The calendar parsers are chrono's; the formatting and the file
//! name fallback are verified here.

use vstd::prelude::*;

use chrono::Datelike;
use chrono::Timelike;

use crate::text::chars_to_string;
use crate::text::str_to_chars;
use crate::text::subvec;

verus! {

/// Year, month, day, hour, minute and second, as chrono reports them.
pub type PartsSpec = Option<(int, int, int, int, int, int)>;

/// What `chrono::DateTime::parse_from_rfc2822` extracts from a string:
/// its date-time parts, or none when the string is not an RFC 2822 date.
/// A pure function of the string.
pub uninterp spec fn rfc2822_parts(s: Seq<char>) -> PartsSpec;

/// What `chrono::DateTime::parse_from_rfc3339` extracts from a string.
/// A pure function of the string.
pub uninterp spec fn rfc3339_parts(s: Seq<char>) -> PartsSpec;

/// What `chrono::NaiveDateTime::parse_from_str` extracts from a string
/// under a given format. A pure function of both strings.
pub uninterp spec fn naive_parts(s: Seq<char>, fmt: Seq<char>) -> PartsSpec;

/// Relies on chrono's DateTime::parse_from_rfc2822 and on the documented
/// ranges of the Datelike/Timelike accessors (month 1..=12, day 1..=31,
/// hour 0..=23, minute and second 0..=59).
#[verifier::external_body]
fn parse_rfc2822(s: &str) -> (r: Option<(i32, u32, u32, u32, u32, u32)>)
    ensures
        r is Some <==> rfc2822_parts(s@) is Some,
        r matches Some(p) ==> rfc2822_parts(s@) == Some(
            (p.0 as int, p.1 as int, p.2 as int, p.3 as int, p.4 as int, p.5 as int),
        ) && 1 <= p.1 <= 12 && 1 <= p.2 <= 31 && p.3 <= 23 && p.4 <= 59 && p.5 <= 59,
{
    match chrono::DateTime::parse_from_rfc2822(s) {
        Ok(dt) => Some((dt.year(), dt.month(), dt.day(), dt.hour(), dt.minute(), dt.second())),
        Err(_) => None,
    }
}

/// Relies on chrono's DateTime::parse_from_rfc3339 and on the documented
/// ranges of the Datelike/Timelike accessors.
#[verifier::external_body]
fn parse_rfc3339(s: &str) -> (r: Option<(i32, u32, u32, u32, u32, u32)>)
    ensures
        r is Some <==> rfc3339_parts(s@) is Some,
        r matches Some(p) ==> rfc3339_parts(s@) == Some(
            (p.0 as int, p.1 as int, p.2 as int, p.3 as int, p.4 as int, p.5 as int),
        ) && 1 <= p.1 <= 12 && 1 <= p.2 <= 31 && p.3 <= 23 && p.4 <= 59 && p.5 <= 59,
{
    match chrono::DateTime::parse_from_rfc3339(s) {
        Ok(dt) => Some((dt.year(), dt.month(), dt.day(), dt.hour(), dt.minute(), dt.second())),
        Err(_) => None,
    }
}

/// Relies on chrono's NaiveDateTime::parse_from_str and on the documented
/// ranges of the Datelike/Timelike accessors.
#[verifier::external_body]
fn parse_naive(s: &str, fmt: &str) -> (r: Option<(i32, u32, u32, u32, u32, u32)>)
    ensures
        r is Some <==> naive_parts(s@, fmt@) is Some,
        r matches Some(p) ==> naive_parts(s@, fmt@) == Some(
            (p.0 as int, p.1 as int, p.2 as int, p.3 as int, p.4 as int, p.5 as int),
        ) && 1 <= p.1 <= 12 && 1 <= p.2 <= 31 && p.3 <= 23 && p.4 <= 59 && p.5 <= 59,
{
    match chrono::NaiveDateTime::parse_from_str(s, fmt) {
        Ok(dt) => Some((dt.year(), dt.month(), dt.day(), dt.hour(), dt.minute(), dt.second())),
        Err(_) => None,
    }
}

/// The decimal digit character for values zero through nine; larger values
/// saturate at nine (they never arise from in-range inputs).
pub open spec fn spec_digit(d: int) -> char {
    if d == 0 {
        '0'
    } else if d == 1 {
        '1'
    } else if d == 2 {
        '2'
    } else if d == 3 {
        '3'
    } else if d == 4 {
        '4'
    } else if d == 5 {
        '5'
    } else if d == 6 {
        '6'
    } else if d == 7 {
        '7'
    } else if d == 8 {
        '8'
    } else {
        '9'
    }
}

/// A value below one hundred as two zero-padded digits.
pub open spec fn two_digit_seq(n: int) -> Seq<char> {
    seq![spec_digit(n / 10), spec_digit(n % 10)]
}

/// A value below ten thousand as four zero-padded digits.
pub open spec fn four_digit_seq(n: int) -> Seq<char> {
    seq![
        spec_digit(n / 1000),
        spec_digit((n / 100) % 10),
        spec_digit((n / 10) % 10),
        spec_digit(n % 10),
    ]
}

/// The display form of a date: `YYYY-MM-DD`.
pub open spec fn display_date_seq(y: int, m: int, d: int) -> Seq<char> {
    four_digit_seq(y) + seq!['-'] + two_digit_seq(m) + seq!['-'] + two_digit_seq(d)
}

/// The sortable form of a date-time: `YYYY-MM-DDTHH:MM:SS`.
pub open spec fn sort_date_seq(y: int, m: int, d: int, h: int, mi: int, s: int) -> Seq<char> {
    display_date_seq(y, m, d) + seq!['T'] + two_digit_seq(h) + seq![':'] + two_digit_seq(mi)
        + seq![':'] + two_digit_seq(s)
}

/// The digit character of a value below ten.
fn digit_ch(d: u32) -> (c: char)
    requires
        d < 10,
    ensures
        c == spec_digit(d as int),
{
    match d {
        0 => '0',
        1 => '1',
        2 => '2',
        3 => '3',
        4 => '4',
        5 => '5',
        6 => '6',
        7 => '7',
        8 => '8',
        _ => '9',
    }
}

/// Append a value below one hundred as two zero-padded digits.
fn push_two_digits(out: &mut Vec<char>, n: u32)
    requires
        n < 100,
    ensures
        final(out)@ == old(out)@ + two_digit_seq(n as int),
{
    out.push(digit_ch(n / 10));
    out.push(digit_ch(n % 10));
    proof {
        assert(final(out)@ =~= old(out)@ + two_digit_seq(n as int));
    }
}

/// Append a value below ten thousand as four zero-padded digits.
fn push_four_digits(out: &mut Vec<char>, n: u32)
    requires
        n < 10000,
    ensures
        final(out)@ == old(out)@ + four_digit_seq(n as int),
{
    out.push(digit_ch(n / 1000));
    out.push(digit_ch((n / 100) % 10));
    out.push(digit_ch((n / 10) % 10));
    out.push(digit_ch(n % 10));
    proof {
        assert(final(out)@ =~= old(out)@ + four_digit_seq(n as int));
    }
}

/// The display and sortable strings of one set of date-time parts.
fn format_dates(y: u32, m: u32, d: u32, h: u32, mi: u32, s: u32) -> (r: (String, String))
    requires
        y < 10000,
        m < 100,
        d < 100,
        h < 100,
        mi < 100,
        s < 100,
    ensures
        r.0@ == display_date_seq(y as int, m as int, d as int),
        r.1@ == sort_date_seq(y as int, m as int, d as int, h as int, mi as int, s as int),
{
    let mut v: Vec<char> = Vec::new();
    push_four_digits(&mut v, y);
    v.push('-');
    push_two_digits(&mut v, m);
    v.push('-');
    push_two_digits(&mut v, d);
    proof {
        assert(v@ =~= display_date_seq(y as int, m as int, d as int));
    }
    let display = chars_to_string(&v);
    v.push('T');
    push_two_digits(&mut v, h);
    v.push(':');
    push_two_digits(&mut v, mi);
    v.push(':');
    push_two_digits(&mut v, s);
    proof {
        assert(v@ =~= sort_date_seq(y as int, m as int, d as int, h as int, mi as int, s as int));
    }
    let sort = chars_to_string(&v);
    (display, sort)
}

/// Whether a character is an ASCII decimal digit.
pub open spec fn is_digit_char(c: char) -> bool {
    48 <= (c as u32) <= 57
}

/// Its numeric value.
pub open spec fn digit_val(c: char) -> int {
    (c as u32) - 48
}

/// Executable digit test.
fn is_digit(c: char) -> (r: bool)
    ensures
        r == is_digit_char(c),
{
    let u = c as u32;
    48 <= u && u <= 57
}

/// A year counted as leap in the proleptic Gregorian calendar.
pub open spec fn is_leap_year(y: int) -> bool {
    (y % 4 == 0 && y % 100 != 0) || y % 400 == 0
}

/// The number of days of a month.
pub open spec fn days_in_month(y: int, m: int) -> int {
    if m == 2 {
        if is_leap_year(y) {
            29
        } else {
            28
        }
    } else if m == 4 || m == 6 || m == 9 || m == 11 {
        30
    } else {
        31
    }
}

/// A calendar-valid year, month and day.
pub open spec fn valid_ymd(y: int, m: int, d: int) -> bool {
    1 <= m <= 12 && 1 <= d <= days_in_month(y, m)
}

/// The year, month and day encoded by a `YYYY-MM-DD` prefix, when the
/// first ten characters have that shape and name a valid calendar date.
pub open spec fn ymd_prefix(s: Seq<char>) -> Option<(int, int, int)> {
    if s.len() >= 10 && is_digit_char(s[0]) && is_digit_char(s[1]) && is_digit_char(s[2])
        && is_digit_char(s[3]) && s[4] == '-' && is_digit_char(s[5]) && is_digit_char(s[6]) && s[7]
        == '-' && is_digit_char(s[8]) && is_digit_char(s[9]) {
        let y = 1000 * digit_val(s[0]) + 100 * digit_val(s[1]) + 10 * digit_val(s[2]) + digit_val(
            s[3],
        );
        let m = 10 * digit_val(s[5]) + digit_val(s[6]);
        let d = 10 * digit_val(s[8]) + digit_val(s[9]);
        if valid_ymd(y, m, d) {
            Some((y, m, d))
        } else {
            None
        }
    } else {
        None
    }
}

/// The display and sortable dates a file name yields: its `YYYY-MM-DD`
/// prefix, and — when `-HHMM` digits follow — that time, else midnight.
pub open spec fn filename_dates(name: Seq<char>) -> Option<(Seq<char>, Seq<char>)> {
    match ymd_prefix(name) {
        None => None,
        Some(_) => {
            let date_part = name.take(10);
            if name.len() >= 15 && name[10] == '-' && is_digit_char(name[11]) && is_digit_char(
                name[12],
            ) && is_digit_char(name[13]) && is_digit_char(name[14]) {
                Some(
                    (
                        date_part,
                        date_part + seq!['T'] + name.subrange(11, 13) + seq![':'] + name.subrange(
                            13,
                            15,
                        ) + seq![':', '0', '0'],
                    ),
                )
            } else {
                Some((date_part, date_part + seq!['T', '0', '0', ':', '0', '0', ':', '0', '0']))
            }
        },
    }
}

/// The date strings taken from a file name, per `filename_dates`.
fn dates_from_filename(name: &Vec<char>) -> (r: Option<(String, String)>)
    ensures
        r is Some <==> filename_dates(name@) is Some,
        r matches Some(p) ==> filename_dates(name@) == Some((p.0@, p.1@)),
{
    if name.len() < 10 {
        return None;
    }
    let digits_ok = is_digit(name[0]) && is_digit(name[1]) && is_digit(name[2]) && is_digit(
        name[3],
    ) && name[4] == '-' && is_digit(name[5]) && is_digit(name[6]) && name[7] == '-' && is_digit(
        name[8],
    ) && is_digit(name[9]);
    if !digits_ok {
        return None;
    }
    let y = 1000 * digit_value(name[0]) + 100 * digit_value(name[1]) + 10 * digit_value(name[2])
        + digit_value(name[3]);
    let m = 10 * digit_value(name[5]) + digit_value(name[6]);
    let d = 10 * digit_value(name[8]) + digit_value(name[9]);
    if !(1 <= m && m <= 12 && 1 <= d && d <= days_in_month_exec(y, m)) {
        return None;
    }
    let date_vec = subvec(name, 0, 10);
    proof {
        assert(date_vec@ =~= name@.take(10));
    }
    let date_part = chars_to_string(&date_vec);
    if name.len() >= 15 && name[10] == '-' && is_digit(name[11]) && is_digit(name[12]) && is_digit(
        name[13],
    ) && is_digit(name[14]) {
        let mut v = subvec(name, 0, 10);
        v.push('T');
        v.push(name[11]);
        v.push(name[12]);
        v.push(':');
        v.push(name[13]);
        v.push(name[14]);
        v.push(':');
        v.push('0');
        v.push('0');
        proof {
            assert(v@ =~= name@.take(10) + seq!['T'] + name@.subrange(11, 13) + seq![':']
                + name@.subrange(13, 15) + seq![':', '0', '0']);
        }
        Some((date_part, chars_to_string(&v)))
    } else {
        let mut v = subvec(name, 0, 10);
        v.push('T');
        v.push('0');
        v.push('0');
        v.push(':');
        v.push('0');
        v.push('0');
        v.push(':');
        v.push('0');
        v.push('0');
        proof {
            assert(v@ =~= name@.take(10) + seq!['T', '0', '0', ':', '0', '0', ':', '0', '0']);
        }
        Some((date_part, chars_to_string(&v)))
    }
}

/// The numeric value of a digit character.
fn digit_value(c: char) -> (r: u32)
    requires
        is_digit_char(c),
    ensures
        r == digit_val(c),
        r <= 9,
{
    (c as u32) - 48
}

/// Executable day count of a month.
fn days_in_month_exec(y: u32, m: u32) -> (r: u32)
    ensures
        r == days_in_month(y as int, m as int),
{
    if m == 2 {
        if (y % 4 == 0 && y % 100 != 0) || y % 400 == 0 {
            29
        } else {
            28
        }
    } else if m == 4 || m == 6 || m == 9 || m == 11 {
        30
    } else {
        31
    }
}

/// A parsed date-time whose fields the fixed-width formatter can render:
/// the year has at most four digits and the rest is in calendar range, as
/// the parsers already guarantee.
pub open spec fn parts_formattable(p: (int, int, int, int, int, int)) -> bool {
    0 <= p.0 <= 9999 && 0 <= p.1 < 100 && 0 <= p.2 < 100 && 0 <= p.3 < 100 && 0 <= p.4 < 100 && 0
        <= p.5 < 100
}

/// The display and sort strings of one set of parts.
pub open spec fn parts_dates(p: (int, int, int, int, int, int)) -> (Seq<char>, Seq<char>) {
    (display_date_seq(p.0, p.1, p.2), sort_date_seq(p.0, p.1, p.2, p.3, p.4, p.5))
}

/// The timestamp format tried for a `sent_at` value without a timezone.
pub open spec fn naive_fmt() -> Seq<char> {
    "%Y-%m-%dT%H:%M:%SZ"@
}

/// A string's view, when there is one.
pub open spec fn opt_view(o: Option<String>) -> Option<Seq<char>> {
    match o {
        Some(s) => Some(s@),
        None => None,
    }
}

/// The display and sortable dates of a record: the first source that
/// resolves wins — the RFC 2822 `date` field, the RFC 3339 `sent_at`
/// field, the same field read as a bare timestamp, then the file name;
/// with none, both strings are empty. A parse whose year needs more than
/// four digits counts as unresolved.
pub open spec fn resolved_dates(
    date_field: Option<Seq<char>>,
    sent_field: Option<Seq<char>>,
    name: Seq<char>,
) -> (Seq<char>, Seq<char>) {
    if date_field matches Some(ds) && rfc2822_parts(ds) matches Some(p) && parts_formattable(p) {
        parts_dates(rfc2822_parts(date_field->Some_0)->Some_0)
    } else if sent_field matches Some(ss) && rfc3339_parts(ss) matches Some(p)
        && parts_formattable(p) {
        parts_dates(rfc3339_parts(sent_field->Some_0)->Some_0)
    } else if sent_field matches Some(ss) && naive_parts(ss, naive_fmt()) matches Some(p)
        && parts_formattable(p) {
        parts_dates(naive_parts(sent_field->Some_0, naive_fmt())->Some_0)
    } else if filename_dates(name) is Some {
        filename_dates(name)->Some_0
    } else {
        (Seq::<char>::empty(), Seq::<char>::empty())
    }
}

/// Resolve the display and sortable date of a record from its metadata
/// fields and its file name, as `resolved_dates` specifies.
pub fn resolve_date(date_field: &Option<String>, sent_at_field: &Option<String>, file_name: &str)
    -> (r: (String, String))
    ensures
        (r.0@, r.1@) == resolved_dates(
            opt_view(*date_field),
            opt_view(*sent_at_field),
            file_name@,
        ),
{
    if let Some(ds) = date_field {
        if let Some(p) = parse_rfc2822(ds.as_str()) {
            if 0 <= p.0 && p.0 <= 9999 {
                return format_dates(p.0 as u32, p.1, p.2, p.3, p.4, p.5);
            }
        }
    }
    if let Some(ss) = sent_at_field {
        if let Some(p) = parse_rfc3339(ss.as_str()) {
            if 0 <= p.0 && p.0 <= 9999 {
                return format_dates(p.0 as u32, p.1, p.2, p.3, p.4, p.5);
            }
        }
        if let Some(p) = parse_naive(ss.as_str(), "%Y-%m-%dT%H:%M:%SZ") {
            if 0 <= p.0 && p.0 <= 9999 {
                return format_dates(p.0 as u32, p.1, p.2, p.3, p.4, p.5);
            }
        }
    }
    let name = str_to_chars(file_name);
    if let Some(pair) = dates_from_filename(&name) {
        return pair;
    }
    (String::new(), String::new())
}

} // verus!
