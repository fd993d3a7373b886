//! Scheduled start times: parsing an RFC3339 timestamp into the machine's
//! local calendar and formatting it as a localized date/time string of the
//! form `2024年05月01日 20時00分`.

use vstd::prelude::*;
use chrono::Datelike;
use chrono::Timelike;

verus! {

/// A scheduled instant already converted to the machine's local calendar,
/// held as plain calendar fields.
#[derive(Clone, Copy, Debug, PartialEq, Eq, Structural)]
pub struct DateParts {
    pub year: i32,
    pub month: u8,
    pub day: u8,
    pub hour: u8,
    pub minute: u8,
}

impl DateParts {
    /// Field ranges of a calendar date and wall-clock time.
    pub open spec fn wf(self) -> bool {
        &&& 1 <= self.month <= 12
        &&& 1 <= self.day <= 31
        &&& self.hour <= 23
        &&& self.minute <= 59
    }
}

/// Whether chrono's RFC3339 parser accepts the string; acceptance is a
/// function of the characters alone.
pub uninterp spec fn rfc3339_parses(s: Seq<char>) -> bool;

/// Relies on chrono: `DateTime::parse_from_rfc3339`, whose success depends on
/// the characters alone; `DateTime::with_timezone` to the `Local` offset; and
/// the `Datelike`/`Timelike` accessors, documented to return month in 1..=12,
/// day in 1..=31, hour in 0..=23 and minute in 0..=59.
#[verifier::external_body]
pub fn parse_rfc3339_local(s: &str) -> (r: Option<DateParts>)
    ensures
        r.is_some() == rfc3339_parses(s@),
        r matches Some(d) ==> d.wf(),
{
    match chrono::DateTime::parse_from_rfc3339(s) {
        Ok(dt) => {
            let l = dt.with_timezone(&chrono::Local);
            Some(DateParts {
                year: l.year(),
                month: l.month() as u8,
                day: l.day() as u8,
                hour: l.hour() as u8,
                minute: l.minute() as u8,
            })
        },
        Err(_) => None,
    }
}

/// The character for one decimal digit.
pub open spec fn digit_char(d: nat) -> char {
    if d == 0 { '0' }
    else if d == 1 { '1' }
    else if d == 2 { '2' }
    else if d == 3 { '3' }
    else if d == 4 { '4' }
    else if d == 5 { '5' }
    else if d == 6 { '6' }
    else if d == 7 { '7' }
    else if d == 8 { '8' }
    else { '9' }
}

/// The decimal digits of `n`, most significant first, with no leading zeros
/// (a single zero for `n == 0`).
pub open spec fn spec_digits(n: nat) -> Seq<char>
    decreases n,
{
    if n < 10 {
        seq![digit_char(n)]
    } else {
        spec_digits(n / 10) + seq![digit_char(n % 10)]
    }
}

/// `m` zero characters.
pub open spec fn spec_zeros(m: nat) -> Seq<char> {
    Seq::new(m, |i: int| '0')
}

/// The decimal digits of `n`, left-padded with zeros to width `w`.
pub open spec fn spec_padded(n: nat, w: nat) -> Seq<char> {
    if spec_digits(n).len() >= w {
        spec_digits(n)
    } else {
        spec_zeros((w - spec_digits(n).len()) as nat) + spec_digits(n)
    }
}

/// A year, zero-padded to four digits, with a leading minus sign when
/// negative.
pub open spec fn spec_year(y: int) -> Seq<char> {
    if y >= 0 {
        spec_padded(y as nat, 4)
    } else {
        seq!['-'] + spec_padded((-y) as nat, 4)
    }
}

/// The localized rendering of a scheduled instant:
/// year(4)年month(2)月day(2)日 hour(2)時minute(2)分.
pub open spec fn spec_format_time(d: DateParts) -> Seq<char> {
    spec_year(d.year as int) + seq!['年'] + spec_padded(d.month as nat, 2) + seq!['月']
        + spec_padded(d.day as nat, 2) + seq!['日', ' '] + spec_padded(d.hour as nat, 2)
        + seq!['時'] + spec_padded(d.minute as nat, 2) + seq!['分']
}

/// A string that is the localized rendering of some well-formed instant.
pub open spec fn is_localized_time(t: Seq<char>) -> bool {
    exists|d: DateParts| d.wf() && t == spec_format_time(d)
}

fn digit_str(d: u32) -> (r: &'static str)
    requires
        d < 10,
    ensures
        r@ == seq![digit_char(d as nat)],
{
    proof {
        reveal_strlit("0");
        reveal_strlit("1");
        reveal_strlit("2");
        reveal_strlit("3");
        reveal_strlit("4");
        reveal_strlit("5");
        reveal_strlit("6");
        reveal_strlit("7");
        reveal_strlit("8");
        reveal_strlit("9");
    }
    let r: &'static str = if d == 0 { "0" }
    else if d == 1 { "1" }
    else if d == 2 { "2" }
    else if d == 3 { "3" }
    else if d == 4 { "4" }
    else if d == 5 { "5" }
    else if d == 6 { "6" }
    else if d == 7 { "7" }
    else if d == 8 { "8" }
    else { "9" };
    proof {
        assert(r@ =~= seq![digit_char(d as nat)]);
    }
    r
}

/// The decimal digits of `n`, most significant first.
pub fn u32_digits(n: u32) -> (r: String)
    ensures
        r@ == spec_digits(n as nat),
    decreases n,
{
    if n < 10 {
        let mut s = String::new();
        s.append(digit_str(n));
        proof {
            assert(s@ =~= spec_digits(n as nat));
        }
        s
    } else {
        let mut s = u32_digits(n / 10);
        s.append(digit_str(n % 10));
        proof {
            assert(s@ =~= spec_digits(n as nat));
        }
        s
    }
}

/// The decimal digits of `n`, left-padded with zeros to width `w`.
pub fn padded(n: u32, w: usize) -> (r: String)
    ensures
        r@ == spec_padded(n as nat, w as nat),
{
    let digits = u32_digits(n);
    let dlen = digits.as_str().unicode_len();
    let pad: usize = if w > dlen { w - dlen } else { 0 };
    let mut out = String::new();
    let mut k: usize = 0;
    while k < pad
        invariant
            k <= pad,
            out@ =~= spec_zeros(k as nat),
        decreases pad - k,
    {
        out.append("0");
        k = k + 1;
        proof {
            reveal_strlit("0");
            assert(out@ =~= spec_zeros(k as nat));
        }
    }
    out.append(digits.as_str());
    proof {
        assert(out@ =~= spec_padded(n as nat, w as nat));
    }
    out
}

/// A year as chrono's `%Y` renders it: at least four digits, sign included.
pub fn year_string(y: i32) -> (r: String)
    ensures
        r@ == spec_year(y as int),
{
    if y >= 0 {
        padded(y as u32, 4)
    } else {
        let mag64: i64 = -(y as i64);
        assert(0 < mag64 <= 0x8000_0000);
        let mag: u32 = mag64 as u32;
        let mut s = String::new();
        s.append("-");
        let body = padded(mag, 4);
        s.append(body.as_str());
        proof {
            reveal_strlit("-");
            assert(s@ =~= spec_year(y as int));
        }
        s
    }
}

/// The localized date/time rendering of a well-formed instant.
pub fn format_start_time(d: &DateParts) -> (r: String)
    requires
        d.wf(),
    ensures
        r@ == spec_format_time(*d),
{
    let mut s = year_string(d.year);
    s.append("年");
    let part_month = padded(d.month as u32, 2);
    s.append(part_month.as_str());
    s.append("月");
    let part_day = padded(d.day as u32, 2);
    s.append(part_day.as_str());
    s.append("日 ");
    let part_hour = padded(d.hour as u32, 2);
    s.append(part_hour.as_str());
    s.append("時");
    let part_minute = padded(d.minute as u32, 2);
    s.append(part_minute.as_str());
    s.append("分");
    proof {
        reveal_strlit("年");
        reveal_strlit("月");
        reveal_strlit("日 ");
        reveal_strlit("時");
        reveal_strlit("分");
        assert(s@ =~= spec_format_time(*d));
    }
    s
}

/// Parses an RFC3339 timestamp and renders it in the local calendar; `None`
/// exactly when the timestamp does not parse.
pub fn localized_start_time(s: &str) -> (r: Option<String>)
    ensures
        r.is_some() == rfc3339_parses(s@),
        r matches Some(t) ==> is_localized_time(t@),
{
    match parse_rfc3339_local(s) {
        Some(d) => {
            let t = format_start_time(&d);
            proof {
                assert(d.wf() && t@ == spec_format_time(d));
                assert(is_localized_time(t@));
            }
            Some(t)
        },
        None => None,
    }
}

} // verus!
