//! Calendar date-times as plain fields, with parsing and formatting done by
//! `chrono`.

use chrono::{Datelike, Timelike};
use vstd::prelude::*;

verus! {

/// A local calendar date and time of day, to the second.
#[derive(Debug, Clone, Copy, PartialEq, Eq, Structural)]
pub struct BackupTime {
    /// Calendar year.
    pub year: i32,
    /// Month of the year, from 1.
    pub month: u32,
    /// Day of the month, from 1.
    pub day: u32,
    /// Hour of the day, from 0.
    pub hour: u32,
    /// Minute of the hour, from 0.
    pub minute: u32,
    /// Second of the minute, from 0.
    pub second: u32,
}

/// The fields of a date-time, most significant first.
pub type TimeFields = (i32, u32, u32, u32, u32, u32);

impl BackupTime {
    /// The fields of this date-time, most significant first.
    pub open spec fn fields(self) -> TimeFields {
        (self.year, self.month, self.day, self.hour, self.minute, self.second)
    }
}

/// The date-time built from fields.
pub open spec fn time_from_fields(f: TimeFields) -> BackupTime {
    BackupTime { year: f.0, month: f.1, day: f.2, hour: f.3, minute: f.4, second: f.5 }
}

/// Chronological order: `a` comes strictly before `b`.
pub open spec fn time_before(a: BackupTime, b: BackupTime) -> bool {
    ||| a.year < b.year
    ||| (a.year == b.year && a.month < b.month)
    ||| (a.year == b.year && a.month == b.month && a.day < b.day)
    ||| (a.year == b.year && a.month == b.month && a.day == b.day && a.hour < b.hour)
    ||| (a.year == b.year && a.month == b.month && a.day == b.day && a.hour == b.hour && a.minute
        < b.minute)
    ||| (a.year == b.year && a.month == b.month && a.day == b.day && a.hour == b.hour && a.minute
        == b.minute && a.second < b.second)
}

/// Whether `a` comes strictly before `b` in time.
pub fn is_before(a: &BackupTime, b: &BackupTime) -> (r: bool)
    ensures
        r == time_before(*a, *b),
{
    if a.year != b.year {
        a.year < b.year
    } else if a.month != b.month {
        a.month < b.month
    } else if a.day != b.day {
        a.day < b.day
    } else if a.hour != b.hour {
        a.hour < b.hour
    } else if a.minute != b.minute {
        a.minute < b.minute
    } else {
        a.second < b.second
    }
}

/// `time_before` is a strict total order.
pub proof fn lemma_time_order(a: BackupTime, b: BackupTime, c: BackupTime)
    ensures
        !time_before(a, a),
        time_before(a, b) ==> !time_before(b, a),
        time_before(a, b) && time_before(b, c) ==> time_before(a, c),
        a.fields() != b.fields() ==> time_before(a, b) || time_before(b, a),
{
}

/// Format of the timestamp inside backup file names.
pub const BACKUP_FILE_TIME_FORMAT: &'static str = "%Y%m%d-%H%M%S";
/// Format of timestamps shown in backup listings.
pub const DISPLAY_TIME_FORMAT: &'static str = "%d/%m/%y %H:%M";

/// The ASCII digit that writes `d`, for `d` from 0 to 9.
pub open spec fn digit_char(d: int) -> char {
    if d == 0 {
        '0'
    } else if d == 1 {
        '1'
    } else if d == 2 {
        '2'
    } else if d == 3 {
        '3'
    } else if d == 4 {
        '4'
    } else if d == 5 {
        '5'
    } else if d == 6 {
        '6'
    } else if d == 7 {
        '7'
    } else if d == 8 {
        '8'
    } else {
        '9'
    }
}

/// The value of an ASCII digit; `None` for any other character.
pub open spec fn digit_value(c: char) -> Option<int> {
    if c == '0' {
        Some(0)
    } else if c == '1' {
        Some(1)
    } else if c == '2' {
        Some(2)
    } else if c == '3' {
        Some(3)
    } else if c == '4' {
        Some(4)
    } else if c == '5' {
        Some(5)
    } else if c == '6' {
        Some(6)
    } else if c == '7' {
        Some(7)
    } else if c == '8' {
        Some(8)
    } else if c == '9' {
        Some(9)
    } else {
        None
    }
}

/// `n` written in decimal with exactly `width` digits, zero-padded on the
/// left (the lowest `width` digits of `n`).
pub open spec fn padded_digits(n: int, width: nat) -> Seq<char>
    decreases width,
{
    if width == 0 {
        Seq::empty()
    } else {
        padded_digits(n / 10, (width - 1) as nat).push(digit_char(n % 10))
    }
}

/// The number that the decimal digits of `s` write; `None` when `s` holds a
/// character that is not a digit.
pub open spec fn digits_value(s: Seq<char>) -> Option<int>
    decreases s.len(),
{
    if s.len() == 0 {
        Some(0)
    } else {
        match (digits_value(s.drop_last()), digit_value(s.last())) {
            (Some(a), Some(d)) => Some(a * 10 + d),
            _ => None,
        }
    }
}

/// Ten to the power `w`.
pub open spec fn pow10(w: nat) -> int
    decreases w,
{
    if w == 0 {
        1
    } else {
        10 * pow10((w - 1) as nat)
    }
}

/// Leap years of the proleptic Gregorian calendar.
pub open spec fn is_leap_year(y: int) -> bool {
    y % 4 == 0 && (y % 100 != 0 || y % 400 == 0)
}

/// The number of days of month `m` (from 1) of year `y`.
pub open spec fn days_in_month(y: int, m: int) -> int {
    if m == 2 {
        if is_leap_year(y) {
            29
        } else {
            28
        }
    } else if m == 4 || m == 6 || m == 9 || m == 11 {
        30
    } else {
        31
    }
}

/// The fields name a day of the calendar and a time of day to the second.
pub open spec fn is_calendar_time(t: BackupTime) -> bool {
    &&& 1 <= t.month <= 12
    &&& 1 <= t.day <= days_in_month(t.year as int, t.month as int)
    &&& t.hour < 24
    &&& t.minute < 60
    &&& t.second < 60
}

/// A calendar date-time whose year `%Y` prints as four digits with no sign.
pub open spec fn is_four_digit_time(t: BackupTime) -> bool {
    is_calendar_time(t) && 0 <= t.year <= 9999
}

/// The text of `t` under `BACKUP_FILE_TIME_FORMAT` (`%Y%m%d-%H%M%S`), for a
/// four-digit year.
pub open spec fn file_stamp_text(t: BackupTime) -> Seq<char> {
    padded_digits(t.year as int, 4) + padded_digits(t.month as int, 2) + padded_digits(
        t.day as int,
        2,
    ) + seq!['-'] + padded_digits(t.hour as int, 2) + padded_digits(t.minute as int, 2)
        + padded_digits(t.second as int, 2)
}

/// The text of `t` under `DISPLAY_TIME_FORMAT` (`%d/%m/%y %H:%M`), for a
/// four-digit year.
pub open spec fn display_stamp_text(t: BackupTime) -> Seq<char> {
    padded_digits(t.day as int, 2) + seq!['/'] + padded_digits(t.month as int, 2) + seq!['/']
        + padded_digits(t.year as int % 100, 2) + seq![' '] + padded_digits(t.hour as int, 2)
        + seq![':'] + padded_digits(t.minute as int, 2)
}

/// The text of `t` under one of the two format constants, for a four-digit
/// year.
pub open spec fn stamp_text(t: BackupTime, fmt: Seq<char>) -> Seq<char> {
    if fmt == BACKUP_FILE_TIME_FORMAT@ {
        file_stamp_text(t)
    } else {
        display_stamp_text(t)
    }
}

/// The date-time that `s` writes when it has exactly the shape that
/// `BACKUP_FILE_TIME_FORMAT` prints (`YYYYMMDD-HHMMSS`, all digits but the
/// dash) and names a calendar date-time; `None` otherwise.
pub open spec fn file_stamp_time(s: Seq<char>) -> Option<BackupTime> {
    if s.len() == 15 && s[8] == '-' {
        match (
            digits_value(s.subrange(0, 4)),
            digits_value(s.subrange(4, 6)),
            digits_value(s.subrange(6, 8)),
            digits_value(s.subrange(9, 11)),
            digits_value(s.subrange(11, 13)),
            digits_value(s.subrange(13, 15)),
        ) {
            (Some(y), Some(mo), Some(d), Some(h), Some(mi), Some(se)) => {
                let t = BackupTime {
                    year: y as i32,
                    month: mo as u32,
                    day: d as u32,
                    hour: h as u32,
                    minute: mi as u32,
                    second: se as u32,
                };
                if is_calendar_time(t) {
                    Some(t)
                } else {
                    None
                }
            },
            _ => None,
        }
    } else {
        None
    }
}

/// What `chrono::NaiveDateTime::parse_from_str(s, fmt)` gives, as fields.
pub uninterp spec fn chrono_parse(s: Seq<char>, fmt: Seq<char>) -> Option<TimeFields>;

/// What `chrono` prints for the date-time with the given fields under `fmt`;
/// `None` when the fields are not a calendar date and time of day.
pub uninterp spec fn chrono_format(t: TimeFields, fmt: Seq<char>) -> Option<Seq<char>>;

/// Parses `s` with `chrono::NaiveDateTime::parse_from_str` and the format
/// `fmt`, and reads the resulting date-time back as fields. The contract ties
/// the result to the name `chrono_parse`, and states it exactly on a text in
/// the shape that `BACKUP_FILE_TIME_FORMAT` prints: chrono reads four digits
/// of year, then two digits each of month, day, hour, minute and second, with
/// the dash between, and accepts a calendar date-time. Other texts that chrono
/// also reads (shorter fields, signs, spaces) are left to the name.
#[verifier::external_body]
pub(crate) fn parse_time(s: &str, fmt: &str) -> (r: Option<BackupTime>)
    ensures
        match r {
            Some(t) => chrono_parse(s@, fmt@) == Some(t.fields()),
            None => chrono_parse(s@, fmt@) is None,
        },
        fmt@ == BACKUP_FILE_TIME_FORMAT@ && file_stamp_time(s@) is Some ==> r == file_stamp_time(
            s@,
        ),
{
    match chrono::NaiveDateTime::parse_from_str(s, fmt) {
        Ok(t) => Some(
            BackupTime {
                year: t.year(),
                month: t.month(),
                day: t.day(),
                hour: t.hour(),
                minute: t.minute(),
                second: t.second(),
            },
        ),
        Err(_) => None,
    }
}

/// Builds the `chrono::NaiveDateTime` with the given fields
/// (`NaiveDate::from_ymd_opt`, then `and_hms_opt`) and prints it with
/// `format(fmt)`; `None` when chrono refuses the fields. The format is one of
/// the two format constants of this module, which chrono accepts. The
/// contract ties the result to the name `chrono_format`, and states it
/// exactly for a calendar date-time with a year from 0 to 9999: chrono
/// accepts it, prints `%Y` as four zero-padded digits, `%y` as the year
/// modulo 100 and the other fields as two zero-padded digits. What chrono
/// prints for other years (a sign and more digits) is left to the name.
#[verifier::external_body]
pub(crate) fn format_time(t: &BackupTime, fmt: &str) -> (r: Option<String>)
    requires
        fmt@ == BACKUP_FILE_TIME_FORMAT@ || fmt@ == DISPLAY_TIME_FORMAT@,
    ensures
        match r {
            Some(s) => chrono_format(t.fields(), fmt@) == Some(s@) && (is_four_digit_time(*t)
                ==> s@ == stamp_text(*t, fmt@)),
            None => chrono_format(t.fields(), fmt@) is None && !is_four_digit_time(*t),
        },
{
    let date = chrono::NaiveDate::from_ymd_opt(t.year, t.month, t.day)?;
    let date_time = date.and_hms_opt(t.hour, t.minute, t.second)?;
    Some(date_time.format(fmt).to_string())
}

/// The text `chrono` prints for `t` under `fmt`, or nothing when the fields
/// are not a calendar date and time of day.
pub open spec fn time_text(t: BackupTime, fmt: Seq<char>) -> Seq<char> {
    if is_four_digit_time(t) {
        stamp_text(t, fmt)
    } else {
        match chrono_format(t.fields(), fmt) {
            Some(s) => s,
            None => Seq::<char>::empty(),
        }
    }
}

/// What chrono reads from `s` under `BACKUP_FILE_TIME_FORMAT`: the date-time
/// that `s` writes when it has the shape that format prints, and otherwise
/// whatever chrono makes of it.
pub open spec fn read_file_stamp(s: Seq<char>) -> Option<TimeFields> {
    match file_stamp_time(s) {
        Some(t) => Some(t.fields()),
        None => chrono_parse(s, BACKUP_FILE_TIME_FORMAT@),
    }
}

proof fn lemma_padded_digits(n: int, w: nat)
    requires
        0 <= n < pow10(w),
    ensures
        padded_digits(n, w).len() == w,
        digits_value(padded_digits(n, w)) == Some(n),
        forall|i: int| 0 <= i < w ==> (#[trigger] digit_value(padded_digits(n, w)[i])) is Some,
    decreases w,
{
    if w > 0 {
        let m = (w - 1) as nat;
        lemma_padded_digits(n / 10, m);
        let s = padded_digits(n, w);
        assert(s.drop_last() =~= padded_digits(n / 10, m));
        let d = n % 10;
        assert(digit_value(digit_char(d)) == Some(d));
        assert forall|i: int| 0 <= i < w implies (#[trigger] digit_value(s[i])) is Some by {
            if i < m {
                assert(s[i] == padded_digits(n / 10, m)[i]);
            }
        }
    }
}

/// The text that `BACKUP_FILE_TIME_FORMAT` prints for a calendar date-time
/// with a four-digit year holds no `_`, and reads back as that date-time.
pub proof fn lemma_file_stamp_roundtrip(t: BackupTime)
    requires
        is_four_digit_time(t),
    ensures
        file_stamp_time(file_stamp_text(t)) == Some(t),
        read_file_stamp(file_stamp_text(t)) == Some(t.fields()),
        !file_stamp_text(t).contains('_'),
{
    reveal_with_fuel(pow10, 5);
    let y = padded_digits(t.year as int, 4);
    let mo = padded_digits(t.month as int, 2);
    let d = padded_digits(t.day as int, 2);
    let h = padded_digits(t.hour as int, 2);
    let mi = padded_digits(t.minute as int, 2);
    let se = padded_digits(t.second as int, 2);
    lemma_padded_digits(t.year as int, 4);
    lemma_padded_digits(t.month as int, 2);
    lemma_padded_digits(t.day as int, 2);
    lemma_padded_digits(t.hour as int, 2);
    lemma_padded_digits(t.minute as int, 2);
    lemma_padded_digits(t.second as int, 2);
    let s = file_stamp_text(t);
    assert(s.len() == 15);
    assert(s.subrange(0, 4) =~= y);
    assert(s.subrange(4, 6) =~= mo);
    assert(s.subrange(6, 8) =~= d);
    assert(s[8] == '-');
    assert(s.subrange(9, 11) =~= h);
    assert(s.subrange(11, 13) =~= mi);
    assert(s.subrange(13, 15) =~= se);
    assert forall|i: int| 0 <= i < s.len() implies s[i] != '_' by {
        if i < 4 {
            assert(s[i] == y[i]);
            assert(digit_value(y[i]) is Some);
        } else if i < 6 {
            assert(s[i] == mo[i - 4]);
            assert(digit_value(mo[i - 4]) is Some);
        } else if i < 8 {
            assert(s[i] == d[i - 6]);
            assert(digit_value(d[i - 6]) is Some);
        } else if i == 8 {
        } else if i < 11 {
            assert(s[i] == h[i - 9]);
            assert(digit_value(h[i - 9]) is Some);
        } else if i < 13 {
            assert(s[i] == mi[i - 11]);
            assert(digit_value(mi[i - 11]) is Some);
        } else {
            assert(s[i] == se[i - 13]);
            assert(digit_value(se[i - 13]) is Some);
        }
    }
}

/// Prints `t` under one of the two format constants; fields that do not form
/// a calendar date-time give the empty string.
pub(crate) fn time_to_string(t: &BackupTime, fmt: &str) -> (r: String)
    requires
        fmt@ == BACKUP_FILE_TIME_FORMAT@ || fmt@ == DISPLAY_TIME_FORMAT@,
    ensures
        r@ == time_text(*t, fmt@),
{
    match format_time(t, fmt) {
        Some(s) => s,
        None => String::new(),
    }
}

/// In the order asked for, `a` must come strictly before `b`: newer first
/// when `newest_first`, older first otherwise.
pub open spec fn goes_before(a: BackupTime, b: BackupTime, newest_first: bool) -> bool {
    if newest_first {
        time_before(b, a)
    } else {
        time_before(a, b)
    }
}

/// `order` lists every index of `times` exactly once.
pub open spec fn is_permutation_of(order: Seq<usize>, n: int) -> bool {
    &&& order.len() == n
    &&& forall|i: int| 0 <= i < n ==> #[trigger] order[i] < n
    &&& forall|i: int, j: int| 0 <= i < j < n ==> order[i] != order[j]
}

/// `order` visits `times` sorted in the order asked for, and equal times keep
/// the order they were given in (a stable sort).
pub open spec fn is_stable_time_order(times: Seq<BackupTime>, order: Seq<usize>, newest_first: bool) -> bool {
    &&& is_permutation_of(order, times.len() as int)
    &&& forall|i: int, j: int|
        0 <= i < j < order.len() ==> !goes_before(
            #[trigger] times[order[j] as int],
            #[trigger] times[order[i] as int],
            newest_first,
        )
    &&& forall|i: int, j: int|
        0 <= i < j < order.len() && times[order[i] as int].fields() == times[order[j] as int].fields()
            ==> order[i] < order[j]
}

/// Whether `a` must come strictly before `b` in the order asked for.
pub fn comes_before(a: &BackupTime, b: &BackupTime, newest_first: bool) -> (r: bool)
    ensures
        r == goes_before(*a, *b, newest_first),
{
    if newest_first {
        is_before(b, a)
    } else {
        is_before(a, b)
    }
}

/// The indices of `times` in a stable sort by time, newest or oldest first.
pub fn stable_time_order(times: &Vec<BackupTime>, newest_first: bool) -> (order: Vec<usize>)
    ensures
        is_stable_time_order(times@, order@, newest_first),
{
    let mut order: Vec<usize> = Vec::new();
    let mut k: usize = 0;
    while k < times.len()
        invariant
            k <= times@.len(),
            order@.len() == k,
            forall|i: int| 0 <= i < k ==> #[trigger] order@[i] < k,
            forall|i: int, j: int| 0 <= i < j < k ==> order@[i] != order@[j],
            forall|i: int, j: int|
                0 <= i < j < k ==> !goes_before(
                    #[trigger] times@[order@[j] as int],
                    #[trigger] times@[order@[i] as int],
                    newest_first,
                ),
            forall|i: int, j: int|
                0 <= i < j < k && times@[order@[i] as int].fields() == times@[order@[j] as int].fields()
                    ==> order@[i] < order@[j],
        decreases times@.len() - k,
    {
        let t = &times[k];
        let mut p: usize = 0;
        while p < order.len() && !comes_before(t, &times[order[p]], newest_first)
            invariant
                p <= order@.len(),
                order@.len() == k,
                k < times@.len(),
                *t == times@[k as int],
                forall|i: int| 0 <= i < k ==> #[trigger] order@[i] < k,
                forall|q: int| 0 <= q < p ==> !goes_before(times@[k as int], #[trigger] times@[order@[q] as int], newest_first),
            decreases order@.len() - p,
        {
            p = p + 1;
        }
        let ghost old_order = order@;
        proof {
            assert forall|q: int| p <= q < k implies goes_before(times@[k as int], #[trigger] times@[old_order[q] as int], newest_first) by {
                lemma_time_order(times@[k as int], times@[old_order[p as int] as int], times@[old_order[q] as int]);
                lemma_time_order(times@[old_order[q] as int], times@[old_order[p as int] as int], times@[k as int]);
                lemma_time_order(times@[old_order[p as int] as int], times@[old_order[q] as int], times@[k as int]);
                lemma_time_order(times@[k as int], times@[old_order[q] as int], times@[old_order[p as int] as int]);
            }
        }
        order.insert(p, k);
        proof {
            assert forall|i: int, j: int| 0 <= i < j < k + 1 implies !goes_before(
                #[trigger] times@[order@[j] as int],
                #[trigger] times@[order@[i] as int],
                newest_first,
            ) by {
                if j < p {
                } else if j == p {
                    assert(order@[i] == old_order[i]);
                } else if i < p {
                    assert(order@[j] == old_order[j - 1]);
                    if i < p {
                        assert(order@[i] == old_order[i]);
                    }
                } else if i == p {
                    assert(order@[j] == old_order[j - 1]);
                    lemma_time_order(times@[k as int], times@[old_order[j - 1] as int], times@[k as int]);
                } else {
                    assert(order@[j] == old_order[j - 1]);
                    assert(order@[i] == old_order[i - 1]);
                }
            }
        }
        k = k + 1;
    }
    order
}

} // verus!
