//! Calendar dates and date-times, held as plain numbers, and the texts in
//! which filters and request bodies send them.
//!
//! The texts are produced by the `time` crate; what they are is stated here.
use vstd::prelude::*;
use crate::api::json::{JsonValue, JsonView, ToJson};
use crate::api::query::ParamValue;
use crate::api::text::{decimal, digits_value, lemma_decimal_fits, lemma_decimal_value, pow10};

verus! {

/// The absolute value of an integer.
pub open spec fn magnitude(x: int) -> nat {
    if x < 0 {
        (-x) as nat
    } else {
        x as nat
    }
}

/// Whether the (proleptic Gregorian) year is a leap year.
pub open spec fn is_leap_year(year: int) -> bool {
    let a = magnitude(year);
    (a % 4 == 0 && a % 100 != 0) || a % 400 == 0
}

/// The number of days of a month (1 to 12) of a year.
pub open spec fn days_in_month(year: int, month: int) -> int {
    if month == 2 {
        if is_leap_year(year) {
            29
        } else {
            28
        }
    } else if month == 4 || month == 6 || month == 9 || month == 11 {
        30
    } else {
        31
    }
}

/// Whether year, month and day name a day of the calendar that the `time`
/// crate can hold (years -9999 to 9999).
pub open spec fn is_valid_date(year: int, month: int, day: int) -> bool {
    &&& -9999 <= year <= 9999
    &&& 1 <= month <= 12
    &&& 1 <= day <= days_in_month(year, month)
}

/// `n` zeros.
pub open spec fn zeros(n: nat) -> Seq<char> {
    Seq::new(n, |i: int| '0')
}

/// The decimal text of `n`, padded with leading zeros to at least `width` digits.
pub open spec fn padded(n: nat, width: nat) -> Seq<char> {
    let d = decimal(n);
    if d.len() < width {
        zeros((width - d.len()) as nat) + d
    } else {
        d
    }
}

/// The text of a year: four digits at least, preceded by `-` when negative.
pub open spec fn year_text(year: int) -> Seq<char> {
    if year < 0 {
        "-"@ + padded(magnitude(year), 4)
    } else {
        padded(magnitude(year), 4)
    }
}

/// The text `[year]-[month]-[day]` of a date.
pub open spec fn date_text(year: int, month: int, day: int) -> Seq<char> {
    year_text(year) + "-"@ + padded(magnitude(month), 2) + "-"@ + padded(magnitude(day), 2)
}

/// The text `[hour]:[minute]:[second]` of a time of day.
pub open spec fn clock_text(hour: int, minute: int, second: int) -> Seq<char> {
    padded(magnitude(hour), 2) + ":"@ + padded(magnitude(minute), 2) + ":"@ + padded(
        magnitude(second),
        2,
    )
}

/// `s` without its trailing zeros.
pub open spec fn trim_trailing_zeros(s: Seq<char>) -> Seq<char>
    decreases s.len(),
{
    if s.len() > 0 && s.last() == '0' {
        trim_trailing_zeros(s.drop_last())
    } else {
        s
    }
}

/// The fraction of a second in RFC 3339 text: nothing for a whole second,
/// else `.` and the nine digits of the nanoseconds without trailing zeros.
pub open spec fn fraction_text(nanosecond: nat) -> Seq<char> {
    if nanosecond == 0 {
        Seq::empty()
    } else {
        "."@ + trim_trailing_zeros(padded(nanosecond, 9))
    }
}

/// A day of the calendar.
#[derive(Debug, Clone, Copy, PartialEq, Eq, Structural)]
pub struct Date {
    year: i32,
    month: u8,
    day: u8,
}

impl View for Date {
    type V = (int, int, int);

    /// Year, month (1 to 12) and day of the month.
    closed spec fn view(&self) -> (int, int, int) {
        (self.year as int, self.month as int, self.day as int)
    }
}

impl Date {
    #[verifier::type_invariant]
    spec fn inv(self) -> bool {
        is_valid_date(self.year as int, self.month as int, self.day as int)
    }

    /// The text `[year]-[month]-[day]` of the date.
    pub open spec fn text(&self) -> Seq<char> {
        date_text(self@.0, self@.1, self@.2)
    }

    /// The date of the given year, month (1 to 12) and day of the month, if
    /// there is such a date.
    pub fn from_calendar_date(year: i32, month: u8, day: u8) -> (r: Option<Date>)
        ensures
            r is Some <==> is_valid_date(year as int, month as int, day as int),
            r matches Some(d) ==> d@ == (year as int, month as int, day as int),
    {
        if year < -9999 || year > 9999 || month < 1 || month > 12 || day < 1 {
            return None;
        }
        let a: u32 = if year < 0 {
            (0 - year) as u32
        } else {
            year as u32
        };
        let leap = (a % 4 == 0 && a % 100 != 0) || a % 400 == 0;
        let last: u8 = if month == 2 {
            if leap {
                29
            } else {
                28
            }
        } else if month == 4 || month == 6 || month == 9 || month == 11 {
            30
        } else {
            31
        };
        assert(a == magnitude(year as int));
        if day > last {
            None
        } else {
            Some(Date { year, month, day })
        }
    }

    /// The year.
    pub fn year(&self) -> (r: i32)
        ensures
            r == self@.0,
    {
        self.year
    }

    /// The month, 1 to 12.
    pub fn month(&self) -> (r: u8)
        ensures
            r == self@.1,
    {
        self.month
    }

    /// The day of the month.
    pub fn day(&self) -> (r: u8)
        ensures
            r == self@.2,
    {
        self.day
    }

    /// The text `[year]-[month]-[day]` of the date.
    pub fn to_text(&self) -> (r: String)
        ensures
            r@ == self.text(),
    {
        proof {
            use_type_invariant(self);
        }
        format_date(self.year, self.month, self.day)
    }
}

/// A date is sent as the string `[year]-[month]-[day]`.
impl ToJson for Date {
    open spec fn json(&self) -> JsonView {
        JsonView::Str(self.text())
    }

    fn to_json(&self) -> (r: JsonValue) {
        JsonValue::Str(self.to_text())
    }
}

/// A date is sent as a query parameter as `[year]-[month]-[day]`.
impl ParamValue for Date {
    open spec fn param_text(&self) -> Seq<char> {
        self.text()
    }

    fn as_value(&self) -> (r: String) {
        self.to_text()
    }
}

/// A date-time is sent as a query parameter in RFC 3339, which holds years
/// from 0 to 9999 and offsets of less than 24 hours in whole minutes.
impl ParamValue for DateTime {
    open spec fn param_text(&self) -> Seq<char> {
        self@.rfc3339_text()
    }

    open spec fn param_ok(&self) -> bool {
        self@.rfc3339_ok()
    }

    fn as_value(&self) -> (r: String) {
        self.to_rfc3339()
    }
}

/// Formats a date with the `time` crate's `Date::format` and the format
/// description `[year]-[month]-[day]`.
///
/// Claimed of the crate: the year is written with at least four digits
/// (zero padded, `-` before a negative year, no sign otherwise), month and
/// day with two digits each.
#[verifier::external_body]
fn format_date(year: i32, month: u8, day: u8) -> (r: String)
    requires
        is_valid_date(year as int, month as int, day as int),
    ensures
        r@ == date_text(year as int, month as int, day as int),
{
    let month = time::Month::try_from(month).unwrap();
    let date = time::Date::from_calendar_date(year, month, day).unwrap();
    let format = time::format_description::parse("[year]-[month]-[day]").unwrap();
    date.format(&format).unwrap()
}

/// Whether hours, minutes and seconds of an offset from UTC are in range
/// (-25 to 25 hours, -59 to 59 minutes and seconds) and share one sign.
pub open spec fn is_valid_offset(hours: int, minutes: int, seconds: int) -> bool {
    &&& -25 <= hours <= 25
    &&& -59 <= minutes <= 59
    &&& -59 <= seconds <= 59
    &&& (hours >= 0 && minutes >= 0 && seconds >= 0) || (hours <= 0 && minutes <= 0 && seconds
        <= 0)
}

/// Whether hour, minute, second and nanosecond name a time of day.
pub open spec fn is_valid_clock(hour: int, minute: int, second: int, nanosecond: int) -> bool {
    &&& 0 <= hour < 24
    &&& 0 <= minute < 60
    &&& 0 <= second < 60
    &&& 0 <= nanosecond < 1_000_000_000
}

/// The mathematical value of a [`DateTime`].
pub struct DateTimeView {
    /// year, month and day
    pub date: (int, int, int),
    /// hour of the day, 0 to 23
    pub hour: int,
    /// minute, 0 to 59
    pub minute: int,
    /// second, 0 to 59
    pub second: int,
    /// nanosecond, 0 to 999999999
    pub nanosecond: int,
    /// hours of the offset from UTC
    pub offset_hours: int,
    /// minutes of the offset from UTC
    pub offset_minutes: int,
    /// seconds of the offset from UTC
    pub offset_seconds: int,
}

impl DateTimeView {
    /// Whether the offset from UTC is negative.
    pub open spec fn offset_negative(self) -> bool {
        self.offset_hours < 0 || self.offset_minutes < 0 || self.offset_seconds < 0
    }

    /// Whether RFC 3339 can express the date-time: a year from 0 to 9999 and
    /// an offset of less than 24 hours in whole minutes.
    pub open spec fn rfc3339_ok(self) -> bool {
        &&& 0 <= self.date.0 <= 9999
        &&& -23 <= self.offset_hours <= 23
        &&& self.offset_seconds == 0
    }

    /// The text `[year]-[month]-[day]T[hour]:[minute]:[second]Z`: the date and
    /// time of day as they are at the offset, followed by the letter `Z`.
    pub open spec fn filter_text(self) -> Seq<char> {
        date_text(self.date.0, self.date.1, self.date.2) + "T"@ + clock_text(
            self.hour,
            self.minute,
            self.second,
        ) + "Z"@
    }

    /// The offset in RFC 3339: `Z` for UTC, else the sign, two digits of
    /// hours, `:` and two digits of minutes.
    pub open spec fn offset_text(self) -> Seq<char> {
        if self.offset_hours == 0 && self.offset_minutes == 0 && self.offset_seconds == 0 {
            "Z"@
        } else {
            (if self.offset_negative() {
                "-"@
            } else {
                "+"@
            }) + padded(magnitude(self.offset_hours), 2) + ":"@ + padded(
                magnitude(self.offset_minutes),
                2,
            )
        }
    }

    /// The RFC 3339 text of the date-time.
    pub open spec fn rfc3339_text(self) -> Seq<char> {
        date_text(self.date.0, self.date.1, self.date.2) + "T"@ + clock_text(
            self.hour,
            self.minute,
            self.second,
        ) + fraction_text(self.nanosecond as nat) + self.offset_text()
    }
}

/// A date and time of day at an offset from UTC.
#[derive(Debug, Clone, Copy, PartialEq, Eq, Structural)]
pub struct DateTime {
    date: Date,
    hour: u8,
    minute: u8,
    second: u8,
    nanosecond: u32,
    offset_hours: i8,
    offset_minutes: i8,
    offset_seconds: i8,
}

impl View for DateTime {
    type V = DateTimeView;

    closed spec fn view(&self) -> DateTimeView {
        DateTimeView {
            date: self.date@,
            hour: self.hour as int,
            minute: self.minute as int,
            second: self.second as int,
            nanosecond: self.nanosecond as int,
            offset_hours: self.offset_hours as int,
            offset_minutes: self.offset_minutes as int,
            offset_seconds: self.offset_seconds as int,
        }
    }
}

impl DateTime {
    #[verifier::type_invariant]
    spec fn inv(self) -> bool {
        &&& is_valid_clock(
            self.hour as int,
            self.minute as int,
            self.second as int,
            self.nanosecond as int,
        )
        &&& is_valid_offset(
            self.offset_hours as int,
            self.offset_minutes as int,
            self.offset_seconds as int,
        )
    }

    /// The date-time of the given date, time of day and offset from UTC, if
    /// the time of day and the offset are in range.
    pub fn new(
        date: Date,
        hour: u8,
        minute: u8,
        second: u8,
        nanosecond: u32,
        offset_hours: i8,
        offset_minutes: i8,
        offset_seconds: i8,
    ) -> (r: Option<DateTime>)
        ensures
            r is Some <==> is_valid_clock(
                hour as int,
                minute as int,
                second as int,
                nanosecond as int,
            ) && is_valid_offset(offset_hours as int, offset_minutes as int, offset_seconds as int),
            r matches Some(d) ==> d@ == (DateTimeView {
                date: date@,
                hour: hour as int,
                minute: minute as int,
                second: second as int,
                nanosecond: nanosecond as int,
                offset_hours: offset_hours as int,
                offset_minutes: offset_minutes as int,
                offset_seconds: offset_seconds as int,
            }),
    {
        if hour >= 24 || minute >= 60 || second >= 60 || nanosecond >= 1_000_000_000 {
            return None;
        }
        if offset_hours < -25 || offset_hours > 25 || offset_minutes < -59 || offset_minutes > 59
            || offset_seconds < -59 || offset_seconds > 59 {
            return None;
        }
        let non_negative = offset_hours >= 0 && offset_minutes >= 0 && offset_seconds >= 0;
        let non_positive = offset_hours <= 0 && offset_minutes <= 0 && offset_seconds <= 0;
        if !non_negative && !non_positive {
            return None;
        }
        Some(
            DateTime {
                date,
                hour,
                minute,
                second,
                nanosecond,
                offset_hours,
                offset_minutes,
                offset_seconds,
            },
        )
    }

    /// The date-time of the given date and time of day in UTC, if the time of
    /// day is in range.
    pub fn utc(date: Date, hour: u8, minute: u8, second: u8) -> (r: Option<DateTime>)
        ensures
            r is Some <==> is_valid_clock(hour as int, minute as int, second as int, 0),
            r matches Some(d) ==> d@ == (DateTimeView {
                date: date@,
                hour: hour as int,
                minute: minute as int,
                second: second as int,
                nanosecond: 0,
                offset_hours: 0,
                offset_minutes: 0,
                offset_seconds: 0,
            }),
    {
        DateTime::new(date, hour, minute, second, 0, 0, 0, 0)
    }

    /// The date, at the offset.
    pub fn date(&self) -> (r: Date)
        ensures
            r@ == self@.date,
    {
        self.date
    }

    /// The text `[year]-[month]-[day]T[hour]:[minute]:[second]Z` of the date-time.
    pub fn to_filter_text(&self) -> (r: String)
        ensures
            r@ == self@.filter_text(),
    {
        proof {
            use_type_invariant(self);
            use_type_invariant(&self.date);
        }
        format_filter_date_time(self)
    }

    /// Whether RFC 3339 can express the date-time (see [`DateTimeView::rfc3339_ok`]).
    pub fn is_rfc3339_writable(&self) -> (r: bool)
        ensures
            r == self@.rfc3339_ok(),
    {
        self.date.year >= 0 && self.date.year <= 9999 && self.offset_hours >= -23
            && self.offset_hours <= 23 && self.offset_seconds == 0
    }

    /// The RFC 3339 text of the date-time.
    pub fn to_rfc3339(&self) -> (r: String)
        requires
            self@.rfc3339_ok(),
        ensures
            r@ == self@.rfc3339_text(),
    {
        proof {
            use_type_invariant(self);
            use_type_invariant(&self.date);
        }
        format_rfc3339(self)
    }
}

/// Formats a date-time with the `time` crate's `OffsetDateTime::format` and
/// the format description `[year]-[month]-[day]T[hour]:[minute]:[second]Z`.
///
/// Claimed of the crate: the date as [`format_date`] writes it, `T`, hour,
/// minute and second with two digits each, separated by `:`, and the
/// letter `Z`; the components are those at the date-time's own offset.
#[verifier::external_body]
fn format_filter_date_time(dt: &DateTime) -> (r: String)
    requires
        is_valid_date(dt@.date.0, dt@.date.1, dt@.date.2),
        is_valid_clock(dt@.hour, dt@.minute, dt@.second, dt@.nanosecond),
        is_valid_offset(dt@.offset_hours, dt@.offset_minutes, dt@.offset_seconds),
    ensures
        r@ == dt@.filter_text(),
{
    let month = time::Month::try_from(dt.date.month).unwrap();
    let date = time::Date::from_calendar_date(dt.date.year, month, dt.date.day).unwrap();
    let clock = time::Time::from_hms_nano(dt.hour, dt.minute, dt.second, dt.nanosecond).unwrap();
    let offset = time::UtcOffset::from_hms(dt.offset_hours, dt.offset_minutes, dt.offset_seconds);
    let description = "[year]-[month]-[day]T[hour]:[minute]:[second]Z";
    let format = time::format_description::parse(description).unwrap();
    date.with_time(clock).assume_offset(offset.unwrap()).format(&format).unwrap()
}

/// Formats a date-time with the `time` crate's `OffsetDateTime::format` and
/// the well-known format `Rfc3339`.
///
/// Claimed of the crate: on a year from 0 to 9999 and an offset of less than
/// 24 hours in whole minutes (where the crate does not fail), the text is
/// the date, `T`, the time of day, the fraction of the second without
/// trailing zeros (nothing for a whole second), and `Z` for UTC or the
/// signed offset in hours and minutes.
#[verifier::external_body]
fn format_rfc3339(dt: &DateTime) -> (r: String)
    requires
        is_valid_date(dt@.date.0, dt@.date.1, dt@.date.2),
        is_valid_clock(dt@.hour, dt@.minute, dt@.second, dt@.nanosecond),
        is_valid_offset(dt@.offset_hours, dt@.offset_minutes, dt@.offset_seconds),
        dt@.rfc3339_ok(),
    ensures
        r@ == dt@.rfc3339_text(),
{
    let month = time::Month::try_from(dt.date.month).unwrap();
    let date = time::Date::from_calendar_date(dt.date.year, month, dt.date.day).unwrap();
    let clock = time::Time::from_hms_nano(dt.hour, dt.minute, dt.second, dt.nanosecond).unwrap();
    let offset = time::UtcOffset::from_hms(dt.offset_hours, dt.offset_minutes, dt.offset_seconds);
    let value = date.with_time(clock).assume_offset(offset.unwrap());
    value.format(&time::format_description::well_known::Rfc3339).unwrap()
}

/// A number below `10` to the power `width` is padded to exactly `width` digits.
pub proof fn lemma_padded_len(n: nat, width: nat)
    requires
        1 <= width,
        n < pow10(width),
    ensures
        padded(n, width).len() == width,
{
    lemma_decimal_fits(n, width);
}

/// The dates of the years 0 to 9999 are written as `YYYY-MM-DD`: ten
/// characters, with `-` at the fifth and the eighth.
pub proof fn lemma_date_text_shape(year: int, month: int, day: int)
    requires
        is_valid_date(year, month, day),
        0 <= year,
    ensures
        date_text(year, month, day).len() == 10,
        date_text(year, month, day)[4] == '-',
        date_text(year, month, day)[7] == '-',
{
    assert(pow10(2) == 100 && pow10(4) == 10000) by {
        reveal_with_fuel(pow10, 5);
    }
    lemma_padded_len(magnitude(year), 4);
    lemma_padded_len(magnitude(month), 2);
    lemma_padded_len(magnitude(day), 2);
    reveal_strlit("-");
}

/// Zeros in front of a text of digits do not change what it reads as.
proof fn lemma_leading_zeros_value(k: nat, s: Seq<char>)
    ensures
        digits_value(zeros(k) + s) == digits_value(s),
    decreases s.len() + k,
{
    if s.len() == 0 {
        assert(zeros(k) + s =~= zeros(k));
        if k > 0 {
            assert(zeros(k).drop_last() =~= zeros((k - 1) as nat));
            lemma_leading_zeros_value((k - 1) as nat, s);
            assert(zeros((k - 1) as nat) + s =~= zeros((k - 1) as nat));
        }
    } else {
        assert((zeros(k) + s).drop_last() =~= zeros(k) + s.drop_last());
        assert((zeros(k) + s).last() == s.last());
        lemma_leading_zeros_value(k, s.drop_last());
    }
}

/// A number padded with zeros reads back as the number.
pub proof fn lemma_padded_value(n: nat, width: nat)
    ensures
        digits_value(padded(n, width)) == n,
{
    lemma_decimal_value(n);
    if decimal(n).len() < width {
        lemma_leading_zeros_value((width - decimal(n).len()) as nat, decimal(n));
    }
}

/// Reading the digits of a date's text back gives the date: the four digits
/// before the first `-` are the year, the two after it the month and the
/// last two the day, for the years 0 to 9999.
pub proof fn lemma_date_text_reads_back(year: int, month: int, day: int)
    requires
        is_valid_date(year, month, day),
        0 <= year,
    ensures
        date_text(year, month, day).len() == 10,
        date_text(year, month, day)[4] == '-',
        date_text(year, month, day)[7] == '-',
        digits_value(date_text(year, month, day).subrange(0, 4)) == year,
        digits_value(date_text(year, month, day).subrange(5, 7)) == month,
        digits_value(date_text(year, month, day).subrange(8, 10)) == day,
{
    lemma_date_text_shape(year, month, day);
    assert(pow10(2) == 100 && pow10(4) == 10000) by {
        reveal_with_fuel(pow10, 5);
    }
    lemma_padded_len(magnitude(year), 4);
    lemma_padded_len(magnitude(month), 2);
    lemma_padded_len(magnitude(day), 2);
    reveal_strlit("-");
    let t = date_text(year, month, day);
    let y = padded(magnitude(year), 4);
    assert(year_text(year) == y);
    let m = padded(magnitude(month), 2);
    let d = padded(magnitude(day), 2);
    assert(t.subrange(0, 4) =~= y);
    assert(t.subrange(5, 7) =~= m);
    assert(t.subrange(8, 10) =~= d);
    lemma_padded_value(magnitude(year), 4);
    lemma_padded_value(magnitude(month), 2);
    lemma_padded_value(magnitude(day), 2);
}

/// Reading the digits of a time of day's text back gives the time: hours,
/// minutes and seconds, two digits each, separated by `:`.
pub proof fn lemma_clock_text_reads_back(hour: int, minute: int, second: int)
    requires
        is_valid_clock(hour, minute, second, 0),
    ensures
        clock_text(hour, minute, second).len() == 8,
        clock_text(hour, minute, second)[2] == ':',
        clock_text(hour, minute, second)[5] == ':',
        digits_value(clock_text(hour, minute, second).subrange(0, 2)) == hour,
        digits_value(clock_text(hour, minute, second).subrange(3, 5)) == minute,
        digits_value(clock_text(hour, minute, second).subrange(6, 8)) == second,
{
    assert(pow10(2) == 100) by {
        reveal_with_fuel(pow10, 3);
    }
    reveal_strlit(":");
    lemma_padded_len(magnitude(hour), 2);
    lemma_padded_len(magnitude(minute), 2);
    lemma_padded_len(magnitude(second), 2);
    let t = clock_text(hour, minute, second);
    assert(t.subrange(0, 2) =~= padded(magnitude(hour), 2));
    assert(t.subrange(3, 5) =~= padded(magnitude(minute), 2));
    assert(t.subrange(6, 8) =~= padded(magnitude(second), 2));
    lemma_padded_value(magnitude(hour), 2);
    lemma_padded_value(magnitude(minute), 2);
    lemma_padded_value(magnitude(second), 2);
}

/// The text in which a filter sends a date-time reads back as its date and
/// time of day: the date's text, `T`, the time's text and `Z`.
pub proof fn lemma_filter_text_reads_back(dt: DateTimeView)
    requires
        is_valid_date(dt.date.0, dt.date.1, dt.date.2),
        0 <= dt.date.0,
        is_valid_clock(dt.hour, dt.minute, dt.second, 0),
    ensures
        dt.filter_text().len() == 20,
        dt.filter_text().subrange(0, 10) == date_text(dt.date.0, dt.date.1, dt.date.2),
        dt.filter_text()[10] == 'T',
        dt.filter_text().subrange(11, 19) == clock_text(dt.hour, dt.minute, dt.second),
        dt.filter_text()[19] == 'Z',
        digits_value(dt.filter_text().subrange(0, 4)) == dt.date.0,
        digits_value(dt.filter_text().subrange(5, 7)) == dt.date.1,
        digits_value(dt.filter_text().subrange(8, 10)) == dt.date.2,
        digits_value(dt.filter_text().subrange(11, 13)) == dt.hour,
        digits_value(dt.filter_text().subrange(14, 16)) == dt.minute,
        digits_value(dt.filter_text().subrange(17, 19)) == dt.second,
{
    reveal_strlit("T");
    reveal_strlit("Z");
    lemma_date_text_reads_back(dt.date.0, dt.date.1, dt.date.2);
    lemma_clock_text_reads_back(dt.hour, dt.minute, dt.second);
    let d = date_text(dt.date.0, dt.date.1, dt.date.2);
    let c = clock_text(dt.hour, dt.minute, dt.second);
    let t = dt.filter_text();
    assert(t.subrange(0, 10) =~= d);
    assert(t.subrange(11, 19) =~= c);
    assert(t.subrange(0, 4) =~= d.subrange(0, 4));
    assert(t.subrange(5, 7) =~= d.subrange(5, 7));
    assert(t.subrange(8, 10) =~= d.subrange(8, 10));
    assert(t.subrange(11, 13) =~= c.subrange(0, 2));
    assert(t.subrange(14, 16) =~= c.subrange(3, 5));
    assert(t.subrange(17, 19) =~= c.subrange(6, 8));
}

/// The text of a date reads back as its year, month and day, for the years
/// 0 to 9999.
pub proof fn lemma_date_reads_back(d: Date)
    requires
        is_valid_date(d@.0, d@.1, d@.2),
        0 <= d@.0,
    ensures
        d.text().len() == 10,
        digits_value(d.text().subrange(0, 4)) == d@.0,
        digits_value(d.text().subrange(5, 7)) == d@.1,
        digits_value(d.text().subrange(8, 10)) == d@.2,
{
    lemma_date_text_reads_back(d@.0, d@.1, d@.2);
}

} // verus!
