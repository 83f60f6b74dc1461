//! Dates and times, as counts of days, seconds and nanoseconds.

use vstd::prelude::*;

verus! {

/// The first second of the year -262143, the earliest that a [`Timestamp`] holds.
pub const MIN_SECS: i64 = -8334601228800;

/// The last second of the year 262142, the latest that a [`Timestamp`] holds.
pub const MAX_SECS: i64 = 8210266876799;

/// The first day of the year -262143, the earliest that a [`Date`] holds.
pub const MIN_DAYS: i32 = -95746129;

/// The last day of the year 262142, the latest that a [`Date`] holds.
pub const MAX_DAYS: i32 = 95745399;

/// Seconds and nanoseconds that stand for an instant: the second is in range,
/// and the nanoseconds pass one second only within a leap second, which the
/// last second of a minute can have.
pub open spec fn valid_instant(secs: i64, nanos: u32) -> bool {
    &&& MIN_SECS <= secs <= MAX_SECS
    &&& nanos < 1_000_000_000 || (nanos < 2_000_000_000 && secs as int % 60 == 59)
}

/// A day number that is in range.
pub open spec fn valid_day(days: i32) -> bool {
    MIN_DAYS <= days <= MAX_DAYS
}

/// A date with a time of day: the seconds since the beginning of 1970, and the
/// nanoseconds since that second.
#[derive(Debug, Clone, Copy)]
pub struct Timestamp {
    secs: i64,
    nanos: u32,
}

impl View for Timestamp {
    type V = (i64, u32);

    closed spec fn view(&self) -> (i64, u32) {
        (self.secs, self.nanos)
    }
}

impl Timestamp {
    #[verifier::type_invariant]
    spec fn well_formed(self) -> bool {
        valid_instant(self.secs, self.nanos)
    }

    /// The instant with the given seconds and nanoseconds, if there is one.
    pub fn new(secs: i64, nanos: u32) -> (timestamp: Option<Timestamp>)
        ensures
            match timestamp {
                Some(t) => valid_instant(secs, nanos) && t@ == (secs, nanos),
                None => !valid_instant(secs, nanos),
            },
    {
        if secs < MIN_SECS || secs > MAX_SECS || nanos >= 2_000_000_000 {
            return None;
        }
        if nanos >= 1_000_000_000 && (secs - MIN_SECS) % 60 != 59 {
            return None;
        }
        Some(Timestamp { secs, nanos })
    }

    /// The seconds since the beginning of 1970.
    pub fn secs(&self) -> (secs: i64)
        ensures
            secs == self@.0,
            MIN_SECS <= secs <= MAX_SECS,
    {
        proof {
            use_type_invariant(self);
        }
        self.secs
    }

    /// The nanoseconds since that second.
    pub fn nanos(&self) -> (nanos: u32)
        ensures
            nanos == self@.1,
            nanos < 2_000_000_000,
    {
        proof {
            use_type_invariant(self);
        }
        self.nanos
    }
}

/// A day, counted from the first day of the year 1, which is day 1.
#[derive(Debug, Clone, Copy)]
pub struct Date {
    days: i32,
}

impl View for Date {
    type V = i32;

    closed spec fn view(&self) -> i32 {
        self.days
    }
}

impl Date {
    #[verifier::type_invariant]
    spec fn well_formed(self) -> bool {
        valid_day(self.days)
    }

    /// The day with the given number, if it is in range.
    pub fn new(days: i32) -> (date: Option<Date>)
        ensures
            match date {
                Some(d) => valid_day(days) && d@ == days,
                None => !valid_day(days),
            },
    {
        if days < MIN_DAYS || days > MAX_DAYS {
            return None;
        }
        Some(Date { days })
    }

    /// The number of the day.
    pub fn days(&self) -> (days: i32)
        ensures
            days == self@,
    {
        self.days
    }
}

/// The instant that `chrono::DateTime::parse_from_str` reads from a text in the
/// format `%Y-%m-%d %H:%M:%S%.f%#z`, or what `{:?}` prints for its error.
pub uninterp spec fn parsed_timestamptz(text: Seq<char>) -> Result<(i64, u32), Seq<char>>;

/// The date and time that `chrono::NaiveDateTime::from_str` reads from a text.
pub uninterp spec fn parsed_datetime(text: Seq<char>) -> Option<(i64, u32)>;

/// The day that `chrono::NaiveDate::from_str` reads from a text.
pub uninterp spec fn parsed_date(text: Seq<char>) -> Option<i32>;

/// What `chrono::NaiveDateTime` displays as.
pub uninterp spec fn datetime_text(secs: i64, nanos: u32) -> Seq<char>;

/// What `{:?}` prints for `chrono::NaiveDateTime`.
pub uninterp spec fn datetime_debug_text(secs: i64, nanos: u32) -> Seq<char>;

/// What `chrono::NaiveDate` displays as.
pub uninterp spec fn date_text(days: i32) -> Seq<char>;

/// What `chrono::DateTime<Utc>` gives in the format `%Y-%m-%d %H:%M:%S%.f UTC`.
pub uninterp spec fn utc_format_text(secs: i64, nanos: u32) -> Seq<char>;

/// `chrono::DateTime::parse_from_str` with the format `%Y-%m-%d %H:%M:%S%.f%#z`,
/// in UTC. The contract names the result [`parsed_timestamptz`], and says that
/// an instant that was read is one that `chrono` can hold. An error is handed
/// out in its `Debug` form.
#[verifier::external_body]
fn parse_offset_datetime(text: &str) -> (parsed: Result<(i64, u32), String>)
    ensures
        match parsed {
            Ok(t) => parsed_timestamptz(text@) == Ok::<(i64, u32), Seq<char>>(t) && valid_instant(
                t.0,
                t.1,
            ),
            Err(e) => parsed_timestamptz(text@) == Err::<(i64, u32), Seq<char>>(e@),
        },
{
    chrono::DateTime::parse_from_str(text, "%Y-%m-%d %H:%M:%S%.f%#z")
        .map(|t| t.to_utc())
        .map(|t| (t.timestamp(), t.timestamp_subsec_nanos()))
        .map_err(|e| format!("{:?}", e))
}

/// `chrono::NaiveDateTime::from_str`, read as if in UTC. The contract names the
/// result [`parsed_datetime`], and says that it is one that `chrono` can hold.
#[verifier::external_body]
fn parse_naive_datetime(text: &str) -> (parsed: Option<(i64, u32)>)
    ensures
        parsed == parsed_datetime(text@),
        parsed matches Some(t) ==> valid_instant(t.0, t.1),
{
    let parsed: Option<chrono::NaiveDateTime> = text.parse().ok();
    parsed.map(|t| (t.and_utc().timestamp(), t.and_utc().timestamp_subsec_nanos()))
}

/// `chrono::NaiveDate::from_str`, and the number of the day. The contract names
/// the result [`parsed_date`], and says that it is one that `chrono` can hold.
#[verifier::external_body]
fn parse_naive_date(text: &str) -> (parsed: Option<i32>)
    ensures
        parsed == parsed_date(text@),
        parsed matches Some(days) ==> valid_day(days),
{
    let parsed: Option<chrono::NaiveDate> = text.parse().ok();
    parsed.map(|d| chrono::Datelike::num_days_from_ce(&d))
}

/// The `Display` form of `chrono::NaiveDateTime`, named [`datetime_text`].
#[verifier::external_body]
fn display_naive_datetime(secs: i64, nanos: u32) -> (text: String)
    requires
        valid_instant(secs, nanos),
    ensures
        text@ == datetime_text(secs, nanos),
{
    chrono::DateTime::from_timestamp(secs, nanos).unwrap().naive_utc().to_string()
}

/// The `Display` form of `chrono::NaiveDate`, named [`date_text`].
#[verifier::external_body]
fn display_naive_date(days: i32) -> (text: String)
    requires
        valid_day(days),
    ensures
        text@ == date_text(days),
{
    chrono::NaiveDate::from_num_days_from_ce_opt(days).unwrap().to_string()
}

/// The `Display` form of `chrono::DateTime<Utc>`: that of the date and time
/// without a zone, then a space and `UTC`.
#[verifier::external_body]
fn display_utc(secs: i64, nanos: u32) -> (text: String)
    requires
        valid_instant(secs, nanos),
    ensures
        text@ == datetime_text(secs, nanos) + " UTC"@,
{
    chrono::DateTime::from_timestamp(secs, nanos).unwrap().to_string()
}

/// The `Debug` form of `chrono::NaiveDateTime`, named [`datetime_debug_text`].
#[verifier::external_body]
fn debug_naive_datetime(secs: i64, nanos: u32) -> (text: String)
    requires
        valid_instant(secs, nanos),
    ensures
        text@ == datetime_debug_text(secs, nanos),
{
    format!("{:?}", chrono::DateTime::from_timestamp(secs, nanos).unwrap().naive_utc())
}

/// The `Debug` form of `chrono::DateTime<Utc>`: that of the date and time without
/// a zone, then `Z`.
#[verifier::external_body]
fn debug_utc(secs: i64, nanos: u32) -> (text: String)
    requires
        valid_instant(secs, nanos),
    ensures
        text@ == datetime_debug_text(secs, nanos) + "Z"@,
{
    format!("{:?}", chrono::DateTime::from_timestamp(secs, nanos).unwrap())
}

/// `chrono::DateTime::format` with the format `%Y-%m-%d %H:%M:%S%.f UTC`. The
/// contract names the text [`utc_format_text`].
#[verifier::external_body]
fn format_utc(secs: i64, nanos: u32) -> (text: String)
    requires
        valid_instant(secs, nanos),
    ensures
        text@ == utc_format_text(secs, nanos),
{
    let instant = chrono::DateTime::from_timestamp(secs, nanos).unwrap();
    instant.format("%Y-%m-%d %H:%M:%S%.f UTC").to_string()
}

/// A timestamp, or nothing, by its view.
pub open spec fn timestamp_option(timestamp: Option<Timestamp>) -> Option<(i64, u32)> {
    match timestamp {
        Some(t) => Some(t@),
        None => None,
    }
}

/// A day, or nothing, by its view.
pub open spec fn date_option(date: Option<Date>) -> Option<i32> {
    match date {
        Some(d) => Some(d@),
        None => None,
    }
}

/// A timestamp or the text of an error, by their views.
pub open spec fn timestamp_result(result: Result<Timestamp, String>) -> Result<
    (i64, u32),
    Seq<char>,
> {
    match result {
        Ok(t) => Ok(t@),
        Err(e) => Err(e@),
    }
}

impl Timestamp {
    /// Reads a date, a time and a zone offset, such as `2024-05-01 10:20:30.5+00`.
    pub fn parse_with_offset(text: &str) -> (timestamp: Result<Timestamp, String>)
        ensures
            timestamp_result(timestamp) == parsed_timestamptz(text@),
    {
        match parse_offset_datetime(text) {
            Ok(t) => Ok(Timestamp { secs: t.0, nanos: t.1 }),
            Err(e) => Err(e),
        }
    }

    /// Reads a date and a time without a zone, such as `2024-05-01T10:20:30.5`.
    pub fn parse_naive(text: &str) -> (timestamp: Option<Timestamp>)
        ensures
            timestamp_option(timestamp) == parsed_datetime(text@),
    {
        match parse_naive_datetime(text) {
            Some(t) => Some(Timestamp { secs: t.0, nanos: t.1 }),
            None => None,
        }
    }

    /// The date and time, without a zone.
    pub fn to_naive_text(&self) -> (text: String)
        ensures
            text@ == datetime_text(self@.0, self@.1),
    {
        proof {
            use_type_invariant(self);
        }
        display_naive_datetime(self.secs, self.nanos)
    }

    /// The date and time, followed by `UTC`.
    pub fn to_utc_text(&self) -> (text: String)
        ensures
            text@ == datetime_text(self@.0, self@.1) + " UTC"@,
    {
        proof {
            use_type_invariant(self);
        }
        display_utc(self.secs, self.nanos)
    }

    /// The date and time, without a zone, as a diagnostic shows them.
    pub fn describe_naive(&self) -> (text: String)
        ensures
            text@ == datetime_debug_text(self@.0, self@.1),
    {
        proof {
            use_type_invariant(self);
        }
        debug_naive_datetime(self.secs, self.nanos)
    }

    /// The date and time in UTC, as a diagnostic shows them.
    pub fn describe_utc(&self) -> (text: String)
        ensures
            text@ == datetime_debug_text(self@.0, self@.1) + "Z"@,
    {
        proof {
            use_type_invariant(self);
        }
        debug_utc(self.secs, self.nanos)
    }

    /// The date and time as a literal of the event history holds it.
    pub fn to_history_text(&self) -> (text: String)
        ensures
            text@ == utc_format_text(self@.0, self@.1),
    {
        proof {
            use_type_invariant(self);
        }
        format_utc(self.secs, self.nanos)
    }
}

impl Date {
    /// Reads a date such as `2024-05-01`.
    pub fn parse(text: &str) -> (date: Option<Date>)
        ensures
            date_option(date) == parsed_date(text@),
    {
        match parse_naive_date(text) {
            Some(days) => Some(Date { days }),
            None => None,
        }
    }

    /// The date as year, month and day.
    pub fn to_text(&self) -> (text: String)
        ensures
            text@ == date_text(self@),
    {
        proof {
            use_type_invariant(self);
        }
        display_naive_date(self.days)
    }
}

/// Instants reach from the first second of the first day that a date can be to the last
/// second of the last, and a nanosecond count of a second or more stands only for the leap
/// second at the end of a minute.
pub proof fn law_which_instants_there_are(secs: i64, nanos: u32, days: i32)
    ensures
        valid_day(days) <==> -95_746_129 <= days <= 95_745_399,
        valid_instant(secs, nanos) <==> {
            &&& (-95_746_129 - 719_163) * 86_400 <= secs < (95_745_399 - 719_163 + 1) * 86_400
            &&& nanos < 1_000_000_000 || nanos < 2_000_000_000 && secs as int % 60 == 59
        },
{
}

/// The views of instants and of days leave nothing out.
proof fn law_times_are_seen_whole(instant: Timestamp, date: Date, error: String)
    ensures
        instant@ == (instant.secs, instant.nanos),
        date@ == date.days,
        timestamp_option(Some(instant)) == Some(instant@),
        timestamp_option(None) is None,
        date_option(Some(date)) == Some(date@),
        date_option(None) is None,
        timestamp_result(Ok(instant)) == Ok::<(i64, u32), Seq<char>>(instant@),
        timestamp_result(Err(error)) == Err::<(i64, u32), Seq<char>>(error@),
{
}

} // verus!
