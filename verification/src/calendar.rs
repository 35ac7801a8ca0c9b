//! Calendar time as plain numbers, and its textual forms as `chrono` writes
//! them.

use vstd::prelude::*;

verus! {

/// A date and a time of day without a time zone, field by field.  Any
/// combination of numbers can be held; whether it names a moment of the
/// calendar is decided when it is rendered.
#[derive(Clone, Copy, Debug, PartialEq, Eq, Structural)]
pub struct CivilTime {
    pub year: i32,
    pub month: u32,
    pub day: u32,
    pub hour: u32,
    pub minute: u32,
    pub second: u32,
    /// Microseconds past the second.
    pub micro: u32,
}

/// What `chrono` prints for the date-time with these fields
/// (`year-month-day hour:minute:second` with an optional fraction), or
/// `None` where the fields name no date or no time of day.
pub uninterp spec fn naive_datetime_text(
    year: int,
    month: int,
    day: int,
    hour: int,
    minute: int,
    second: int,
    micro: int,
) -> Option<Seq<char>>;

/// What `chrono` writes for the date-time with these fields, to the
/// second, under a `strftime` pattern; `None` where the fields name no date
/// or no time of day, or where the pattern cannot be formatted.
pub uninterp spec fn formatted_moment(
    pattern: Seq<char>,
    year: int,
    month: int,
    day: int,
    hour: int,
    minute: int,
    second: int,
) -> Option<Seq<char>>;

impl CivilTime {
    /// The display text of this date-time: see [`naive_datetime_text`].
    pub open spec fn text(self) -> Option<Seq<char>> {
        naive_datetime_text(
            self.year as int,
            self.month as int,
            self.day as int,
            self.hour as int,
            self.minute as int,
            self.second as int,
            self.micro as int,
        )
    }

    /// This date-time, to the second, written under `pattern`: see
    /// [`formatted_moment`].
    pub open spec fn formatted(self, pattern: Seq<char>) -> Option<Seq<char>> {
        formatted_moment(
            pattern,
            self.year as int,
            self.month as int,
            self.day as int,
            self.hour as int,
            self.minute as int,
            self.second as int,
        )
    }
}

/// Builds a `chrono::NaiveDateTime` with `NaiveDate::from_ymd_opt` and
/// `NaiveTime::from_hms_micro_opt` and prints it with its `Display` impl.
///
/// Trusted: the contract only gives the outcome its name,
/// [`naive_datetime_text`]; it is `None` exactly when one of the two
/// constructors refuses its fields.
#[verifier::external_body]
pub(crate) fn display_datetime(t: &CivilTime) -> (r: Option<String>)
    ensures
        r matches Some(s) ==> naive_datetime_text(
            t.year as int,
            t.month as int,
            t.day as int,
            t.hour as int,
            t.minute as int,
            t.second as int,
            t.micro as int,
        ) == Some(s@),
        r is None ==> naive_datetime_text(
            t.year as int,
            t.month as int,
            t.day as int,
            t.hour as int,
            t.minute as int,
            t.second as int,
            t.micro as int,
        ) is None,
{
    let date = chrono::NaiveDate::from_ymd_opt(t.year, t.month, t.day)?;
    let time = chrono::NaiveTime::from_hms_micro_opt(t.hour, t.minute, t.second, t.micro)?;
    Some(chrono::NaiveDateTime::new(date, time).to_string())
}

/// Builds a `chrono::NaiveDateTime` with `NaiveDate::from_ymd_opt` and
/// `NaiveDate::and_hms_opt`, and writes it with `NaiveDateTime::format`
/// under `pattern`, through `DelayedFormat::write_to`.
///
/// Trusted: the contract only gives the outcome its name,
/// [`formatted_moment`]; it is `None` when one of the two constructors
/// refuses its fields or when `write_to` reports an error, as it does for a
/// pattern that it cannot format.
#[verifier::external_body]
pub(crate) fn format_moment(t: &CivilTime, pattern: &str) -> (r: Option<String>)
    ensures
        r matches Some(s) ==> formatted_moment(
            pattern@,
            t.year as int,
            t.month as int,
            t.day as int,
            t.hour as int,
            t.minute as int,
            t.second as int,
        ) == Some(s@),
        r is None ==> formatted_moment(
            pattern@,
            t.year as int,
            t.month as int,
            t.day as int,
            t.hour as int,
            t.minute as int,
            t.second as int,
        ) is None,
{
    let date = chrono::NaiveDate::from_ymd_opt(t.year, t.month, t.day)?;
    let moment = date.and_hms_opt(t.hour, t.minute, t.second)?;
    let mut text = String::new();
    moment.format(pattern).write_to(&mut text).ok()?;
    Some(text)
}

} // verus!
