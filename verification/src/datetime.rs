//! Time-zone aware rendering of one local timestamp into the fixed
//! human-readable form `<Weekday>, <Month> <Day>, <Year> at <12h-time> <Zone>`.
use vstd::prelude::*;

verus! {

/// An instant together with the local UTC offset it was observed at.
pub struct Timestamp {
    /// Seconds since the Unix epoch.
    pub secs: i64,
    /// The local offset from UTC, in seconds.
    pub offset_secs: i32,
}

impl Timestamp {
    /// The instant is between year 1 and year 9999 and the offset is a
    /// real UTC offset (strictly less than one day): what the calendar
    /// library can always render.
    pub open spec fn wf(self) -> bool {
        -62135596800 <= self.secs <= 253402300799 && -86399 <= self.offset_secs <= 86399
    }
}

/// Whether `chrono_tz::Tz::from_str` recognizes the name as a time-zone
/// database entry.
pub uninterp spec fn zone_recognized(name: Seq<char>) -> bool;

/// The fixed-format rendering of an instant in a recognized named zone,
/// ending in the zone's abbreviation.
pub uninterp spec fn zone_formatted(secs: int, name: Seq<char>) -> Seq<char>;

/// The fixed-format rendering of an instant at a plain UTC offset, ending
/// in the numeric offset.
pub uninterp spec fn offset_formatted(secs: int, offset_secs: int) -> Seq<char>;

/// Relies on `chrono_tz::Tz::from_str`, `chrono::DateTime::from_timestamp`
/// and chrono's formatting with `"%A, %B %_d, %Y at %r %Z"`: whether a zone
/// name is recognized, and the text rendered for an instant in that zone,
/// depend only on the name and the instant.
#[verifier::external_body]
fn format_in_zone(secs: i64, zone: &str) -> (r: Option<String>)
    requires
        -62135596800 <= secs <= 253402300799,
    ensures
        (r is Some) == zone_recognized(zone@),
        r matches Some(s) ==> s@ == zone_formatted(secs as int, zone@),
{
    let tz: chrono_tz::Tz = match zone.parse() {
        Ok(t) => t,
        Err(_) => return None,
    };
    let dt = chrono::DateTime::<chrono::Utc>::from_timestamp(secs, 0)?;
    Some(dt.with_timezone(&tz).format("%A, %B %_d, %Y at %r %Z").to_string())
}

/// Relies on `chrono::FixedOffset::east_opt` (defined for offsets under one
/// day), `chrono::DateTime::from_timestamp` (defined through year 9999) and
/// chrono's formatting with `"%A, %B %_d, %Y at %r %Z"`, where `%Z` prints
/// the numeric offset: the text depends only on the instant and the offset.
#[verifier::external_body]
fn format_at_offset(secs: i64, offset_secs: i32) -> (r: Option<String>)
    requires
        -62135596800 <= secs <= 253402300799,
        -86399 <= offset_secs <= 86399,
    ensures
        r is Some,
        r matches Some(s) ==> s@ == offset_formatted(secs as int, offset_secs as int),
{
    let off = chrono::FixedOffset::east_opt(offset_secs)?;
    let dt = chrono::DateTime::<chrono::Utc>::from_timestamp(secs, 0)?;
    Some(dt.with_timezone(&off).format("%A, %B %_d, %Y at %r %Z").to_string())
}

/// What formatting returns: the named-zone rendering when an override
/// names a recognized zone, the local-offset rendering otherwise.
pub open spec fn format_datetime_spec(ts: Timestamp, tz: Option<Seq<char>>) -> Seq<char> {
    match tz {
        Option::Some(z) => if zone_recognized(z) {
            zone_formatted(ts.secs as int, z)
        } else {
            offset_formatted(ts.secs as int, ts.offset_secs as int)
        },
        Option::None => offset_formatted(ts.secs as int, ts.offset_secs as int),
    }
}

/// Renders the timestamp for humans. A recognized zone-name override wins
/// and shows the zone abbreviation; otherwise the timestamp's own offset
/// is shown numerically. Pure: reads nothing but its arguments.
pub fn format_datetime(ts: &Timestamp, tz_override: Option<&str>) -> (r: String)
    requires
        ts.wf(),
    ensures
        r@ == format_datetime_spec(
            *ts,
            match tz_override {
                Option::Some(z) => Option::Some(z@),
                Option::None => Option::<Seq<char>>::None,
            },
        ),
{
    if let Some(zone) = tz_override {
        if let Some(s) = format_in_zone(ts.secs, zone) {
            return s;
        }
    }
    match format_at_offset(ts.secs, ts.offset_secs) {
        Some(s) => s,
        None => vstd::pervasive::unreached(),
    }
}

} // verus!
