//! What only the host or an outside crate can give: fresh identifiers, the
//! clock, the local time zone.
use vstd::prelude::*;
use crate::session::CivilTime;
use chrono::{Datelike, Timelike};

verus! {

pub open spec fn is_lower_hex(c: char) -> bool {
    ('0' <= c && c <= '9') || ('a' <= c && c <= 'f')
}

/// The hyphenated lowercase text of a version-4, RFC 4122 variant UUID:
/// `xxxxxxxx-xxxx-4xxx-yxxx-xxxxxxxxxxxx` with `y` one of `8`, `9`, `a`, `b`.
pub open spec fn is_uuid_v4(s: Seq<char>) -> bool {
    &&& s.len() == 36
    &&& forall|i: int|
        0 <= i < 36 ==> (if i == 8 || i == 13 || i == 18 || i == 23 {
            #[trigger] s[i] == '-'
        } else {
            is_lower_hex(s[i])
        })
    &&& s[14] == '4'
    &&& (s[19] == '8' || s[19] == '9' || s[19] == 'a' || s[19] == 'b')
}

/// Relies on `uuid::Uuid::new_v4` and its `Display`: a random version-4 UUID,
/// written hyphenated in lowercase.
#[verifier::external_body]
pub(crate) fn new_uuid_v4() -> (r: String)
    ensures
        is_uuid_v4(r@),
{
    uuid::Uuid::new_v4().to_string()
}

/// Relies on `chrono::Utc::now` and `DateTime::timestamp`: the current time in
/// seconds since the Unix epoch.
#[verifier::external_body]
pub(crate) fn unix_now() -> (r: i64) {
    chrono::Utc::now().timestamp()
}

/// Relies on `chrono::DateTime::from_timestamp` and `with_timezone(&Local)`: the
/// wall-clock time of a Unix timestamp in the machine's time zone, or `None`
/// when chrono cannot represent the timestamp. chrono's month, day, hour and
/// minute accessors stay in their calendar ranges.
#[verifier::external_body]
pub(crate) fn local_time_of(timestamp: i64) -> (r: Option<CivilTime>)
    ensures
        r matches Some(c) ==> c.wf(),
{
    let utc = chrono::DateTime::from_timestamp(timestamp, 0)?;
    let local = utc.with_timezone(&chrono::Local);
    Some(CivilTime {
        year: local.year(),
        month: local.month(),
        day: local.day(),
        hour: local.hour(),
        minute: local.minute(),
    })
}

#[verifier::external_type_specification]
#[verifier::external_body]
pub struct ExInstant(std::time::Instant);

/// The monotonic clock now.
pub assume_specification[ std::time::Instant::now ]() -> std::time::Instant;

/// Time passed since an instant; depends on the clock.
pub assume_specification[ std::time::Instant::elapsed ](i: &std::time::Instant) -> core::time::Duration;

/// Whole milliseconds of a duration.
pub assume_specification[ core::time::Duration::as_millis ](d: &core::time::Duration) -> u128;

} // verus!
