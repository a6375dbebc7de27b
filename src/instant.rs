//! Rendering of timestamps as text.

use vstd::prelude::*;

use crate::source::Timestamp;

verus! {

/// The ISO 8601 rendering of the instant `unix_nanos` nanoseconds after the
/// Unix epoch, in UTC; absent where the instant cannot be rendered.
pub uninterp spec fn iso8601_text(unix_nanos: int) -> Option<Seq<char>>;

/// Relies on `gpx::Time::format`, which renders an instant in the ISO 8601
/// format and depends on the instant alone; the instant is built with
/// `time::OffsetDateTime::from_unix_timestamp_nanos`. Absent where either
/// fails.
#[verifier::external_body]
fn render_instant(t: Timestamp) -> (r: Option<String>)
    ensures
        match r {
            Some(s) => iso8601_text(t.unix_nanos as int) == Some(s@),
            None => iso8601_text(t.unix_nanos as int) is None,
        },
{
    let instant = time::OffsetDateTime::from_unix_timestamp_nanos(t.unix_nanos).ok()?;
    gpx::Time::from(instant).format().ok()
}

/// The rendering of an optional timestamp: absent when there is no timestamp
/// or when it cannot be rendered.
pub open spec fn time_text(t: Option<Timestamp>) -> Option<Seq<char>> {
    match t {
        Some(t) => iso8601_text(t.unix_nanos as int),
        None => None,
    }
}

/// Renders an optional timestamp as human-readable text.
pub fn format_time(t: Option<Timestamp>) -> (r: Option<String>)
    ensures
        match r {
            Some(s) => time_text(t) == Some(s@),
            None => time_text(t) is None,
        },
{
    match t {
        Some(t) => render_instant(t),
        None => None,
    }
}

} // verus!
