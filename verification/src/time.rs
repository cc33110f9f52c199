//! RFC 3339 timestamps, parsed and rendered by `chrono`.

use vstd::prelude::*;
use crate::models::Timestamp;
use crate::text::{trim, trim_spec};

verus! {

/// What `chrono::DateTime::parse_from_rfc3339` reads from `text`: the
/// instant's Unix seconds and sub-second nanoseconds, or nothing when `text`
/// is not RFC 3339.
pub uninterp spec fn rfc3339_instant(text: Seq<char>) -> Option<(i64, u32)>;

/// What `chrono` renders with `DateTime::<Utc>::to_rfc3339` for the instant
/// `secs`/`nanos` (empty when the instant is out of `chrono`'s range).
pub uninterp spec fn rfc3339_text(secs: i64, nanos: u32) -> Seq<char>;

/// The timestamp read from RFC 3339 text, if any.
pub open spec fn timestamp_of(text: Seq<char>) -> Option<Timestamp> {
    match rfc3339_instant(text) {
        Some(p) => Some(Timestamp { secs: p.0, nanos: p.1 }),
        None => None,
    }
}

/// What [`parse_timestamp`] reads from `raw`: nothing for blank text,
/// otherwise the RFC 3339 instant of the trimmed text, if it is one.
pub open spec fn parse_timestamp_spec(raw: Seq<char>) -> Option<Timestamp> {
    if trim_spec(raw).len() == 0 {
        None
    } else {
        timestamp_of(trim_spec(raw))
    }
}

/// `DateTime::parse_from_rfc3339(text)`, as a UTC instant.
#[verifier::external_body]
fn parse_rfc3339(text: &str) -> (r: Option<Timestamp>)
    ensures
        match rfc3339_instant(text@) {
            Some(p) => r == Some(Timestamp { secs: p.0, nanos: p.1 }),
            None => r is None,
        },
{
    chrono::DateTime::parse_from_rfc3339(text).ok().map(
        |dt| Timestamp { secs: dt.timestamp(), nanos: dt.timestamp_subsec_nanos() },
    )
}

/// `DateTime::<Utc>::from_timestamp(secs, nanos)` rendered with `to_rfc3339`.
#[verifier::external_body]
pub(crate) fn render_rfc3339(t: Timestamp) -> (r: String)
    ensures
        r@ == rfc3339_text(t.secs, t.nanos),
{
    match chrono::DateTime::<chrono::Utc>::from_timestamp(t.secs, t.nanos) {
        Some(dt) => dt.to_rfc3339(),
        None => String::new(),
    }
}

/// Best-effort parse of an API timestamp: the trimmed text read as RFC 3339;
/// `None` for blank text or on any parse failure.
pub fn parse_timestamp(raw: &str) -> (r: Option<Timestamp>)
    ensures
        r == parse_timestamp_spec(raw@),
{
    let trimmed = trim(raw);
    if trimmed.as_str().is_empty() {
        return None;
    }
    parse_rfc3339(trimmed.as_str())
}

/// The rendering of an optional timestamp: RFC 3339 when present, empty
/// when absent.
pub open spec fn timestamp_text(ts: Option<Timestamp>) -> Seq<char> {
    match ts {
        Some(t) => rfc3339_text(t.secs, t.nanos),
        None => Seq::<char>::empty(),
    }
}

/// Render an optional timestamp: RFC 3339 when present, empty when absent.
pub fn render_timestamp(ts: &Option<Timestamp>) -> (r: String)
    ensures
        r@ == timestamp_text(*ts),
{
    match ts {
        Some(t) => render_rfc3339(*t),
        None => String::new(),
    }
}

} // verus!
