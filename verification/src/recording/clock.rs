//! Timestamp formats. The wall clock itself is an injected seam of the
//! I/O shell; the library receives instants as whole milliseconds since
//! the UNIX epoch (UTC) and renders them through `chrono`.

use vstd::prelude::*;

verus! {

/// The earliest instant `chrono` represents: -262143-01-01T00:00:00Z.
pub const MIN_UNIX_MS: i64 = -8334601315200000;

/// The latest instant `chrono` represents: 262142-12-31T23:59:59.999Z.
pub const MAX_UNIX_MS: i64 = 8210266876799999;

/// An instant `chrono` can represent.
pub open spec fn representable(unix_ms: i64) -> bool {
    MIN_UNIX_MS <= unix_ms <= MAX_UNIX_MS
}

/// What `DateTime::<Utc>::to_rfc3339_opts(format, true)` renders for the
/// instant, with `SecondsFormat::Millis` when `millis` holds and
/// `SecondsFormat::Secs` otherwise.
pub uninterp spec fn rfc3339_text(unix_ms: i64, millis: bool) -> Seq<char>;

/// What `DateTime::<Utc>::format(pattern).to_string()` renders for the
/// instant.
pub uninterp spec fn strftime_text(unix_ms: i64, pattern: Seq<char>) -> Seq<char>;

/// `chrono::DateTime::<Utc>::to_rfc3339_opts` with a `Z` suffix, on the
/// instant `DateTime::from_timestamp_millis(unix_ms)` (which exists for
/// every representable instant). The text is named by `rfc3339_text`.
#[verifier::external_body]
fn rfc3339(unix_ms: i64, millis: bool) -> (r: String)
    requires
        representable(unix_ms),
    ensures
        r@ == rfc3339_text(unix_ms, millis),
{
    let format = if millis { chrono::SecondsFormat::Millis } else { chrono::SecondsFormat::Secs };
    chrono::DateTime::from_timestamp_millis(unix_ms).unwrap().to_rfc3339_opts(format, true)
}

/// `chrono::DateTime::<Utc>::format(pattern).to_string()` on the instant
/// `DateTime::from_timestamp_millis(unix_ms)`. Only the two patterns of
/// this module are passed; both are made of valid `strftime` items, so
/// rendering cannot fail. The text is named by `strftime_text`.
#[verifier::external_body]
fn utc_format(unix_ms: i64, pattern: &str) -> (r: String)
    requires
        representable(unix_ms),
        pattern@ == folder_pattern() || pattern@ == name_pattern(),
    ensures
        r@ == strftime_text(unix_ms, pattern@),
{
    chrono::DateTime::from_timestamp_millis(unix_ms).unwrap().format(pattern).to_string()
}

/// The production wall clock.
pub struct SystemClock;

impl SystemClock {
    /// The current UTC instant as whole milliseconds since the UNIX epoch:
    /// the system time since `UNIX_EPOCH`, made a `chrono` date-time with
    /// `DateTime::from_timestamp` and read with `timestamp_millis`, as
    /// `Utc::now` does. Where `Utc::now` would panic (a system clock
    /// before the epoch) or `from_timestamp` has no date-time, the result
    /// is `None`. The value depends on the system time; a date-time lies
    /// within `chrono`'s range, so it is representable.
    #[verifier::external_body]
    pub fn now_ms(&self) -> (r: Option<i64>)
        ensures
            r matches Some(ms) ==> representable(ms),
    {
        let since_epoch = std::time::SystemTime::now().duration_since(std::time::UNIX_EPOCH).ok()?;
        let secs = i64::try_from(since_epoch.as_secs()).ok()?;
        chrono::DateTime::from_timestamp(secs, since_epoch.subsec_nanos()).map(|t| t.timestamp_millis())
    }
}

/// The folder-prefix pattern `%Y-%m-%d-%H%M%S`.
pub open spec fn folder_pattern() -> Seq<char> {
    "%Y-%m-%d-%H%M%S"@
}

/// The default-name pattern `%Y-%m-%d %H:%M:%S`.
pub open spec fn name_pattern() -> Seq<char> {
    "%Y-%m-%d %H:%M:%S"@
}

/// Event timestamp format: RFC 3339 UTC with millisecond precision
/// (`2026-08-16T22:31:05.123Z`).
pub fn event_timestamp(unix_ms: i64) -> (r: String)
    requires
        representable(unix_ms),
    ensures
        r@ == rfc3339_text(unix_ms, true),
{
    rfc3339(unix_ms, true)
}

/// Manifest `created_at` format: RFC 3339 UTC with second precision
/// (`2026-08-16T22:31:00Z`).
pub fn manifest_timestamp(unix_ms: i64) -> (r: String)
    requires
        representable(unix_ms),
    ensures
        r@ == rfc3339_text(unix_ms, false),
{
    rfc3339(unix_ms, false)
}

/// Readable workflow-folder prefix (`2026-08-16-223105`).
pub fn folder_prefix(unix_ms: i64) -> (r: String)
    requires
        representable(unix_ms),
    ensures
        r@ == strftime_text(unix_ms, folder_pattern()),
{
    utc_format(unix_ms, "%Y-%m-%d-%H%M%S")
}

/// The default workflow name when the caller passes none
/// (`2026-08-16 22:31:05`).
pub fn default_workflow_name(unix_ms: i64) -> (r: String)
    requires
        representable(unix_ms),
    ensures
        r@ == strftime_text(unix_ms, name_pattern()),
{
    utc_format(unix_ms, "%Y-%m-%d %H:%M:%S")
}

} // verus!
