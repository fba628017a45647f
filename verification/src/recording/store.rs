//! The persistence rules of the workflow store.
//!
//! The file I/O — folder creation, temp-file-plus-rename writes, flushed
//! appends, `O_NOFOLLOW` opens — belongs to the I/O shell. What is decided
//! here: which ids are acceptable (traversal confinement), which
//! screenshot variants exist, when an event's recorded shot paths are
//! canonical, which manifests may be saved, how the event log splits into
//! complete lines and a possibly torn final line, how a listing row is
//! summarized, and the newest-first listing order.

use vstd::prelude::*;

use crate::domain::schema::{
    element_suffix, full_suffix, window_suffix, Event, Manifest, SCHEMA_VERSION,
};
use crate::recording::clock::{
    folder_pattern, folder_prefix, manifest_timestamp, representable, rfc3339_text, strftime_text,
};
use crate::text::{
    debug_quoted, decimal, hex_char, hex_digit, is_id_char, lemma_lex_lt_asymmetric, lemma_lex_lt_total,
    lemma_lex_lt_transitive, lex_lt, push_char, push_debug_str, push_decimal, str_eq, str_lt,
};

verus! {

/// The encoded screenshot triple for one event, as opaque PNG bytes.
#[derive(Debug, Clone, PartialEq, Eq)]
pub struct ShotPayloads {
    pub full: Vec<u8>,
    pub window: Vec<u8>,
    pub element: Vec<u8>,
}

/// The allowlisted screenshot variants of the per-event triple.
#[derive(Debug, Clone, Copy, PartialEq, Eq, Structural)]
pub enum ShotVariant {
    Full,
    Window,
    Element,
}

/// The file-name suffix of each variant.
pub open spec fn variant_suffix(variant: ShotVariant) -> Seq<char> {
    match variant {
        ShotVariant::Full => full_suffix(),
        ShotVariant::Window => window_suffix(),
        ShotVariant::Element => element_suffix(),
    }
}

impl ShotVariant {
    pub fn file_suffix(self) -> (r: &'static str)
        ensures
            r@ == variant_suffix(self),
    {
        proof {
            reveal_strlit("full");
            reveal_strlit("window");
            reveal_strlit("element");
            assert("full"@ =~= full_suffix());
            assert("window"@ =~= window_suffix());
            assert("element"@ =~= element_suffix());
        }
        match self {
            ShotVariant::Full => "full",
            ShotVariant::Window => "window",
            ShotVariant::Element => "element",
        }
    }

    /// Parses exactly `full`, `window`, or `element`.
    pub fn from_str(s: &str) -> (r: Result<ShotVariant, InvalidShotVariant>)
        ensures
            match r {
                Ok(v) => variant_suffix(v) == s@,
                Err(e) => e.0@ == s@ && forall|v: ShotVariant| variant_suffix(v) != s@,
            },
    {
        proof {
            reveal_strlit("full");
            reveal_strlit("window");
            reveal_strlit("element");
        }
        if str_eq(s, "full") {
            Ok(ShotVariant::Full)
        } else if str_eq(s, "window") {
            Ok(ShotVariant::Window)
        } else if str_eq(s, "element") {
            Ok(ShotVariant::Element)
        } else {
            assert("full"@ =~= full_suffix());
            assert("window"@ =~= window_suffix());
            assert("element"@ =~= element_suffix());
            assert forall|v: ShotVariant| variant_suffix(v) != s@ by {
                match v {
                    ShotVariant::Full => {},
                    ShotVariant::Window => {},
                    ShotVariant::Element => {},
                }
            }
            Err(InvalidShotVariant(String::from_str(s)))
        }
    }
}

impl std::str::FromStr for ShotVariant {
    type Err = InvalidShotVariant;

    fn from_str(s: &str) -> (r: Result<Self, Self::Err>)
        ensures
            match r {
                Ok(v) => variant_suffix(v) == s@,
                Err(e) => e.0@ == s@ && forall|v: ShotVariant| variant_suffix(v) != s@,
            },
    {
        ShotVariant::from_str(s)
    }
}

/// Error for a variant name outside the allowlist.
#[derive(Debug, Clone, PartialEq, Eq)]
pub struct InvalidShotVariant(pub String);

impl InvalidShotVariant {
    /// `unknown screenshot variant: {name:?} (expected full, window, or
    /// element)`.
    pub fn to_string(&self) -> (r: String)
        ensures
            r@ == "unknown screenshot variant: "@ + debug_quoted(self.0@)
                + " (expected full, window, or element)"@,
    {
        let mut s = String::from_str("unknown screenshot variant: ");
        push_debug_str(&mut s, self.0.as_str());
        s.append(" (expected full, window, or element)");
        s
    }
}

/// Errors from the persistence seam. Paths and I/O failures are carried
/// as the text the I/O shell renders for them.
#[derive(Debug, Clone, PartialEq, Eq)]
pub enum StoreError {
    InvalidWorkflowId(String),
    InvalidEventId(String),
    /// The event's recorded shot paths are not the canonical paths for its
    /// id, so the line would not point at the files the store writes.
    InvalidShotPaths { event_id: String },
    NotFound(String),
    /// A symlinked store path (its display form) was refused.
    SymlinkRejected(String),
    /// The manifest's own `id` does not name the workflow folder the save
    /// targets.
    ManifestIdMismatch { workflow_id: String, manifest_id: String },
    UnsupportedSchemaVersion(u64),
    CorruptManifest { workflow_id: String, detail: String },
    CorruptEvents { workflow_id: String, line: usize, detail: String },
    /// An I/O failure: what was attempted, and the error's text.
    Io { context: String, source: String },
}

/// The message of each store error, as its `Display` renders it.
pub open spec fn store_error_message(e: StoreError) -> Seq<char> {
    match e {
        StoreError::InvalidWorkflowId(id) => "invalid workflow id: "@ + debug_quoted(id@),
        StoreError::InvalidEventId(id) => "invalid event id: "@ + debug_quoted(id@),
        StoreError::InvalidShotPaths { event_id } => "event "@ + event_id@
            + " does not record its canonical shot paths"@,
        StoreError::NotFound(id) => "workflow not found: "@ + id@,
        StoreError::SymlinkRejected(path) => "refusing symlinked store path: "@ + path@,
        StoreError::ManifestIdMismatch { workflow_id, manifest_id } => "manifest id "@
            + debug_quoted(manifest_id@) + " does not match workflow "@ + debug_quoted(
            workflow_id@,
        ),
        StoreError::UnsupportedSchemaVersion(version) => "unsupported schema version "@
            + decimal(version as nat) + "; this build supports version "@ + decimal(
            SCHEMA_VERSION as nat,
        ),
        StoreError::CorruptManifest { workflow_id, detail } => "corrupt manifest for workflow "@
            + workflow_id@ + ": "@ + detail@,
        StoreError::CorruptEvents { workflow_id, line, detail } => "corrupt event log for workflow "@
            + workflow_id@ + " at line "@ + decimal(line as nat) + ": "@ + detail@,
        StoreError::Io { context, source } => context@ + ": "@ + source@,
    }
}

impl StoreError {
    /// The error's message.
    pub fn to_string(&self) -> (r: String)
        ensures
            r@ == store_error_message(*self),
    {
        match self {
            StoreError::InvalidWorkflowId(id) => {
                let mut s = String::from_str("invalid workflow id: ");
                push_debug_str(&mut s, id.as_str());
                s
            },
            StoreError::InvalidEventId(id) => {
                let mut s = String::from_str("invalid event id: ");
                push_debug_str(&mut s, id.as_str());
                s
            },
            StoreError::InvalidShotPaths { event_id } => {
                let mut s = String::from_str("event ");
                s.append(event_id.as_str());
                s.append(" does not record its canonical shot paths");
                s
            },
            StoreError::NotFound(id) => {
                let mut s = String::from_str("workflow not found: ");
                s.append(id.as_str());
                s
            },
            StoreError::SymlinkRejected(path) => {
                let mut s = String::from_str("refusing symlinked store path: ");
                s.append(path.as_str());
                s
            },
            StoreError::ManifestIdMismatch { workflow_id, manifest_id } => {
                let mut s = String::from_str("manifest id ");
                push_debug_str(&mut s, manifest_id.as_str());
                s.append(" does not match workflow ");
                push_debug_str(&mut s, workflow_id.as_str());
                s
            },
            StoreError::UnsupportedSchemaVersion(version) => {
                let mut s = String::from_str("unsupported schema version ");
                push_decimal(&mut s, *version);
                s.append("; this build supports version ");
                push_decimal(&mut s, SCHEMA_VERSION as u64);
                s
            },
            StoreError::CorruptManifest { workflow_id, detail } => {
                let mut s = String::from_str("corrupt manifest for workflow ");
                s.append(workflow_id.as_str());
                s.append(": ");
                s.append(detail.as_str());
                s
            },
            StoreError::CorruptEvents { workflow_id, line, detail } => {
                let mut s = String::from_str("corrupt event log for workflow ");
                s.append(workflow_id.as_str());
                s.append(" at line ");
                push_decimal(&mut s, *line as u64);
                s.append(": ");
                s.append(detail.as_str());
                s
            },
            StoreError::Io { context, source } => {
                let mut s = String::new();
                s.append(context.as_str());
                s.append(": ");
                s.append(source.as_str());
                s
            },
        }
    }
}

/// A store id: non-empty, at most 128 characters, each an ASCII letter,
/// digit, `-` or `_`, so it can never escape the store root.
pub open spec fn valid_id(id: Seq<char>) -> bool {
    &&& 0 < id.len() <= 128
    &&& forall|i: int| 0 <= i < id.len() ==> is_id_char(#[trigger] id[i])
}

/// An accepted id can never leave the store root: it holds no path
/// separator and no dot, so it is neither `.` nor `..` nor a path, and
/// the screenshot file an accepted event id names stays a plain file name
/// inside `shots/`.
pub proof fn lemma_valid_ids_stay_confined(id: Seq<char>, variant: ShotVariant)
    requires
        valid_id(id),
    ensures
        !id.contains('/'),
        !id.contains('\\'),
        !id.contains('.'),
        id.len() > 0,
        !shot_file_name(id, variant).contains('/'),
{
    assert(!id.contains('/'));
    assert(!id.contains('.'));
    let name = shot_file_name(id, variant);
    assert forall|i: int| 0 <= i < name.len() implies name[i] != '/' by {
        if i >= id.len() {
            match variant {
                ShotVariant::Full => {},
                ShotVariant::Window => {},
                ShotVariant::Element => {},
            }
        }
    }
}

fn id_is_valid(id: &str) -> (r: bool)
    ensures
        r == valid_id(id@),
{
    let n = id.unicode_len();
    if n == 0 || n > 128 {
        return false;
    }
    let mut i: usize = 0;
    while i < n
        invariant
            n == id@.len(),
            0 <= i <= n,
            forall|j: int| 0 <= j < i ==> is_id_char(#[trigger] id@[j]),
        decreases n - i,
    {
        let c = id.get_char(i);
        let ok = ('a' <= c && c <= 'z') || ('A' <= c && c <= 'Z') || ('0' <= c && c <= '9') || c
            == '-' || c == '_';
        if !ok {
            return false;
        }
        i = i + 1;
    }
    true
}

/// Rejects workflow ids that could escape the store root.
pub fn validate_workflow_id(id: &str) -> (r: Result<(), StoreError>)
    ensures
        match r {
            Ok(()) => valid_id(id@),
            Err(StoreError::InvalidWorkflowId(bad)) => !valid_id(id@) && bad@ == id@,
            Err(_) => false,
        },
{
    if id_is_valid(id) {
        Ok(())
    } else {
        Err(StoreError::InvalidWorkflowId(String::from_str(id)))
    }
}

/// Rejects event ids that could escape the workflow's `shots/` folder.
pub fn validate_event_id(id: &str) -> (r: Result<(), StoreError>)
    ensures
        match r {
            Ok(()) => valid_id(id@),
            Err(StoreError::InvalidEventId(bad)) => !valid_id(id@) && bad@ == id@,
            Err(_) => false,
        },
{
    if id_is_valid(id) {
        Ok(())
    } else {
        Err(StoreError::InvalidEventId(String::from_str(id)))
    }
}

/// The checks `append_event` makes before any write: a valid event id
/// whose line records exactly the canonical shot paths.
pub fn check_event_for_append(event: &Event) -> (r: Result<(), StoreError>)
    ensures
        match r {
            Ok(()) => valid_id(event.id@) && event.shots.canonical_for(event.id@),
            Err(StoreError::InvalidEventId(bad)) => !valid_id(event.id@) && bad@ == event.id@,
            Err(StoreError::InvalidShotPaths { event_id }) => valid_id(event.id@)
                && !event.shots.canonical_for(event.id@) && event_id@ == event.id@,
            Err(_) => false,
        },
{
    validate_event_id(event.id.as_str())?;
    let canonical = crate::domain::schema::ShotPaths::for_event(event.id.as_str());
    if str_eq(event.shots.full.as_str(), canonical.full.as_str()) && str_eq(
        event.shots.window.as_str(),
        canonical.window.as_str(),
    ) && str_eq(event.shots.element.as_str(), canonical.element.as_str()) {
        Ok(())
    } else {
        Err(StoreError::InvalidShotPaths { event_id: event.id.clone() })
    }
}

/// A manifest's schema version must be the one this build supports.
pub fn check_schema_version(version: u64) -> (r: Result<(), StoreError>)
    ensures
        match r {
            Ok(()) => version == SCHEMA_VERSION,
            Err(e) => version != SCHEMA_VERSION && e == StoreError::UnsupportedSchemaVersion(
                version,
            ),
        },
{
    if version != SCHEMA_VERSION as u64 {
        Err(StoreError::UnsupportedSchemaVersion(version))
    } else {
        Ok(())
    }
}

/// The checks `save_manifest` makes before any write: the manifest must
/// carry the target workflow's own id and schema version 1.
pub fn check_manifest_for_save(workflow_id: &str, manifest: &Manifest) -> (r: Result<
    (),
    StoreError,
>)
    ensures
        match r {
            Ok(()) => manifest.id@ == workflow_id@ && manifest.schema_version == SCHEMA_VERSION,
            Err(StoreError::ManifestIdMismatch { workflow_id: w, manifest_id: m }) => manifest.id@
                != workflow_id@ && w@ == workflow_id@ && m@ == manifest.id@,
            Err(StoreError::UnsupportedSchemaVersion(v)) => manifest.id@ == workflow_id@
                && manifest.schema_version != SCHEMA_VERSION && v == manifest.schema_version,
            Err(_) => false,
        },
{
    if !str_eq(manifest.id.as_str(), workflow_id) {
        return Err(
            StoreError::ManifestIdMismatch {
                workflow_id: String::from_str(workflow_id),
                manifest_id: manifest.id.clone(),
            },
        );
    }
    if manifest.schema_version != SCHEMA_VERSION {
        return Err(StoreError::UnsupportedSchemaVersion(manifest.schema_version as u64));
    }
    Ok(())
}

/// `text.split('\n')`: the pieces between newlines, always at least one.
pub open spec fn split_lines(text: Seq<char>) -> Seq<Seq<char>>
    decreases text.len(),
{
    if text.len() == 0 {
        seq![Seq::empty()]
    } else if text.last() == '\n' {
        split_lines(text.drop_last()).push(Seq::empty())
    } else {
        let pieces = split_lines(text.drop_last());
        pieces.update(pieces.len() - 1, pieces.last().push(text.last()))
    }
}

/// The event log split for loading: the newline-terminated lines, plus
/// the final unterminated piece, which may be a torn append.
pub struct EventLogLines {
    pub complete: Vec<String>,
    pub torn_candidate: Option<String>,
}

/// Splits the event-log text. When the text ends with a newline (or is
/// empty) every line is complete; otherwise the last piece is the torn
/// candidate.
pub fn split_event_log(text: &str) -> (r: EventLogLines)
    ensures
        ({
            let pieces = split_lines(text@);
            let last = pieces.last();
            &&& r.complete@.len() == pieces.len() - 1
            &&& forall|i: int| 0 <= i < r.complete@.len() ==> #[trigger] r.complete@[i]@ == pieces[i]
            &&& if last.len() == 0 {
                r.torn_candidate is None
            } else {
                r.torn_candidate matches Some(t) && t@ == last
            }
        }),
{
    let n = text.unicode_len();
    let mut done: Vec<String> = Vec::new();
    let mut current = String::new();
    let mut i: usize = 0;
    while i < n
        invariant
            n == text@.len(),
            0 <= i <= n,
            done@.len() + 1 == split_lines(text@.take(i as int)).len(),
            forall|j: int| 0 <= j < done@.len() ==> #[trigger] done@[j]@ == split_lines(text@.take(i as int))[j],
            current@ == split_lines(text@.take(i as int)).last(),
        decreases n - i,
    {
        let c = text.get_char(i);
        proof {
            assert(text@.take(i + 1).drop_last() =~= text@.take(i as int));
            assert(text@.take(i + 1).last() == c);
        }
        if c == '\n' {
            let finished = current;
            done.push(finished);
            current = String::new();
        } else {
            push_char(&mut current, c);
        }
        i = i + 1;
    }
    assert(text@.take(n as int) =~= text@);
    if current.unicode_len() == 0 {
        EventLogLines { complete: done, torn_candidate: None }
    } else {
        EventLogLines { complete: done, torn_candidate: Some(current) }
    }
}

/// Every complete line parsed as an event.
pub open spec fn all_parsed(parsed: Seq<Result<Event, String>>) -> bool {
    forall|i: int| 0 <= i < parsed.len() ==> #[trigger] parsed[i] is Ok
}

/// The events of parse results that all succeeded.
pub open spec fn parsed_events(parsed: Seq<Result<Event, String>>) -> Seq<Event> {
    parsed.map_values(|p: Result<Event, String>| p->Ok_0)
}

/// The event a torn final line contributes: itself when it parses,
/// nothing otherwise.
pub open spec fn torn_events(torn: Option<Result<Event, String>>) -> Seq<Event> {
    match torn {
        Some(Ok(event)) => seq![event],
        _ => Seq::empty(),
    }
}

/// The loaded event log from the parse results of its complete lines (in
/// order) and of its torn final line, if any. The first complete line
/// that does not parse is reported with its 1-based line number and the
/// parser's message; a torn final line is kept only when it parses.
pub fn assemble_events(
    workflow_id: &str,
    parsed: Vec<Result<Event, String>>,
    torn: Option<Result<Event, String>>,
) -> (r: Result<Vec<Event>, StoreError>)
    ensures
        all_parsed(parsed@) ==> (r matches Ok(events) && events@ == parsed_events(parsed@)
            + torn_events(torn)),
        !all_parsed(parsed@) ==> exists|i: int|
            0 <= i < parsed@.len() && (forall|j: int| 0 <= j < i ==> #[trigger] parsed@[j] is Ok)
                && (#[trigger] parsed@[i] matches Err(detail) && r matches Err(
                StoreError::CorruptEvents { workflow_id: w, line, detail: d },
            ) && w@ == workflow_id@ && line == i + 1 && d == detail),
{
    let count: usize = parsed.len();
    let ghost all = parsed@;
    assert(all.len() == count);
    let mut events: Vec<Event> = Vec::new();
    for item in it: parsed.into_iter()
        invariant
            it.seq() == all,
            all.len() <= usize::MAX,
            events@.len() == it.index(),
            forall|j: int| 0 <= j < it.index() ==> #[trigger] all[j] is Ok,
            events@ == parsed_events(all.take(it.index() as int)),
    {
        let ghost k = it.index();
        match item {
            Ok(event) => {
                events.push(event);
                proof {
                    assert(parsed_events(all.take(k + 1)) =~= parsed_events(all.take(k as int)).push(
                        all[k as int]->Ok_0,
                    ));
                }
            },
            Err(detail) => {
                proof {
                    assert(k < all.len());
                    assert(all[k as int] matches Err(d) && d == detail);
                }
                return Err(
                    StoreError::CorruptEvents {
                        workflow_id: String::from_str(workflow_id),
                        line: events.len() + 1,
                        detail,
                    },
                );
            },
        }
    }
    proof {
        assert(all.take(all.len() as int) =~= all);
    }
    match torn {
        Some(Ok(event)) => events.push(event),
        _ => {},
    }
    proof {
        assert(events@ =~= parsed_events(all) + torn_events(torn));
    }
    Ok(events)
}

/// One row of the workflow list: step count from the manifest steps, the
/// first-to-last event span, and the first step's window-crop reference.
/// Damaged event logs degrade to `None` fields instead of hiding the row.
#[derive(Debug, Clone, PartialEq, Eq)]
pub struct WorkflowSummary {
    pub id: String,
    pub name: String,
    pub created_at: String,
    /// Number of manifest steps (not raw events).
    pub step_count: u64,
    /// Milliseconds from the first to the last event timestamp; zero with
    /// fewer than two events; `None` when the event log is unreadable.
    pub duration_ms: Option<u64>,
    /// Event id whose window crop is the row thumbnail (the first step's
    /// first event); `None` when there is no step or the event log is
    /// unreadable.
    pub thumbnail_event_id: Option<String>,
}

/// The result of `load`: the manifest plus the raw event log.
#[derive(Debug, Clone, PartialEq, Eq)]
pub struct LoadedWorkflow {
    pub manifest: Manifest,
    pub events: Vec<Event>,
}

/// The instant `DateTime::parse_from_rfc3339` reads from a timestamp, as
/// whole seconds since the UNIX epoch plus nanoseconds, or `None` when
/// the text is not RFC 3339.
pub uninterp spec fn rfc3339_instant(ts: Seq<char>) -> Option<(i64, u32)>;

/// `chrono::DateTime::parse_from_rfc3339`, read back as
/// `(timestamp(), timestamp_subsec_nanos())`. The result is named by
/// `rfc3339_instant`. A parsed instant is a `chrono` date-time: its
/// sub-second part is below two seconds (a leap second `:60` reads as
/// second 59 plus 1_000_000_000 ns) and its UTC seconds lie within
/// `chrono`'s range (-262143-01-01 to 262142-12-31).
#[verifier::external_body]
fn parse_rfc3339(ts: &str) -> (r: Option<(i64, u32)>)
    ensures
        r == rfc3339_instant(ts@),
        r matches Some(instant) ==> instant.1 < 2_000_000_000,
        r matches Some(instant) ==> -8334601315200 <= instant.0 <= 8210266876799,
{
    chrono::DateTime::parse_from_rfc3339(ts).ok().map(|t| (t.timestamp(), t.timestamp_subsec_nanos()))
}

/// Seconds of the UTC day of a timestamp.
pub open spec fn second_of_day(secs: i64) -> int {
    (secs as int) % 86_400
}

/// The leap second that `last - first` counts beyond the plain second
/// difference: `chrono` counts a leap second when the time of day moves
/// past one (`NaiveTime::signed_duration_since`).
pub open spec fn leap_adjust(first: (i64, u32), last: (i64, u32)) -> int {
    if second_of_day(last.0) > second_of_day(first.0) && first.1 >= 1_000_000_000 {
        1
    } else if second_of_day(last.0) < second_of_day(first.0) && last.1 >= 1_000_000_000 {
        -1
    } else {
        0
    }
}

/// Nanoseconds of `last - first` as `chrono` subtracts two date-times.
pub open spec fn span_ns(first: (i64, u32), last: (i64, u32)) -> int {
    (last.0 - first.0 + leap_adjust(first, last)) * 1_000_000_000 + (last.1 - first.1)
}

/// Whole milliseconds from `first` to `last` (`num_milliseconds`, which
/// truncates toward zero), clamped at zero.
pub open spec fn span_ms(first: (i64, u32), last: (i64, u32)) -> int {
    let ns = span_ns(first, last);
    if ns <= 0 { 0 } else { ns / 1_000_000 }
}

/// The second of the UTC day of a timestamp that `chrono` can hold.
fn second_of_day_of(secs: i64) -> (r: i64)
    requires
        -8334601315200 <= secs <= 8210266876799,
    ensures
        r == second_of_day(secs),
        0 <= r < 86_400,
{
    // 8334601315200 is 96465293 whole days.
    let shifted: u64 = (secs + 8334601315200) as u64;
    let r = (shifted % 86_400) as i64;
    proof {
        vstd::arithmetic::div_mod::lemma_mod_multiples_vanish(96465293, secs as int, 86_400);
        assert(86_400 * 96465293 + secs == shifted as int);
    }
    r
}

/// The first-to-last event span: zero with fewer than two events; `None`
/// when an endpoint timestamp does not parse.
pub open spec fn event_span(events: Seq<Event>) -> Option<int> {
    if events.len() < 2 {
        Some(0)
    } else {
        match (rfc3339_instant(events[0].ts@), rfc3339_instant(events.last().ts@)) {
            (Some(first), Some(last)) => Some(span_ms(first, last)),
            _ => None,
        }
    }
}

/// Milliseconds from the first to the last event timestamp.
pub fn event_span_ms(events: &[Event]) -> (r: Option<u64>)
    ensures
        match event_span(events@) {
            Some(ms) => r matches Some(v) && v as int == ms,
            None => r is None,
        },
{
    if events.len() < 2 {
        return Some(0);
    }
    let last = match parse_rfc3339(events[events.len() - 1].ts.as_str()) {
        Some(t) => t,
        None => return None,
    };
    let first = match parse_rfc3339(events[0].ts.as_str()) {
        Some(t) => t,
        None => return None,
    };
    let last_day_second = second_of_day_of(last.0);
    let first_day_second = second_of_day_of(first.0);
    let adjust: i128 = if last_day_second > first_day_second && first.1 >= 1_000_000_000 {
        1
    } else if last_day_second < first_day_second && last.1 >= 1_000_000_000 {
        -1
    } else {
        0
    };
    let ns: i128 = (last.0 as i128 - first.0 as i128 + adjust) * 1_000_000_000 + (last.1 as i128 - first.1 as i128);
    assert(ns == span_ns(first, last));
    if ns <= 0 {
        Some(0)
    } else {
        let ms = ns / 1_000_000;
        assert(ms <= u64::MAX) by (nonlinear_arith)
            requires
                ns <= 16544868192001i128 * 1_000_000_000 + 2_000_000_000,
                ms == ns / 1_000_000,
                ns > 0,
        ;
        Some(ms as u64)
    }
}

/// The listing row of one workflow; `events` is `None` when the event log
/// could not be read.
pub fn summarize(id: String, manifest: Manifest, events: Option<Vec<Event>>) -> (r: WorkflowSummary)
    ensures
        r.id@ == id@,
        r.name@ == manifest.name@,
        r.created_at@ == manifest.created_at@,
        r.step_count == manifest.steps@.len(),
        match events {
            None => r.duration_ms is None && r.thumbnail_event_id is None,
            Some(evs) => {
                &&& match event_span(evs@) {
                    Some(ms) => r.duration_ms matches Some(v) && v as int == ms,
                    None => r.duration_ms is None,
                }
                &&& if manifest.steps@.len() > 0 && manifest.steps@[0].event_ids@.len() > 0 {
                    r.thumbnail_event_id matches Some(t) && t@ == manifest.steps@[0].event_ids@[0]@
                } else {
                    r.thumbnail_event_id is None
                }
            },
        },
{
    let step_count = manifest.steps.len() as u64;
    let (duration_ms, thumbnail_event_id) = match events {
        None => (None, None),
        Some(evs) => {
            let duration = event_span_ms(evs.as_slice());
            let thumbnail = if manifest.steps.len() > 0 && manifest.steps[0].event_ids.len() > 0 {
                Some(manifest.steps[0].event_ids[0].clone())
            } else {
                None
            };
            (duration, thumbnail)
        },
    };
    WorkflowSummary {
        id,
        name: manifest.name,
        created_at: manifest.created_at,
        step_count,
        duration_ms,
        thumbnail_event_id,
    }
}

/// Summaries in newest-first order: ids carry the creation-timestamp
/// prefix, so descending id order is newest first.
pub open spec fn newest_first(rows: Seq<WorkflowSummary>) -> bool {
    forall|i: int, j: int| 0 <= i < j < rows.len() ==> !lex_lt(#[trigger] rows[i].id@, #[trigger] rows[j].id@)
}

/// Sorts listing rows newest first (descending id), keeping every row.
pub fn sort_newest_first(rows: Vec<WorkflowSummary>) -> (r: Vec<WorkflowSummary>)
    ensures
        r@.to_multiset() == rows@.to_multiset(),
        newest_first(r@),
{
    broadcast use vstd::seq_lib::group_to_multiset_ensures, vstd::multiset::group_multiset_axioms;

    let mut rows = rows;
    let mut out: Vec<WorkflowSummary> = Vec::new();
    let ghost original = rows@;
    assert(out@.to_multiset().add(rows@.to_multiset()) =~= original.to_multiset());
    while rows.len() > 0
        invariant
            out@.to_multiset().add(rows@.to_multiset()) == original.to_multiset(),
            newest_first(out@),
        decreases rows@.len(),
    {
        let ghost rows_before = rows@;
        let item = rows.remove(0);
        proof {
            assert(rows_before.remove(0) =~= rows@);
            vstd::seq_lib::to_multiset_remove(rows_before, 0);
            assert(rows_before[0] == item);
            assert(rows_before.contains(item));
            vstd::seq_lib::to_multiset_contains(rows_before, item);
            assert(rows_before.to_multiset().count(item) > 0);
            assert(rows_before.to_multiset().remove(item).insert(item) =~= rows_before.to_multiset());
            assert(rows_before.to_multiset() =~= rows@.to_multiset().insert(item));
        }
        let mut pos: usize = out.len();
        while pos > 0 && str_lt(out[pos - 1].id.as_str(), item.id.as_str())
            invariant
                0 <= pos <= out@.len(),
                newest_first(out@),
                forall|k: int| pos <= k < out@.len() ==> lex_lt(#[trigger] out@[k].id@, item.id@),
            decreases pos,
        {
            pos = pos - 1;
        }
        proof {
            if pos > 0 {
                assert(!lex_lt(out@[pos - 1].id@, item.id@));
            }
        }
        let ghost before = out@;
        out.insert(pos, item);
        proof {
            assert(out@ == before.insert(pos as int, item));
            vstd::seq_lib::to_multiset_insert(before, pos as int, item);
            assert(out@.to_multiset() == before.to_multiset().insert(item));
            assert(out@.to_multiset().add(rows@.to_multiset()) =~= before.to_multiset().add(
                rows_before.to_multiset(),
            ));
            assert forall|i: int, j: int| 0 <= i < j < out@.len() implies !lex_lt(#[trigger] out@[i].id@, #[trigger] out@[j].id@) by {
                if j == pos && i < pos {
                    assert(out@[i] == before[i]);
                    assert(out@[j] == item);
                    let a = before[i].id@;
                    let b = before[pos - 1].id@;
                    let c = item.id@;
                    assert(!lex_lt(b, c));
                    if i < pos - 1 {
                        assert(!lex_lt(a, b));
                    }
                    if lex_lt(a, c) {
                        lemma_lex_lt_total(a, b);
                        lemma_lex_lt_total(b, c);
                        if a == b {
                        } else {
                            // b < a < c, and c <= b
                            lemma_lex_lt_transitive(b, a, c);
                            if b == c {
                                crate::text::lemma_lex_lt_irreflexive(b);
                            } else {
                                lemma_lex_lt_asymmetric(b, c);
                            }
                        }
                    }
                } else if i == pos && j > pos {
                    assert(out@[i] == item);
                    assert(out@[j] == before[j - 1]);
                    assert(lex_lt(before[j - 1].id@, item.id@));
                    lemma_lex_lt_asymmetric(before[j - 1].id@, item.id@);
                } else if i < pos && j > pos {
                    assert(out@[i] == before[i]);
                    assert(out@[j] == before[j - 1]);
                } else if i > pos {
                    assert(out@[i] == before[i - 1]);
                    assert(out@[j] == before[j - 1]);
                } else {
                    assert(out@[i] == before[i]);
                    assert(out@[j] == before[j]);
                }
            }
        }
    }
    assert(rows@.to_multiset() =~= vstd::multiset::Multiset::empty());
    assert(out@.to_multiset() =~= out@.to_multiset().add(rows@.to_multiset()));
    out
}

/// The four lowercase hexadecimal digits of the low 16 bits of `hash`,
/// most significant first (`format!("{:04x}", hash & 0xffff)`).
pub open spec fn hex4(hash: nat) -> Seq<char> {
    seq![
        hex_digit((hash / 4096) % 16),
        hex_digit((hash / 256) % 16),
        hex_digit((hash / 16) % 16),
        hex_digit(hash % 16),
    ]
}

/// The 16-bit entropy suffix of a readable folder name, from one
/// process-random 64-bit hash. Uniqueness is enforced by the folder claim,
/// not by this value.
pub fn entropy_suffix(hash: u64) -> (r: String)
    ensures
        r@ == hex4(hash as nat),
{
    let mut s = String::new();
    push_char(&mut s, hex_char(((hash / 4096) % 16) as u32));
    push_char(&mut s, hex_char(((hash / 256) % 16) as u32));
    push_char(&mut s, hex_char(((hash / 16) % 16) as u32));
    push_char(&mut s, hex_char((hash % 16) as u32));
    assert(s@ =~= hex4(hash as nat));
    s
}

/// A candidate workflow id: the creation-time folder prefix, a hyphen,
/// and the entropy suffix.
pub open spec fn candidate_id(unix_ms: i64, hash: nat) -> Seq<char> {
    strftime_text(unix_ms, folder_pattern()) + seq!['-'] + hex4(hash)
}

/// The id `create` tries to claim for a workflow created at `unix_ms`.
pub fn candidate_workflow_id(unix_ms: i64, hash: u64) -> (r: String)
    requires
        representable(unix_ms),
    ensures
        r@ == candidate_id(unix_ms, hash as nat),
{
    let mut id = folder_prefix(unix_ms);
    push_char(&mut id, '-');
    let suffix = entropy_suffix(hash);
    id.append(suffix.as_str());
    assert(id@ =~= candidate_id(unix_ms, hash as nat));
    id
}

/// The initially valid empty v1 manifest of a new workflow.
pub fn new_manifest(id: String, name: &str, unix_ms: i64) -> (m: Manifest)
    requires
        representable(unix_ms),
    ensures
        m.schema_version == SCHEMA_VERSION,
        m.id@ == id@,
        m.name@ == name@,
        m.created_at@ == rfc3339_text(unix_ms, false),
        m.steps@.len() == 0,
{
    Manifest {
        schema_version: SCHEMA_VERSION,
        id,
        name: String::from_str(name),
        created_at: manifest_timestamp(unix_ms),
        steps: Vec::new(),
    }
}

/// A workflow folder whose id has not left the store yet. While armed,
/// the I/O shell removes the folder when the claim is dropped: this is
/// startup rollback, not user-facing deletion.
#[derive(Debug)]
pub struct UnpublishedWorkflow {
    id: String,
    armed: bool,
}

impl UnpublishedWorkflow {
    pub closed spec fn claimed_id(&self) -> Seq<char> {
        self.id@
    }

    pub closed spec fn armed(&self) -> bool {
        self.armed
    }

    /// A fresh, armed claim on `id`.
    pub fn new(id: String) -> (r: Self)
        ensures
            r.claimed_id() == id@,
            r.armed(),
    {
        UnpublishedWorkflow { id, armed: true }
    }

    pub fn id(&self) -> (r: &str)
        ensures
            r@ == self.claimed_id(),
    {
        self.id.as_str()
    }

    /// Whether dropping the claim still rolls the folder back.
    pub fn is_armed(&self) -> (r: bool)
        ensures
            r == self.armed(),
    {
        self.armed
    }

    /// Disarms the rollback and returns the now-published workflow id.
    pub fn publish(&mut self) -> (r: String)
        ensures
            r@ == old(self).claimed_id(),
            final(self).claimed_id() == old(self).claimed_id(),
            !final(self).armed(),
    {
        self.armed = false;
        self.id.clone()
    }
}

/// An I/O failure while doing `context`.
pub fn io_error(context: &str, source: String) -> (e: StoreError)
    ensures
        e matches StoreError::Io { context: c, source: s } && c@ == context@ && s@ == source@,
{
    StoreError::Io { context: String::from_str(context), source }
}

/// The file name of one screenshot of an event's triple inside `shots/`:
/// `{event_id}.{suffix}.png`.
pub open spec fn shot_file_name(event_id: Seq<char>, variant: ShotVariant) -> Seq<char> {
    event_id + seq!['.'] + variant_suffix(variant) + seq!['.', 'p', 'n', 'g']
}

/// The screenshot file an id pair and variant resolve to; the event id
/// is validated first, so the name stays inside `shots/`.
pub fn shot_file(event_id: &str, variant: ShotVariant) -> (r: Result<String, StoreError>)
    ensures
        match r {
            Ok(name) => valid_id(event_id@) && name@ == shot_file_name(event_id@, variant),
            Err(e) => {
                &&& !valid_id(event_id@)
                &&& e matches StoreError::InvalidEventId(id) && id@ == event_id@
            },
        },
{
    match validate_event_id(event_id) {
        Err(e) => Err(e),
        Ok(()) => {
            let mut name = String::from_str(event_id);
            push_char(&mut name, '.');
            name.append(variant.file_suffix());
            proof {
                reveal_strlit(".png");
            }
            name.append(".png");
            assert(name@ =~= shot_file_name(event_id@, variant));
            Ok(name)
        },
    }
}

} // verus!
