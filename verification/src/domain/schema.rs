//! Schema v1 data types for `events.jsonl` and `workflow.json`.
//!
//! Field names and shapes follow the schema v1 decision record; the
//! `window: null` shape for unresolvable windows extends the schema's
//! null pattern. JSON encoding of these types lives with the I/O shell;
//! the manifest's canonical encoding is in `recording::manifest_json`.

use vstd::prelude::*;

verus! {

/// The schema version this build reads and writes.
pub const SCHEMA_VERSION: u32 = 1;

/// A screen coordinate in display points. Display points are fractional;
/// the library carries the exact IEEE-754 bit pattern (so the value is
/// persisted unchanged) together with the coordinate rounded half away
/// from zero to the nearest integer, which is what titles show. Both are
/// produced by the capture shell from the same float.
#[derive(Debug, Clone, Copy, PartialEq, Eq, Structural)]
pub struct Coord {
    pub bits: u64,
    pub rounded: i64,
}

/// A screen position in display points.
#[derive(Debug, Clone, Copy, PartialEq, Eq, Structural)]
pub struct Pos {
    pub x: Coord,
    pub y: Coord,
}

/// An integer pixel rectangle (window bounds and element frames).
#[derive(Debug, Clone, Copy, PartialEq, Eq, Structural)]
pub struct Rect {
    pub x: i32,
    pub y: i32,
    pub w: i32,
    pub h: i32,
}

/// The kind of one captured raw event.
#[derive(Debug, Clone, Copy, PartialEq, Eq, Structural)]
pub enum EventKind {
    Click,
    KeyDown,
}

/// The mouse button of a click event.
#[derive(Debug, Clone, Copy, PartialEq, Eq, Structural)]
pub enum MouseButton {
    Left,
    Right,
    Middle,
}

/// A modifier key held during a key-down, recorded as a raw fact. Chord
/// semantics over these values belong to `KeySemantics`; the log stores
/// only what was held.
#[derive(Debug, Clone, Copy, PartialEq, Eq, Structural)]
pub enum Modifier {
    Fn,
    Control,
    Option,
    Shift,
    Command,
    CapsLock,
}

/// The `key` object of a key-down event (`null` on clicks).
#[derive(Debug, Clone, PartialEq, Eq)]
pub struct KeyInfo {
    /// macOS virtual key code (for example 4 for the H key).
    pub key_code: u16,
    /// The characters the key-down produced; empty for non-character keys.
    pub chars: String,
    /// Modifiers held during the key-down, in capture order.
    pub modifiers: Vec<Modifier>,
}

/// The window the event hit (`null` when no window resolves).
#[derive(Debug, Clone, PartialEq, Eq)]
pub struct WindowInfo {
    pub app: String,
    pub title: String,
    pub pid: i32,
    pub bounds: Rect,
}

/// Where the element metadata came from.
#[derive(Debug, Clone, Copy, PartialEq, Eq, Structural)]
pub enum ElementSource {
    Ax,
    Fallback,
}

/// Resolved UI-element metadata for the event. For the fallback shape
/// `role` and `title` are `null`, `frame` is the fallback crop rectangle,
/// and `source` is `"fallback"`.
#[derive(Debug, Clone, PartialEq, Eq)]
pub struct ElementInfo {
    pub role: Option<String>,
    pub title: Option<String>,
    pub frame: Rect,
    pub source: ElementSource,
}

/// Relative paths of the persisted screenshot triple, as recorded in the
/// event line.
#[derive(Debug, Clone, PartialEq, Eq)]
pub struct ShotPaths {
    pub full: String,
    pub window: String,
    pub element: String,
}

/// The canonical relative path of one shot of an event's triple.
pub open spec fn shot_path(event_id: Seq<char>, suffix: Seq<char>) -> Seq<char> {
    seq!['s', 'h', 'o', 't', 's', '/'] + event_id + seq!['.'] + suffix + seq!['.', 'p', 'n', 'g']
}

pub open spec fn full_suffix() -> Seq<char> {
    seq!['f', 'u', 'l', 'l']
}

pub open spec fn window_suffix() -> Seq<char> {
    seq!['w', 'i', 'n', 'd', 'o', 'w']
}

pub open spec fn element_suffix() -> Seq<char> {
    seq!['e', 'l', 'e', 'm', 'e', 'n', 't']
}

impl ShotPaths {
    /// True when these are the canonical shot paths of `event_id`.
    pub open spec fn canonical_for(&self, event_id: Seq<char>) -> bool {
        &&& self.full@ == shot_path(event_id, full_suffix())
        &&& self.window@ == shot_path(event_id, window_suffix())
        &&& self.element@ == shot_path(event_id, element_suffix())
    }

    /// The canonical shot paths for one event id.
    pub fn for_event(event_id: &str) -> (r: Self)
        ensures
            r.canonical_for(event_id@),
    {
        ShotPaths {
            full: canonical_shot_path(event_id, ShotSuffix::Full),
            window: canonical_shot_path(event_id, ShotSuffix::Window),
            element: canonical_shot_path(event_id, ShotSuffix::Element),
        }
    }
}

/// The three shot roles of a triple.
enum ShotSuffix {
    Full,
    Window,
    Element,
}

spec fn suffix_chars(suffix: ShotSuffix) -> Seq<char> {
    match suffix {
        ShotSuffix::Full => full_suffix(),
        ShotSuffix::Window => window_suffix(),
        ShotSuffix::Element => element_suffix(),
    }
}

/// `shots/{event_id}.{suffix}.png`.
fn canonical_shot_path(event_id: &str, suffix: ShotSuffix) -> (r: String)
    ensures
        r@ == shot_path(event_id@, suffix_chars(suffix)),
{
    proof {
        reveal_strlit("shots/");
        reveal_strlit(".full.png");
        reveal_strlit(".window.png");
        reveal_strlit(".element.png");
    }
    let mut s = String::from_str("shots/");
    s.append(event_id);
    match suffix {
        ShotSuffix::Full => s.append(".full.png"),
        ShotSuffix::Window => s.append(".window.png"),
        ShotSuffix::Element => s.append(".element.png"),
    }
    assert(s@ =~= shot_path(event_id@, suffix_chars(suffix)));
    s
}

/// Capture metadata for the event.
#[derive(Debug, Clone, Copy, PartialEq, Eq, Structural)]
pub struct CaptureMeta {
    /// Nonnegative event-to-selected-frame age in milliseconds,
    /// saturating at zero.
    pub frame_age_ms: u64,
}

/// One line of `events.jsonl`: a raw captured event.
#[derive(Debug, Clone, PartialEq, Eq)]
pub struct Event {
    pub id: String,
    /// RFC 3339 UTC timestamp with millisecond precision.
    pub ts: String,
    pub kind: EventKind,
    pub display_id: u32,
    pub pos: Pos,
    /// `null` for key-down events.
    pub button: Option<MouseButton>,
    /// `null` for click events.
    pub key: Option<KeyInfo>,
    /// `null` when no window resolves.
    pub window: Option<WindowInfo>,
    pub element: ElementInfo,
    pub shots: ShotPaths,
    pub capture: CaptureMeta,
}

/// The step classification. Capture-time defaults are click -> `click`
/// and key-down -> `type`.
#[derive(Debug, Clone, Copy, PartialEq, Eq, Structural)]
pub enum Classification {
    Click,
    Type,
    Wait,
    Assert,
}

/// One reviewable step in the manifest.
#[derive(Debug, Clone, PartialEq, Eq)]
pub struct Step {
    pub id: String,
    /// The raw events this step was parsed from.
    pub event_ids: Vec<String>,
    pub classification: Classification,
    pub title: String,
    pub description: String,
}

/// The value of a step: its text fields as character sequences.
pub struct StepView {
    pub id: Seq<char>,
    pub event_ids: Seq<Seq<char>>,
    pub classification: Classification,
    pub title: Seq<char>,
    pub description: Seq<char>,
}

/// The character sequences of a list of strings.
pub open spec fn strings_view(v: Seq<String>) -> Seq<Seq<char>> {
    v.map_values(|s: String| s@)
}

impl View for Step {
    type V = StepView;

    open spec fn view(&self) -> StepView {
        StepView {
            id: self.id@,
            event_ids: strings_view(self.event_ids@),
            classification: self.classification,
            title: self.title@,
            description: self.description@,
        }
    }
}

/// The editable `workflow.json` manifest.
#[derive(Debug, Clone, PartialEq, Eq)]
pub struct Manifest {
    pub schema_version: u32,
    pub id: String,
    pub name: String,
    /// RFC 3339 UTC timestamp with second precision.
    pub created_at: String,
    pub steps: Vec<Step>,
}

} // verus!
