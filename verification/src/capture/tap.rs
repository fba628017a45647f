//! What the ListenOnly event-tap callback copies out of one event.
//!
//! The tap itself — the run-loop thread, the CoreGraphics calls, the
//! enable check — belongs to the I/O shell. The callback must stay
//! constant-bounded and nonblocking; what it decides is here: which event
//! types are captured, how a key-down's held modifier flags map to schema
//! modifiers, when the produced characters count as a non-character key,
//! and how a system disable is reported.

use vstd::prelude::*;

use crate::domain::schema::{KeyInfo, Modifier, MouseButton};
use crate::text::{char_is_control, is_control};

verus! {

/// The event types the tap sees.
#[derive(Debug, Clone, Copy, PartialEq, Eq, Structural)]
pub enum TapEventType {
    LeftMouseDown,
    RightMouseDown,
    OtherMouseDown,
    KeyDown,
    TapDisabledByTimeout,
    TapDisabledByUserInput,
    /// Any other event type.
    Other,
}

/// One copied global input event.
#[derive(Debug, Clone, PartialEq, Eq)]
pub enum TapInput {
    Click { button: MouseButton },
    KeyDown { key: KeyInfo },
}

/// The `CGEventFlags` masks of the modifiers the schema records.
pub const FLAG_SECONDARY_FN: u64 = 0x0080_0000;

pub const FLAG_CONTROL: u64 = 0x0004_0000;

pub const FLAG_ALTERNATE: u64 = 0x0008_0000;

pub const FLAG_SHIFT: u64 = 0x0002_0000;

pub const FLAG_COMMAND: u64 = 0x0010_0000;

pub const FLAG_ALPHA_SHIFT: u64 = 0x0001_0000;

/// `[m]` when `flags` holds `mask`, else nothing.
pub open spec fn if_held(flags: u64, mask: u64, m: Modifier) -> Seq<Modifier> {
    if flags & mask == mask {
        seq![m]
    } else {
        Seq::empty()
    }
}

/// The held modifiers in the canonical Fn, Ctrl, Opt, Shift, Cmd,
/// CapsLock order.
pub open spec fn held(flags: u64) -> Seq<Modifier> {
    if_held(flags, FLAG_SECONDARY_FN, Modifier::Fn) + if_held(flags, FLAG_CONTROL, Modifier::Control)
        + if_held(flags, FLAG_ALTERNATE, Modifier::Option) + if_held(
        flags,
        FLAG_SHIFT,
        Modifier::Shift,
    ) + if_held(flags, FLAG_COMMAND, Modifier::Command) + if_held(
        flags,
        FLAG_ALPHA_SHIFT,
        Modifier::CapsLock,
    )
}

fn push_if_held(out: &mut Vec<Modifier>, flags: u64, mask: u64, m: Modifier)
    ensures
        final(out)@ == old(out)@ + if_held(flags, mask, m),
{
    if flags & mask == mask {
        out.push(m);
    }
    assert(out@ =~= old(out)@ + if_held(flags, mask, m));
}

proof fn lemma_contains_concat(a: Seq<Modifier>, b: Seq<Modifier>, m: Modifier)
    ensures
        (a + b).contains(m) <==> (a.contains(m) || b.contains(m)),
{
    let c = a + b;
    if c.contains(m) {
        let i = choose|i: int| 0 <= i < c.len() && c[i] == m;
        if i < a.len() {
            assert(a[i] == m);
        } else {
            assert(b[i - a.len()] == m);
        }
    }
    if a.contains(m) {
        let i = choose|i: int| 0 <= i < a.len() && a[i] == m;
        assert(c[i] == m);
    }
    if b.contains(m) {
        let i = choose|i: int| 0 <= i < b.len() && b[i] == m;
        assert(c[a.len() + i] == m);
    }
}

proof fn lemma_if_held_contains(flags: u64, mask: u64, held_as: Modifier, m: Modifier)
    ensures
        if_held(flags, mask, held_as).contains(m) <==> (flags & mask == mask && held_as == m),
{
    if flags & mask == mask && held_as == m {
        assert(if_held(flags, mask, held_as)[0] == m);
    }
}

/// Each modifier is held exactly when its own `CGEventFlags` bit is set:
/// Fn by `0x80_0000` (`kCGEventFlagMaskSecondaryFn`), Control by
/// `0x4_0000`, Option by `0x8_0000` (`kCGEventFlagMaskAlternate`), Shift
/// by `0x2_0000`, Command by `0x10_0000` and Caps Lock by `0x1_0000`
/// (`kCGEventFlagMaskAlphaShift`). No other bit adds a modifier.
pub proof fn lemma_each_modifier_follows_its_flag(flags: u64)
    ensures
        held(flags).contains(Modifier::Fn) <==> flags & 0x0080_0000 == 0x0080_0000,
        held(flags).contains(Modifier::Control) <==> flags & 0x0004_0000 == 0x0004_0000,
        held(flags).contains(Modifier::Option) <==> flags & 0x0008_0000 == 0x0008_0000,
        held(flags).contains(Modifier::Shift) <==> flags & 0x0002_0000 == 0x0002_0000,
        held(flags).contains(Modifier::Command) <==> flags & 0x0010_0000 == 0x0010_0000,
        held(flags).contains(Modifier::CapsLock) <==> flags & 0x0001_0000 == 0x0001_0000,
{
    let a = if_held(flags, FLAG_SECONDARY_FN, Modifier::Fn);
    let b = if_held(flags, FLAG_CONTROL, Modifier::Control);
    let c = if_held(flags, FLAG_ALTERNATE, Modifier::Option);
    let d = if_held(flags, FLAG_SHIFT, Modifier::Shift);
    let e = if_held(flags, FLAG_COMMAND, Modifier::Command);
    let f = if_held(flags, FLAG_ALPHA_SHIFT, Modifier::CapsLock);
    assert(held(flags) == a + b + c + d + e + f);
    let ms = seq![
        Modifier::Fn,
        Modifier::Control,
        Modifier::Option,
        Modifier::Shift,
        Modifier::Command,
        Modifier::CapsLock,
    ];
    assert forall|k: int| 0 <= k < 6 implies {
        let m = #[trigger] ms[k];
        (a + b + c + d + e + f).contains(m) <==> (a.contains(m) || b.contains(m) || c.contains(m)
            || d.contains(m) || e.contains(m) || f.contains(m))
    } by {
        let m = ms[k];
        lemma_contains_concat(a + b + c + d + e, f, m);
        lemma_contains_concat(a + b + c + d, e, m);
        lemma_contains_concat(a + b + c, d, m);
        lemma_contains_concat(a + b, c, m);
        lemma_contains_concat(a, b, m);
    }
    assert forall|k: int| 0 <= k < 6 implies {
        let m = #[trigger] ms[k];
        &&& a.contains(m) <==> (flags & FLAG_SECONDARY_FN == FLAG_SECONDARY_FN && m == Modifier::Fn)
        &&& b.contains(m) <==> (flags & FLAG_CONTROL == FLAG_CONTROL && m == Modifier::Control)
        &&& c.contains(m) <==> (flags & FLAG_ALTERNATE == FLAG_ALTERNATE && m == Modifier::Option)
        &&& d.contains(m) <==> (flags & FLAG_SHIFT == FLAG_SHIFT && m == Modifier::Shift)
        &&& e.contains(m) <==> (flags & FLAG_COMMAND == FLAG_COMMAND && m == Modifier::Command)
        &&& f.contains(m) <==> (flags & FLAG_ALPHA_SHIFT == FLAG_ALPHA_SHIFT && m == Modifier::CapsLock)
    } by {
        let m = ms[k];
        lemma_if_held_contains(flags, FLAG_SECONDARY_FN, Modifier::Fn, m);
        lemma_if_held_contains(flags, FLAG_CONTROL, Modifier::Control, m);
        lemma_if_held_contains(flags, FLAG_ALTERNATE, Modifier::Option, m);
        lemma_if_held_contains(flags, FLAG_SHIFT, Modifier::Shift, m);
        lemma_if_held_contains(flags, FLAG_COMMAND, Modifier::Command, m);
        lemma_if_held_contains(flags, FLAG_ALPHA_SHIFT, Modifier::CapsLock, m);
    }
    assert(ms[0] == Modifier::Fn);
    assert(ms[1] == Modifier::Control);
    assert(ms[2] == Modifier::Option);
    assert(ms[3] == Modifier::Shift);
    assert(ms[4] == Modifier::Command);
    assert(ms[5] == Modifier::CapsLock);
}

/// Maps held `CGEventFlags` bits to the schema modifiers, in canonical
/// order.
pub fn held_modifiers(flags: u64) -> (r: Vec<Modifier>)
    ensures
        r@ == held(flags),
        r@.contains(Modifier::Fn) <==> flags & 0x0080_0000 == 0x0080_0000,
        r@.contains(Modifier::Control) <==> flags & 0x0004_0000 == 0x0004_0000,
        r@.contains(Modifier::Option) <==> flags & 0x0008_0000 == 0x0008_0000,
        r@.contains(Modifier::Shift) <==> flags & 0x0002_0000 == 0x0002_0000,
        r@.contains(Modifier::Command) <==> flags & 0x0010_0000 == 0x0010_0000,
        r@.contains(Modifier::CapsLock) <==> flags & 0x0001_0000 == 0x0001_0000,
{
    proof {
        lemma_each_modifier_follows_its_flag(flags);
    }
    let mut out: Vec<Modifier> = Vec::new();
    push_if_held(&mut out, flags, FLAG_SECONDARY_FN, Modifier::Fn);
    push_if_held(&mut out, flags, FLAG_CONTROL, Modifier::Control);
    push_if_held(&mut out, flags, FLAG_ALTERNATE, Modifier::Option);
    push_if_held(&mut out, flags, FLAG_SHIFT, Modifier::Shift);
    push_if_held(&mut out, flags, FLAG_COMMAND, Modifier::Command);
    push_if_held(&mut out, flags, FLAG_ALPHA_SHIFT, Modifier::CapsLock);
    assert(out@ =~= held(flags));
    out
}

/// A character that marks a non-character key: a control character, or
/// the macOS function-key private-use range U+F700..=U+F8FF (arrows,
/// F-keys, forward delete).
pub open spec fn non_character(c: char) -> bool {
    is_control(c) || (0xf700 <= c as u32 <= 0xf8ff)
}

/// The characters a key-down records: what it produced, or nothing when
/// it produced nothing or any non-character.
pub open spec fn recorded_chars(produced: Seq<char>) -> Seq<char> {
    if exists|i: int| 0 <= i < produced.len() && non_character(#[trigger] produced[i]) {
        Seq::empty()
    } else {
        produced
    }
}

/// The characters a key-down records from what it produced.
pub fn key_chars(produced: &str) -> (r: String)
    ensures
        r@ == recorded_chars(produced@),
{
    let n = produced.unicode_len();
    let mut i: usize = 0;
    while i < n
        invariant
            n == produced@.len(),
            0 <= i <= n,
            forall|j: int| 0 <= j < i ==> !non_character(#[trigger] produced@[j]),
        decreases n - i,
    {
        let c = produced.get_char(i);
        let u = c as u32;
        if char_is_control(c) || (0xf700 <= u && u <= 0xf8ff) {
            assert(non_character(produced@[i as int]));
            return String::new();
        }
        i = i + 1;
    }
    String::from_str(produced)
}

/// What the callback does with one event type.
#[derive(Debug, Clone, Copy, PartialEq, Eq, Structural)]
pub enum TapAction {
    /// The system disabled the tap: report the failure.
    Disabled,
    /// A click with this button: copy it.
    Click(MouseButton),
    /// A key-down: copy its key fields.
    Key,
    /// Outside the capture set.
    Ignore,
}

/// The action for each event type.
pub open spec fn tap_action(kind: TapEventType) -> TapAction {
    match kind {
        TapEventType::LeftMouseDown => TapAction::Click(MouseButton::Left),
        TapEventType::RightMouseDown => TapAction::Click(MouseButton::Right),
        TapEventType::OtherMouseDown => TapAction::Click(MouseButton::Middle),
        TapEventType::KeyDown => TapAction::Key,
        TapEventType::TapDisabledByTimeout | TapEventType::TapDisabledByUserInput =>
            TapAction::Disabled,
        TapEventType::Other => TapAction::Ignore,
    }
}

/// Classifies one event type.
pub fn classify(kind: TapEventType) -> (r: TapAction)
    ensures
        r == tap_action(kind),
{
    match kind {
        TapEventType::LeftMouseDown => TapAction::Click(MouseButton::Left),
        TapEventType::RightMouseDown => TapAction::Click(MouseButton::Right),
        TapEventType::OtherMouseDown => TapAction::Click(MouseButton::Middle),
        TapEventType::KeyDown => TapAction::Key,
        TapEventType::TapDisabledByTimeout | TapEventType::TapDisabledByUserInput =>
            TapAction::Disabled,
        TapEventType::Other => TapAction::Ignore,
    }
}

/// The failure a system disable reports, naming the event type.
pub open spec fn disabled_message(by_timeout: bool) -> Seq<char> {
    if by_timeout {
        "event tap disabled by the system (TapDisabledByTimeout)"@
    } else {
        "event tap disabled by the system (TapDisabledByUserInput)"@
    }
}

/// The failure text for a disabled tap.
pub fn disabled_report(kind: TapEventType) -> (r: String)
    requires
        tap_action(kind) == TapAction::Disabled,
    ensures
        r@ == disabled_message(kind == TapEventType::TapDisabledByTimeout),
{
    match kind {
        TapEventType::TapDisabledByTimeout => String::from_str(
            "event tap disabled by the system (TapDisabledByTimeout)",
        ),
        _ => String::from_str("event tap disabled by the system (TapDisabledByUserInput)"),
    }
}

/// The copied input of a captured event: its button for a click; for a
/// key-down the key code (the event field, truncated to 16 bits), the
/// recorded characters and the held modifiers. `None` outside the
/// capture set.
pub fn copy_input(kind: TapEventType, key_code: i64, produced: &str, flags: u64) -> (r: Option<
    TapInput,
>)
    ensures
        match tap_action(kind) {
            TapAction::Click(button) => r == Some(TapInput::Click { button }),
            TapAction::Key => r matches Some(TapInput::KeyDown { key }) && key.key_code
                == key_code as u16 && key.chars@ == recorded_chars(produced@) && key.modifiers@
                == held(flags),
            _ => r is None,
        },
{
    match classify(kind) {
        TapAction::Click(button) => Some(TapInput::Click { button }),
        TapAction::Key => Some(
            TapInput::KeyDown {
                key: KeyInfo {
                    key_code: key_code as u16,
                    chars: key_chars(produced),
                    modifiers: held_modifiers(flags),
                },
            },
        ),
        _ => None,
    }
}

} // verus!
