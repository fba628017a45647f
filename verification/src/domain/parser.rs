//! Live 1:1 event-to-step parsing with auto-titles.
//!
//! Each captured event parses into exactly one step. Classification
//! defaults are click -> `click` and key-down -> `type`; the description
//! defaults to empty. Titles follow the decided formats:
//!
//! - `Click "OK" — TextEdit` (element title, else element role)
//! - `Click at (512, 384) — TextEdit` (coordinate fallback)
//! - `Press H — Chrome` (plain key)
//! - `Press Cmd+S — TextEdit` (chord; modifiers normalized by
//!   `KeySemantics` in the order Fn, Ctrl, Opt, Shift, Cmd)
//!
//! For a null-window event the title's `{app}` falls back to the
//! frontmost application name, else `Unknown`.

use vstd::prelude::*;

use crate::domain::key_semantics::{chord, label, presented, KeySemantics};
use crate::domain::schema::{Classification, Event, EventKind, KeyInfo, Modifier, Step};
use crate::text::{
    char_is_control, char_is_whitespace, char_to_uppercase, decimal, is_blank, is_control,
    is_whitespace, push_char, push_decimal, push_signed_decimal, signed_decimal, str_is_blank,
    uppercase_mapping,
};

verus! {

/// The names of the common macOS virtual key codes that produce no
/// printable character.
pub open spec fn named_key(key_code: u16) -> Option<Seq<char>> {
    match key_code {
        36 => Some(seq!['R', 'e', 't', 'u', 'r', 'n']),
        48 => Some(seq!['T', 'a', 'b']),
        49 => Some(seq!['S', 'p', 'a', 'c', 'e']),
        51 => Some(seq!['D', 'e', 'l', 'e', 't', 'e']),
        53 => Some(seq!['E', 's', 'c', 'a', 'p', 'e']),
        76 => Some(seq!['E', 'n', 't', 'e', 'r']),
        115 => Some(seq!['H', 'o', 'm', 'e']),
        116 => Some(seq!['P', 'a', 'g', 'e', ' ', 'U', 'p']),
        117 => Some(seq!['F', 'o', 'r', 'w', 'a', 'r', 'd', ' ', 'D', 'e', 'l', 'e', 't', 'e']),
        119 => Some(seq!['E', 'n', 'd']),
        121 => Some(seq!['P', 'a', 'g', 'e', ' ', 'D', 'o', 'w', 'n']),
        122 => Some(seq!['F', '1']),
        120 => Some(seq!['F', '2']),
        99 => Some(seq!['F', '3']),
        118 => Some(seq!['F', '4']),
        96 => Some(seq!['F', '5']),
        97 => Some(seq!['F', '6']),
        98 => Some(seq!['F', '7']),
        100 => Some(seq!['F', '8']),
        101 => Some(seq!['F', '9']),
        109 => Some(seq!['F', '1', '0']),
        103 => Some(seq!['F', '1', '1']),
        111 => Some(seq!['F', '1', '2']),
        123 => Some(seq!['L', 'e', 'f', 't', ' ', 'A', 'r', 'r', 'o', 'w']),
        124 => Some(seq!['R', 'i', 'g', 'h', 't', ' ', 'A', 'r', 'r', 'o', 'w']),
        125 => Some(seq!['D', 'o', 'w', 'n', ' ', 'A', 'r', 'r', 'o', 'w']),
        126 => Some(seq!['U', 'p', ' ', 'A', 'r', 'r', 'o', 'w']),
        _ => None,
    }
}

/// `Key {code}` for unnamed key codes.
pub open spec fn key_code_name(key_code: u16) -> Seq<char> {
    match named_key(key_code) {
        Some(name) => name,
        None => seq!['K', 'e', 'y', ' '] + decimal(key_code as nat),
    }
}

/// The named keys follow the macOS virtual key codes (`kVK_Return` 36,
/// `kVK_Tab` 48, `kVK_Space` 49, `kVK_Delete` 51, `kVK_Escape` 53,
/// `kVK_ANSI_KeypadEnter` 76, `kVK_Home` 115, `kVK_PageUp` 116,
/// `kVK_ForwardDelete` 117, `kVK_End` 119, `kVK_PageDown` 121, the function
/// keys F1..F12, and the arrows `kVK_LeftArrow` 123, `kVK_RightArrow` 124,
/// `kVK_DownArrow` 125, `kVK_UpArrow` 126).
pub proof fn lemma_key_names_follow_the_virtual_key_codes()
    ensures
        key_code_name(36) == "Return"@,
        key_code_name(48) == "Tab"@,
        key_code_name(49) == "Space"@,
        key_code_name(51) == "Delete"@,
        key_code_name(53) == "Escape"@,
        key_code_name(76) == "Enter"@,
        key_code_name(115) == "Home"@,
        key_code_name(116) == "Page Up"@,
        key_code_name(117) == "Forward Delete"@,
        key_code_name(119) == "End"@,
        key_code_name(121) == "Page Down"@,
        key_code_name(122) == "F1"@,
        key_code_name(120) == "F2"@,
        key_code_name(99) == "F3"@,
        key_code_name(118) == "F4"@,
        key_code_name(96) == "F5"@,
        key_code_name(97) == "F6"@,
        key_code_name(98) == "F7"@,
        key_code_name(100) == "F8"@,
        key_code_name(101) == "F9"@,
        key_code_name(109) == "F10"@,
        key_code_name(103) == "F11"@,
        key_code_name(111) == "F12"@,
        key_code_name(123) == "Left Arrow"@,
        key_code_name(124) == "Right Arrow"@,
        key_code_name(125) == "Down Arrow"@,
        key_code_name(126) == "Up Arrow"@,
{
    reveal_strlit("Return");
    reveal_strlit("Tab");
    reveal_strlit("Space");
    reveal_strlit("Delete");
    reveal_strlit("Escape");
    reveal_strlit("Enter");
    reveal_strlit("Home");
    reveal_strlit("Page Up");
    reveal_strlit("Forward Delete");
    reveal_strlit("End");
    reveal_strlit("Page Down");
    reveal_strlit("F1");
    reveal_strlit("F2");
    reveal_strlit("F3");
    reveal_strlit("F4");
    reveal_strlit("F5");
    reveal_strlit("F6");
    reveal_strlit("F7");
    reveal_strlit("F8");
    reveal_strlit("F9");
    reveal_strlit("F10");
    reveal_strlit("F11");
    reveal_strlit("F12");
    reveal_strlit("Left Arrow");
    reveal_strlit("Right Arrow");
    reveal_strlit("Down Arrow");
    reveal_strlit("Up Arrow");
}

/// A key code outside the named table is shown as `Key` and its number.
pub proof fn lemma_unnamed_codes_show_their_number(key_code: u16)
    requires
        key_code != 36,
        key_code != 48,
        key_code != 49,
        key_code != 51,
        key_code != 53,
        key_code != 76,
        key_code != 115,
        key_code != 116,
        key_code != 117,
        key_code != 119,
        key_code != 121,
        key_code != 122,
        key_code != 120,
        key_code != 99,
        key_code != 118,
        key_code != 96,
        key_code != 97,
        key_code != 98,
        key_code != 100,
        key_code != 101,
        key_code != 109,
        key_code != 103,
        key_code != 111,
        key_code != 123,
        key_code != 124,
        key_code != 125,
        key_code != 126,
    ensures
        key_code_name(key_code) == "Key "@ + decimal(key_code as nat),
{
    reveal_strlit("Key ");
}

/// The key's display form: the produced character uppercased when it is
/// a single printable non-whitespace character, else the key-code name.
pub open spec fn key_display(key_code: u16, chars: Seq<char>) -> Seq<char> {
    if chars.len() == 1 && !is_whitespace(chars[0]) && !is_control(chars[0]) {
        uppercase_mapping(chars[0])
    } else {
        key_code_name(key_code)
    }
}

/// Labels of the presented modifiers joined by `+`.
pub open spec fn joined_labels(mods: Seq<Modifier>) -> Seq<char>
    decreases mods.len(),
{
    if mods.len() == 0 {
        Seq::empty()
    } else if mods.len() == 1 {
        label(mods[0])
    } else {
        joined_labels(mods.drop_last()) + seq!['+'] + label(mods.last())
    }
}

pub open spec fn press() -> Seq<char> {
    seq!['P', 'r', 'e', 's', 's', ' ']
}

/// `Press {modifier prefixes}{key display}`: prefixes only on a chord,
/// joined by `+` in the normalized order.
pub open spec fn key_subject(key: Option<KeyInfo>) -> Seq<char> {
    match key {
        None => press() + seq!['U', 'n', 'k', 'n', 'o', 'w', 'n'],
        Some(k) => {
            let display = key_display(k.key_code, k.chars@);
            if chord(k.modifiers@) {
                press() + joined_labels(presented(k.modifiers@)) + seq!['+'] + display
            } else {
                press() + display
            }
        },
    }
}

/// A name counts when it is present and not blank.
pub open spec fn usable_name(name: Option<String>) -> bool {
    name matches Some(n) && !is_blank(n@)
}

/// `Click "{element title | role}"`, else `Click at (x, y)` with the
/// rounded position.
pub open spec fn click_subject(event: Event) -> Seq<char> {
    let quoted = |n: Seq<char>| seq!['C', 'l', 'i', 'c', 'k', ' ', '"'] + n + seq!['"'];
    if usable_name(event.element.title) {
        quoted(event.element.title->0@)
    } else if usable_name(event.element.role) {
        quoted(event.element.role->0@)
    } else {
        seq!['C', 'l', 'i', 'c', 'k', ' ', 'a', 't', ' ', '(']
            + signed_decimal(event.pos.x.rounded as int) + seq![',', ' ']
            + signed_decimal(event.pos.y.rounded as int) + seq![')']
    }
}

/// The title's `{app}`: the hit window's application, else the
/// frontmost application name when not blank, else `Unknown`.
pub open spec fn app_name(event: Event, frontmost_app: Option<Seq<char>>) -> Seq<char> {
    match event.window {
        Some(window) => window.app@,
        None => match frontmost_app {
            Some(name) if !is_blank(name) => name,
            _ => seq!['U', 'n', 'k', 'n', 'o', 'w', 'n'],
        },
    }
}

/// `{subject} — {app}`.
pub open spec fn title(event: Event, frontmost_app: Option<Seq<char>>) -> Seq<char> {
    let subject = match event.kind {
        EventKind::Click => click_subject(event),
        EventKind::KeyDown => key_subject(event.key),
    };
    subject + seq![' ', '\u{2014}', ' '] + app_name(event, frontmost_app)
}

/// The default classification of an event kind.
pub open spec fn default_classification(kind: EventKind) -> Classification {
    match kind {
        EventKind::Click => Classification::Click,
        EventKind::KeyDown => Classification::Type,
    }
}

/// The view of an optional borrowed name.
pub open spec fn opt_view(name: Option<&str>) -> Option<Seq<char>> {
    match name {
        Some(n) => Some(n@),
        None => None,
    }
}

/// Parses one captured event into exactly one step. `frontmost_app` is
/// only consulted when the event has no window.
pub fn parse_step(step_id: String, event: &Event, frontmost_app: Option<&str>) -> (step: Step)
    ensures
        step.id@ == step_id@,
        step.event_ids@.len() == 1,
        step.event_ids@[0]@ == event.id@,
        step.classification == default_classification(event.kind),
        step.title@ == title(*event, opt_view(frontmost_app)),
        step.description@ == Seq::<char>::empty(),
{
    let classification = match event.kind {
        EventKind::Click => Classification::Click,
        EventKind::KeyDown => Classification::Type,
    };
    let mut event_ids: Vec<String> = Vec::new();
    event_ids.push(event.id.clone());
    Step {
        id: step_id,
        event_ids,
        classification,
        title: title_for(event, frontmost_app),
        description: String::new(),
    }
}

fn title_for(event: &Event, frontmost_app: Option<&str>) -> (r: String)
    ensures
        r@ == title(*event, opt_view(frontmost_app)),
{
    let mut s = match event.kind {
        EventKind::Click => click_subject_of(event),
        EventKind::KeyDown => key_subject_of(&event.key),
    };
    push_char(&mut s, ' ');
    push_char(&mut s, '\u{2014}');
    push_char(&mut s, ' ');
    append_app_name(&mut s, event, frontmost_app);
    assert(s@ =~= title(*event, opt_view(frontmost_app)));
    s
}

fn append_app_name(s: &mut String, event: &Event, frontmost_app: Option<&str>)
    ensures
        final(s)@ == old(s)@ + app_name(*event, opt_view(frontmost_app)),
{
    proof { reveal_strlit("Unknown"); }
    match &event.window {
        Some(window) => s.append(window.app.as_str()),
        None => match frontmost_app {
            Some(name) => {
                if str_is_blank(name) {
                    s.append("Unknown");
                } else {
                    s.append(name);
                }
            },
            None => s.append("Unknown"),
        },
    }
}

fn optional_usable(name: &Option<String>) -> (r: bool)
    ensures
        r == usable_name(*name),
{
    match name {
        Some(n) => !str_is_blank(n.as_str()),
        None => false,
    }
}

fn click_subject_of(event: &Event) -> (r: String)
    ensures
        r@ == click_subject(*event),
{
    proof {
        reveal_strlit("Click \"");
        reveal_strlit("Click at (");
        reveal_strlit(", ");
    }
    if optional_usable(&event.element.title) || optional_usable(&event.element.role) {
        let mut s = String::from_str("Click \"");
        if optional_usable(&event.element.title) {
            match &event.element.title {
                Some(t) => s.append(t.as_str()),
                None => {},
            }
        } else {
            match &event.element.role {
                Some(r) => s.append(r.as_str()),
                None => {},
            }
        }
        push_char(&mut s, '"');
        assert(s@ =~= click_subject(*event));
        s
    } else {
        let mut s = String::from_str("Click at (");
        push_signed_decimal(&mut s, event.pos.x.rounded);
        s.append(", ");
        push_signed_decimal(&mut s, event.pos.y.rounded);
        push_char(&mut s, ')');
        assert(s@ =~= click_subject(*event));
        s
    }
}

fn key_subject_of(key: &Option<KeyInfo>) -> (r: String)
    ensures
        r@ == key_subject(*key),
{
    proof {
        reveal_strlit("Press Unknown");
        reveal_strlit("Press ");
    }
    match key {
        None => String::from_str("Press Unknown"),
        Some(k) => {
            let display = key_display_of(k);
            let mut s = String::from_str("Press ");
            if KeySemantics::is_chord(k.modifiers.as_slice()) {
                let mods = KeySemantics::presented_modifiers(k.modifiers.as_slice());
                let mut i: usize = 0;
                while i < mods.len()
                    invariant
                        0 <= i <= mods@.len(),
                        s@ == press() + joined_labels(mods@.take(i as int)),
                    decreases mods@.len() - i,
                {
                    if i > 0 {
                        push_char(&mut s, '+');
                    }
                    s.append(KeySemantics::modifier_label(mods[i]));
                    proof {
                        let t = mods@.take(i + 1);
                        assert(t.drop_last() =~= mods@.take(i as int));
                        assert(t.last() == mods@[i as int]);
                        if i == 0 {
                            assert(t =~= seq![mods@[0]]);
                        }
                    }
                    i = i + 1;
                }
                assert(mods@.take(mods@.len() as int) =~= mods@);
                push_char(&mut s, '+');
                s.append(display.as_str());
            } else {
                s.append(display.as_str());
            }
            assert(s@ =~= key_subject(*key));
            s
        },
    }
}

fn key_display_of(key: &KeyInfo) -> (r: String)
    ensures
        r@ == key_display(key.key_code, key.chars@),
{
    let chars = key.chars.as_str();
    if chars.unicode_len() == 1 {
        let ch = chars.get_char(0);
        if !char_is_whitespace(ch) && !char_is_control(ch) {
            return char_to_uppercase(ch);
        }
    }
    key_code_name_of(key.key_code)
}

fn named_key_of(key_code: u16) -> (r: Option<&'static str>)
    ensures
        match named_key(key_code) {
            Some(name) => r matches Some(s) && s@ == name,
            None => r is None,
        },
{
    let name = match key_code {
        36 => {
            proof { reveal_strlit("Return"); }
            "Return"
        },
        48 => {
            proof { reveal_strlit("Tab"); }
            "Tab"
        },
        49 => {
            proof { reveal_strlit("Space"); }
            "Space"
        },
        51 => {
            proof { reveal_strlit("Delete"); }
            "Delete"
        },
        53 => {
            proof { reveal_strlit("Escape"); }
            "Escape"
        },
        76 => {
            proof { reveal_strlit("Enter"); }
            "Enter"
        },
        115 => {
            proof { reveal_strlit("Home"); }
            "Home"
        },
        116 => {
            proof { reveal_strlit("Page Up"); }
            "Page Up"
        },
        117 => {
            proof { reveal_strlit("Forward Delete"); }
            "Forward Delete"
        },
        119 => {
            proof { reveal_strlit("End"); }
            "End"
        },
        121 => {
            proof { reveal_strlit("Page Down"); }
            "Page Down"
        },
        122 => {
            proof { reveal_strlit("F1"); }
            "F1"
        },
        120 => {
            proof { reveal_strlit("F2"); }
            "F2"
        },
        99 => {
            proof { reveal_strlit("F3"); }
            "F3"
        },
        118 => {
            proof { reveal_strlit("F4"); }
            "F4"
        },
        96 => {
            proof { reveal_strlit("F5"); }
            "F5"
        },
        97 => {
            proof { reveal_strlit("F6"); }
            "F6"
        },
        98 => {
            proof { reveal_strlit("F7"); }
            "F7"
        },
        100 => {
            proof { reveal_strlit("F8"); }
            "F8"
        },
        101 => {
            proof { reveal_strlit("F9"); }
            "F9"
        },
        109 => {
            proof { reveal_strlit("F10"); }
            "F10"
        },
        103 => {
            proof { reveal_strlit("F11"); }
            "F11"
        },
        111 => {
            proof { reveal_strlit("F12"); }
            "F12"
        },
        123 => {
            proof { reveal_strlit("Left Arrow"); }
            "Left Arrow"
        },
        124 => {
            proof { reveal_strlit("Right Arrow"); }
            "Right Arrow"
        },
        125 => {
            proof { reveal_strlit("Down Arrow"); }
            "Down Arrow"
        },
        126 => {
            proof { reveal_strlit("Up Arrow"); }
            "Up Arrow"
        },
        _ => return None,
    };
    Some(name)
}

fn key_code_name_of(key_code: u16) -> (r: String)
    ensures
        r@ == key_code_name(key_code),
{
    match named_key_of(key_code) {
        Some(name) => String::from_str(name),
        None => {
            proof { reveal_strlit("Key "); }
            let mut s = String::from_str("Key ");
            push_decimal(&mut s, key_code as u64);
            s
        },
    }
}

} // verus!
