use workflow_step_editor::domain::key_semantics::KeySemantics;
use workflow_step_editor::domain::parser::parse_step;
use workflow_step_editor::domain::schema::{
    CaptureMeta, Classification, Coord, ElementInfo, ElementSource, Event, EventKind, KeyInfo,
    Manifest, Modifier, MouseButton, Pos, Rect, ShotPaths, Step, WindowInfo,
};
use workflow_step_editor::recording::manifest_json::manifest_json;

fn coord(v: f64) -> Coord {
    Coord { bits: v.to_bits(), rounded: v.round() as i64 }
}

fn window(app: &str) -> Option<WindowInfo> {
    Some(WindowInfo {
        app: app.into(),
        title: "Untitled".into(),
        pid: 871,
        bounds: Rect { x: 100, y: 50, w: 800, h: 600 },
    })
}

fn element(role: Option<&str>, title: Option<&str>) -> ElementInfo {
    ElementInfo {
        role: role.map(Into::into),
        title: title.map(Into::into),
        frame: Rect { x: 480, y: 360, w: 80, h: 32 },
        source: if role.is_some() { ElementSource::Ax } else { ElementSource::Fallback },
    }
}

fn click_event(window: Option<WindowInfo>, element: ElementInfo) -> Event {
    Event {
        id: "evt_0001".into(),
        ts: "2026-08-16T22:31:05.123Z".into(),
        kind: EventKind::Click,
        display_id: 1,
        pos: Pos { x: coord(512.0), y: coord(384.0) },
        button: Some(MouseButton::Left),
        key: None,
        window,
        element,
        shots: ShotPaths::for_event("evt_0001"),
        capture: CaptureMeta { frame_age_ms: 12 },
    }
}

fn key_event(app: &str, key_code: u16, chars: &str, modifiers: Vec<Modifier>) -> Event {
    Event {
        key: Some(KeyInfo { key_code, chars: chars.into(), modifiers }),
        kind: EventKind::KeyDown,
        button: None,
        ..click_event(window(app), element(Some("AXTextArea"), None))
    }
}

fn title(event: &Event, frontmost_app: Option<&str>) -> String {
    parse_step("step_0001".into(), event, frontmost_app).title
}

// Key semantics.

#[test]
fn plain_key_is_not_a_chord() {
    assert!(!KeySemantics::is_chord(&[]));
}

#[test]
fn shift_only_key_is_not_a_chord() {
    assert!(!KeySemantics::is_chord(&[Modifier::Shift]));
}

#[test]
fn lock_key_is_not_a_chord() {
    assert!(!KeySemantics::is_chord(&[Modifier::CapsLock]));
    assert!(!KeySemantics::is_chord(&[Modifier::CapsLock, Modifier::Shift]));
}

#[test]
fn one_non_shift_semantic_modifier_makes_a_chord() {
    assert!(KeySemantics::is_chord(&[Modifier::Command]));
    assert!(KeySemantics::is_chord(&[Modifier::Control]));
    assert!(KeySemantics::is_chord(&[Modifier::Option]));
    assert!(KeySemantics::is_chord(&[Modifier::Fn]));
}

#[test]
fn multiple_modifiers_make_a_chord_and_normalize_in_order() {
    let held = [
        Modifier::Command,
        Modifier::Shift,
        Modifier::Fn,
        Modifier::Option,
        Modifier::Control,
    ];
    assert!(KeySemantics::is_chord(&held));
    assert_eq!(
        KeySemantics::presented_modifiers(&held),
        vec![
            Modifier::Fn,
            Modifier::Control,
            Modifier::Option,
            Modifier::Shift,
            Modifier::Command,
        ],
    );
}

#[test]
fn lock_keys_are_dropped_from_the_presented_chord() {
    let held = [Modifier::CapsLock, Modifier::Command];
    assert!(KeySemantics::is_chord(&held));
    assert_eq!(KeySemantics::presented_modifiers(&held), vec![Modifier::Command]);
}

#[test]
fn repeated_key_downs_under_a_held_modifier_yield_one_verdict_each() {
    let held = [Modifier::Command];
    let verdicts: Vec<bool> = (0..3).map(|_| KeySemantics::is_chord(&held)).collect();
    assert_eq!(verdicts, vec![true, true, true]);
}

#[test]
fn modifier_labels_are_the_presentation_names() {
    let labels: Vec<&str> = [
        Modifier::Fn,
        Modifier::Control,
        Modifier::Option,
        Modifier::Shift,
        Modifier::Command,
        Modifier::CapsLock,
    ]
    .iter()
    .map(|m| KeySemantics::modifier_label(*m))
    .collect();
    assert_eq!(labels, vec!["Fn", "Ctrl", "Opt", "Shift", "Cmd", "CapsLock"]);
    assert!(!KeySemantics::is_semantic_modifier(Modifier::CapsLock));
    assert!(!KeySemantics::is_semantic_modifier(Modifier::Shift));
    assert!(KeySemantics::is_semantic_modifier(Modifier::Command));
}

#[test]
fn presentation_is_idempotent_and_drops_duplicates_of_nothing() {
    let held = [Modifier::Shift, Modifier::Command, Modifier::Fn];
    let once = KeySemantics::presented_modifiers(&held);
    let twice = KeySemantics::presented_modifiers(&once);
    assert_eq!(once, twice);
    assert_eq!(once, vec![Modifier::Fn, Modifier::Shift, Modifier::Command]);
}

// Step parsing.

#[test]
fn titled_element_click_uses_the_quoted_element_title() {
    let event = click_event(window("TextEdit"), element(Some("AXButton"), Some("OK")));
    assert_eq!(title(&event, None), "Click \"OK\" \u{2014} TextEdit");
}

#[test]
fn untitled_element_click_falls_back_to_the_role() {
    let event = click_event(window("TextEdit"), element(Some("AXButton"), None));
    assert_eq!(title(&event, None), "Click \"AXButton\" \u{2014} TextEdit");
}

#[test]
fn unresolved_element_click_falls_back_to_coordinates() {
    let event = click_event(window("TextEdit"), element(None, None));
    assert_eq!(title(&event, None), "Click at (512, 384) \u{2014} TextEdit");
}

#[test]
fn empty_element_names_fall_back_to_coordinates() {
    let event = click_event(window("TextEdit"), element(Some(""), Some(" ")));
    assert_eq!(title(&event, None), "Click at (512, 384) \u{2014} TextEdit");
}

#[test]
fn plain_key_press_uppercases_the_character() {
    let event = key_event("Chrome", 4, "h", vec![]);
    assert_eq!(title(&event, None), "Press H \u{2014} Chrome");
}

#[test]
fn shift_only_key_shows_no_modifier_prefix() {
    let event = key_event("Chrome", 4, "H", vec![Modifier::Shift]);
    assert_eq!(title(&event, None), "Press H \u{2014} Chrome");
}

#[test]
fn command_chord_uses_the_cmd_prefix() {
    let event = key_event("TextEdit", 1, "s", vec![Modifier::Command]);
    assert_eq!(title(&event, None), "Press Cmd+S \u{2014} TextEdit");
}

#[test]
fn shift_appears_inside_a_chord() {
    let event = key_event("TextEdit", 1, "s", vec![Modifier::Shift, Modifier::Command]);
    assert_eq!(title(&event, None), "Press Shift+Cmd+S \u{2014} TextEdit");
}

#[test]
fn fn_combinations_normalize_in_fn_ctrl_opt_shift_cmd_order() {
    let event = key_event(
        "Terminal",
        96,
        "",
        vec![Modifier::Command, Modifier::Fn, Modifier::Control],
    );
    assert_eq!(title(&event, None), "Press Fn+Ctrl+Cmd+F5 \u{2014} Terminal");

    let all = key_event(
        "Terminal",
        1,
        "s",
        vec![
            Modifier::Shift,
            Modifier::Command,
            Modifier::Option,
            Modifier::Fn,
            Modifier::Control,
        ],
    );
    assert_eq!(title(&all, None), "Press Fn+Ctrl+Opt+Shift+Cmd+S \u{2014} Terminal");
}

#[test]
fn fn_only_chord_names_the_special_key() {
    let event = key_event("Finder", 123, "", vec![Modifier::Fn]);
    assert_eq!(title(&event, None), "Press Fn+Left Arrow \u{2014} Finder");
}

#[test]
fn null_window_title_falls_back_to_the_frontmost_app() {
    let event = click_event(None, element(None, None));
    assert_eq!(title(&event, Some("Finder")), "Click at (512, 384) \u{2014} Finder");
}

#[test]
fn null_window_without_frontmost_app_falls_back_to_unknown() {
    let event = click_event(None, element(None, None));
    assert_eq!(title(&event, None), "Click at (512, 384) \u{2014} Unknown");
    assert_eq!(title(&event, Some(" ")), "Click at (512, 384) \u{2014} Unknown");
}

#[test]
fn click_classification_defaults_to_click() {
    let event = click_event(window("TextEdit"), element(Some("AXButton"), Some("OK")));
    let step = parse_step("step_0001".into(), &event, None);
    assert_eq!(step.classification, Classification::Click);
    assert_eq!(step.event_ids, vec!["evt_0001".to_owned()]);
}

#[test]
fn key_down_classification_defaults_to_type() {
    let event = key_event("Chrome", 4, "h", vec![]);
    let step = parse_step("step_0001".into(), &event, None);
    assert_eq!(step.classification, Classification::Type);
}

#[test]
fn description_defaults_to_empty() {
    let event = key_event("Chrome", 4, "h", vec![]);
    let step = parse_step("step_0001".into(), &event, None);
    assert_eq!(step.description, "");
}

#[test]
fn an_unnamed_key_code_shows_its_number() {
    let event = key_event("Chrome", 250, "", vec![]);
    assert_eq!(title(&event, None), "Press Key 250 \u{2014} Chrome");
}

#[test]
fn negative_coordinates_round_half_away_from_zero() {
    let mut event = click_event(window("TextEdit"), element(None, None));
    event.pos = Pos { x: coord(-12.5), y: coord(7.4) };
    assert_eq!(title(&event, None), "Click at (-13, 7) \u{2014} TextEdit");
}

// Schema.

#[test]
fn shot_paths_derive_from_the_event_id() {
    assert_eq!(
        ShotPaths::for_event("evt_0001"),
        ShotPaths {
            full: "shots/evt_0001.full.png".into(),
            window: "shots/evt_0001.window.png".into(),
            element: "shots/evt_0001.element.png".into(),
        },
    );
}

const GOLDEN_MANIFEST: &str = r#"{"schema_version":1,"id":"01H...","name":"Approve invoice",
 "created_at":"2026-08-16T22:31:00Z",
 "steps":[{"id":"step_01H...","event_ids":["evt_01H..."],
   "classification":"click","title":"Click OK","description":""}]}"#;

fn text(value: &serde_json::Value, key: &str) -> String {
    value.get(key).and_then(|v| v.as_str()).expect("string field").to_owned()
}

fn classification(name: &str) -> Classification {
    match name {
        "click" => Classification::Click,
        "type" => Classification::Type,
        "wait" => Classification::Wait,
        "assert" => Classification::Assert,
        other => panic!("not a classification: {other}"),
    }
}

/// Reads the golden JSON into the schema type field by field.
fn manifest_from(value: &serde_json::Value) -> Manifest {
    let steps = value
        .get("steps")
        .and_then(|v| v.as_array())
        .expect("steps")
        .iter()
        .map(|step| Step {
            id: text(step, "id"),
            event_ids: step
                .get("event_ids")
                .and_then(|v| v.as_array())
                .expect("event_ids")
                .iter()
                .map(|id| id.as_str().expect("event id").to_owned())
                .collect(),
            classification: classification(&text(step, "classification")),
            title: text(step, "title"),
            description: text(step, "description"),
        })
        .collect();
    Manifest {
        schema_version: value.get("schema_version").and_then(|v| v.as_u64()).expect("version")
            as u32,
        id: text(value, "id"),
        name: text(value, "name"),
        created_at: text(value, "created_at"),
        steps,
    }
}

#[test]
fn golden_manifest_round_trips_exactly() {
    let original: serde_json::Value = serde_json::from_str(GOLDEN_MANIFEST).unwrap();
    let typed = manifest_from(&original);
    let reserialized: serde_json::Value = serde_json::from_str(&manifest_json(&typed)).unwrap();
    assert_eq!(reserialized, original);
}

#[test]
fn manifest_text_is_indented_and_newline_terminated() {
    let manifest = Manifest {
        schema_version: 1,
        id: "2026-08-16-223105-00ab".into(),
        name: "Say \"hi\"\n\ttab\\".into(),
        created_at: "2026-08-16T22:31:05Z".into(),
        steps: vec![Step {
            id: "step_0001".into(),
            event_ids: vec!["evt_0001".into(), "evt_0002".into()],
            classification: Classification::Type,
            title: "Press H \u{2014} Chrome".into(),
            description: "\u{1}".into(),
        }],
    };
    let expected = "{\n  \"schema_version\": 1,\n  \"id\": \"2026-08-16-223105-00ab\",\n  \"name\": \"Say \\\"hi\\\"\\n\\ttab\\\\\",\n  \"created_at\": \"2026-08-16T22:31:05Z\",\n  \"steps\": [\n    {\n      \"id\": \"step_0001\",\n      \"event_ids\": [\n        \"evt_0001\",\n        \"evt_0002\"\n      ],\n      \"classification\": \"type\",\n      \"title\": \"Press H \u{2014} Chrome\",\n      \"description\": \"\\u0001\"\n    }\n  ]\n}\n";
    assert_eq!(manifest_json(&manifest), expected);
    let parsed: serde_json::Value = serde_json::from_str(expected).unwrap();
    assert_eq!(parsed["name"], "Say \"hi\"\n\ttab\\");
}

#[test]
fn an_empty_manifest_writes_empty_arrays() {
    let manifest = Manifest {
        schema_version: 1,
        id: "w".into(),
        name: "n".into(),
        created_at: "t".into(),
        steps: vec![],
    };
    assert_eq!(
        manifest_json(&manifest),
        "{\n  \"schema_version\": 1,\n  \"id\": \"w\",\n  \"name\": \"n\",\n  \"created_at\": \"t\",\n  \"steps\": []\n}\n",
    );
}
