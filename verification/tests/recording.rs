use workflow_step_editor::commands::path_free_error;
use workflow_step_editor::domain::schema::{
    CaptureMeta, Classification, Coord, ElementInfo, ElementSource, Event, EventKind, KeyInfo,
    Manifest, Modifier, MouseButton, Pos, Rect, ShotPaths, Step, WindowInfo,
};
use workflow_step_editor::permissions::{PermissionReport, PermissionStatus};
use workflow_step_editor::recording::channel::LiveEnvelope;
use workflow_step_editor::recording::clock::{
    default_workflow_name, event_timestamp, folder_prefix, manifest_timestamp, SystemClock,
};
use workflow_step_editor::recording::coordinator::{
    apply_step_patch, check_permissions, remove_step, rename_manifest, rename_target, resolve_workflow_name,
    stop_result, Phase, RecordingError, StepPatch,
};
use workflow_step_editor::recording::fake_pipeline::fixture_shots;
use workflow_step_editor::recording::pipeline::{CapturePacket, PacketInput};
use workflow_step_editor::recording::session::{
    persistence_failure, terminal_envelope, Outcome, PacketDecision, SessionWorker,
};
use workflow_step_editor::recording::store::{
    candidate_workflow_id, check_event_for_append, check_manifest_for_save, check_schema_version,
    assemble_events, entropy_suffix, event_span_ms, io_error, new_manifest, shot_file, sort_newest_first,
    split_event_log, summarize, validate_event_id, validate_workflow_id, ShotVariant, StoreError,
    UnpublishedWorkflow, WorkflowSummary,
};

/// 2026-08-16T22:31:05.123Z.
const INSTANT_MS: i64 = 1_786_919_465_123;

fn coord(v: f64) -> Coord {
    Coord { bits: v.to_bits(), rounded: v.round() as i64 }
}

fn text_edit() -> Option<WindowInfo> {
    Some(WindowInfo {
        app: "TextEdit".into(),
        title: "Untitled".into(),
        pid: 871,
        bounds: Rect { x: 100, y: 50, w: 800, h: 600 },
    })
}

fn click_packet() -> CapturePacket {
    CapturePacket {
        input: PacketInput::Click { button: MouseButton::Left },
        pos: Pos { x: coord(512.0), y: coord(384.0) },
        display_id: 1,
        window: text_edit(),
        element: ElementInfo {
            role: Some("AXButton".into()),
            title: Some("OK".into()),
            frame: Rect { x: 480, y: 360, w: 80, h: 32 },
            source: ElementSource::Ax,
        },
        frontmost_app: Some("TextEdit".into()),
        frame_age_ms: 12,
        shots: fixture_shots(),
    }
}

fn key_packet() -> CapturePacket {
    CapturePacket {
        input: PacketInput::KeyDown {
            key: KeyInfo { key_code: 1, chars: "s".into(), modifiers: vec![Modifier::Command] },
        },
        element: ElementInfo {
            role: Some("AXTextArea".into()),
            title: None,
            frame: Rect { x: 120, y: 80, w: 760, h: 540 },
            source: ElementSource::Ax,
        },
        frame_age_ms: 9,
        ..click_packet()
    }
}

fn sample_event(id: &str, ts: &str) -> Event {
    Event {
        id: id.into(),
        ts: ts.into(),
        kind: EventKind::Click,
        display_id: 1,
        pos: Pos { x: coord(512.0), y: coord(384.0) },
        button: Some(MouseButton::Left),
        key: None,
        window: text_edit(),
        element: click_packet().element,
        shots: ShotPaths::for_event(id),
        capture: CaptureMeta { frame_age_ms: 12 },
    }
}

fn step(id: &str, event_id: &str) -> Step {
    Step {
        id: id.into(),
        event_ids: vec![event_id.into()],
        classification: Classification::Click,
        title: format!("Title of {id}"),
        description: String::new(),
    }
}

fn manifest(id: &str, steps: Vec<Step>) -> Manifest {
    Manifest {
        schema_version: 1,
        id: id.into(),
        name: "w".into(),
        created_at: "2026-08-16T22:31:05Z".into(),
        steps,
    }
}

// Clock.

#[test]
fn formats_match_the_schema_examples() {
    assert_eq!(event_timestamp(INSTANT_MS), "2026-08-16T22:31:05.123Z");
    assert_eq!(manifest_timestamp(INSTANT_MS), "2026-08-16T22:31:05Z");
    assert_eq!(folder_prefix(INSTANT_MS), "2026-08-16-223105");
    assert_eq!(default_workflow_name(INSTANT_MS), "2026-08-16 22:31:05");
}

#[test]
fn the_system_clock_reads_a_recent_instant() {
    // 2024-01-01T00:00:00Z.
    assert!(SystemClock.now_ms().unwrap() > 1_704_067_200_000);
}

// Fixtures.

#[test]
fn fixture_shot_payloads_are_pairwise_distinct() {
    let shots = fixture_shots();
    assert_ne!(shots.full, shots.window);
    assert_ne!(shots.full, shots.element);
    assert_ne!(shots.window, shots.element);
}

#[test]
fn fixture_shots_are_one_pixel_pngs() {
    let shots = fixture_shots();
    for payload in [&shots.full, &shots.window, &shots.element] {
        let decoder = png::Decoder::new(std::io::Cursor::new(payload.as_slice()));
        let mut reader = decoder.read_info().unwrap();
        let mut buffer = vec![0; reader.output_buffer_size().unwrap()];
        let info = reader.next_frame(&mut buffer).unwrap();
        assert_eq!((info.width, info.height), (1, 1));
    }
}

// Store rules.

#[test]
fn shot_variants_parse_from_the_allowlist_only() {
    assert_eq!(ShotVariant::from_str("full").unwrap(), ShotVariant::Full);
    assert_eq!(ShotVariant::from_str("window").unwrap(), ShotVariant::Window);
    assert_eq!(ShotVariant::from_str("element").unwrap(), ShotVariant::Element);
    for bad in ["Full", "screen", "window.png", "../window", ""] {
        assert!(ShotVariant::from_str(bad).is_err(), "variant {bad:?} must be rejected");
    }
}

#[test]
fn an_unknown_variant_names_the_allowlist() {
    let error = ShotVariant::from_str("screen").unwrap_err();
    assert_eq!(
        error.to_string(),
        "unknown screenshot variant: \"screen\" (expected full, window, or element)",
    );
    let parsed: ShotVariant = "element".parse().unwrap();
    assert_eq!(parsed.file_suffix(), "element");
}

#[test]
fn traversal_workflow_ids_are_rejected() {
    for id in ["", "..", "../x", "a/b", "a\\b", ".hidden", "a b"] {
        let error = validate_workflow_id(id).unwrap_err();
        assert!(matches!(error, StoreError::InvalidWorkflowId(_)), "id {id:?} got {error:?}");
    }
    assert!(validate_workflow_id("2026-08-16-223105-00ab").is_ok());
    assert!(validate_workflow_id(&"a".repeat(128)).is_ok());
    assert!(validate_workflow_id(&"a".repeat(129)).is_err());
}

#[test]
fn event_ids_follow_the_same_rule() {
    assert!(validate_event_id("evt_0001").is_ok());
    assert_eq!(
        validate_event_id("../evt").unwrap_err(),
        StoreError::InvalidEventId("../evt".into()),
    );
}

#[test]
fn non_canonical_shot_paths_are_rejected_before_any_write() {
    let mut event = sample_event("evt_0001", "2026-08-16T22:31:05.123Z");
    assert!(check_event_for_append(&event).is_ok());
    event.shots.window = "shots/evt_0002.window.png".into();
    assert_eq!(
        check_event_for_append(&event).unwrap_err(),
        StoreError::InvalidShotPaths { event_id: "evt_0001".into() },
    );
}

#[test]
fn save_manifest_rejects_a_manifest_for_a_different_workflow() {
    let error = check_manifest_for_save("wf_a", &manifest("wf_b", vec![])).unwrap_err();
    assert_eq!(
        error,
        StoreError::ManifestIdMismatch { workflow_id: "wf_a".into(), manifest_id: "wf_b".into() },
    );
    assert!(check_manifest_for_save("wf_a", &manifest("wf_a", vec![])).is_ok());
}

#[test]
fn save_manifest_rejects_a_non_v1_schema_version() {
    let mut m = manifest("wf_a", vec![]);
    m.schema_version = 2;
    assert_eq!(
        check_manifest_for_save("wf_a", &m).unwrap_err(),
        StoreError::UnsupportedSchemaVersion(2),
    );
}

#[test]
fn load_rejects_an_unsupported_schema_version_explicitly() {
    assert!(check_schema_version(1).is_ok());
    let error = check_schema_version(7).unwrap_err();
    assert_eq!(
        error.to_string(),
        "unsupported schema version 7; this build supports version 1",
    );
}

#[test]
fn load_skips_a_torn_final_jsonl_line() {
    let lines = split_event_log("{\"a\":1}\n{\"b\":2}\n{\"c\"");
    assert_eq!(lines.complete, vec!["{\"a\":1}".to_owned(), "{\"b\":2}".to_owned()]);
    assert_eq!(lines.torn_candidate.as_deref(), Some("{\"c\""));

    let lines = split_event_log("{\"a\":1}\n");
    assert_eq!(lines.complete, vec!["{\"a\":1}".to_owned()]);
    assert_eq!(lines.torn_candidate, None);

    let lines = split_event_log("");
    assert!(lines.complete.is_empty());
    assert_eq!(lines.torn_candidate, None);
}

#[test]
fn summaries_carry_step_count_duration_and_thumbnail_reference() {
    let events = vec![
        sample_event("evt_0001", "2026-08-16T22:31:05.100Z"),
        sample_event("evt_0002", "2026-08-16T22:31:06.000Z"),
        sample_event("evt_0003", "2026-08-16T22:31:23.350Z"),
    ];
    let steps = vec![
        step("step_0001", "evt_0001"),
        step("step_0002", "evt_0002"),
        step("step_0003", "evt_0003"),
    ];
    let summary = summarize("wf".into(), manifest("wf", steps), Some(events));
    assert_eq!(summary.step_count, 3);
    assert_eq!(summary.duration_ms, Some(18_250));
    assert_eq!(summary.thumbnail_event_id.as_deref(), Some("evt_0001"));
    assert_eq!(summary.created_at, "2026-08-16T22:31:05Z");
}

#[test]
fn zero_and_single_event_workflows_report_zero_duration() {
    let empty = summarize("empty".into(), manifest("empty", vec![]), Some(vec![]));
    assert_eq!(empty.step_count, 0);
    assert_eq!(empty.duration_ms, Some(0));
    assert_eq!(empty.thumbnail_event_id, None);

    let event = sample_event("evt_0001", "2026-08-16T22:31:05.123Z");
    let single = summarize(
        "single".into(),
        manifest("single", vec![step("step_0001", "evt_0001")]),
        Some(vec![event]),
    );
    assert_eq!(single.step_count, 1);
    assert_eq!(single.duration_ms, Some(0));
    assert_eq!(single.thumbnail_event_id.as_deref(), Some("evt_0001"));
}

#[test]
fn a_damaged_event_log_keeps_the_row_listed_with_placeholders() {
    let summary =
        summarize("wf".into(), manifest("wf", vec![step("step_0001", "evt_0001")]), None);
    assert_eq!(summary.step_count, 1);
    assert_eq!(summary.duration_ms, None);
    assert_eq!(summary.thumbnail_event_id, None);
}

#[test]
fn event_logs_assemble_in_order_keeping_only_a_parseable_torn_line() {
    let first = sample_event("evt_0001", "2026-08-16T22:31:05.100Z");
    let second = sample_event("evt_0002", "2026-08-16T22:31:06.000Z");
    let torn = sample_event("evt_0003", "2026-08-16T22:31:07.000Z");
    let events = assemble_events(
        "wf",
        vec![Ok(first.clone()), Ok(second.clone())],
        Some(Ok(torn.clone())),
    )
    .unwrap();
    assert_eq!(events, vec![first.clone(), second.clone(), torn]);
    let skipped =
        assemble_events("wf", vec![Ok(first.clone())], Some(Err("EOF while parsing".into()))).unwrap();
    assert_eq!(skipped, vec![first.clone()]);
    assert_eq!(assemble_events("wf", vec![], None).unwrap(), vec![]);
}

#[test]
fn the_first_corrupt_line_is_reported_with_its_line_number() {
    let first = sample_event("evt_0001", "2026-08-16T22:31:05.100Z");
    let error = assemble_events(
        "wf",
        vec![Ok(first), Err("expected value".into()), Err("trailing characters".into())],
        None,
    )
    .unwrap_err();
    assert_eq!(
        error,
        StoreError::CorruptEvents { workflow_id: "wf".into(), line: 2, detail: "expected value".into() }
    );
}

#[test]
fn a_leap_second_is_counted_as_chrono_subtracts() {
    // The time of day moves past the leap second: it counts.
    let past = vec![
        sample_event("evt_0001", "2016-12-31T23:30:60Z"),
        sample_event("evt_0002", "2016-12-31T23:31:00Z"),
    ];
    assert_eq!(event_span_ms(&past), Some(1_000));
    // Into a leap second within the same second of the day.
    let into = vec![
        sample_event("evt_0001", "2016-12-31T23:59:59Z"),
        sample_event("evt_0002", "2016-12-31T23:59:60.500Z"),
    ];
    assert_eq!(event_span_ms(&into), Some(1_500));
    // Across midnight the days count whole and the leap second does not.
    let across = vec![
        sample_event("evt_0001", "2016-12-31T23:59:60.250Z"),
        sample_event("evt_0002", "2017-01-01T00:00:01Z"),
    ];
    assert_eq!(event_span_ms(&across), Some(750));
}

#[test]
fn an_unparseable_endpoint_timestamp_has_no_span() {
    let events = vec![
        sample_event("evt_0001", "not a time"),
        sample_event("evt_0002", "2026-08-16T22:31:06.000Z"),
    ];
    assert_eq!(event_span_ms(&events), None);
    // A last event earlier than the first clamps at zero.
    let events = vec![
        sample_event("evt_0001", "2026-08-16T22:31:06.000Z"),
        sample_event("evt_0002", "2026-08-16T22:31:05.000Z"),
    ];
    assert_eq!(event_span_ms(&events), Some(0));
}

fn row(id: &str) -> WorkflowSummary {
    WorkflowSummary {
        id: id.into(),
        name: id.into(),
        created_at: "2026-08-16T22:31:05Z".into(),
        step_count: 0,
        duration_ms: Some(0),
        thumbnail_event_id: None,
    }
}

#[test]
fn list_returns_summaries_newest_first() {
    let rows = vec![
        row("2026-08-16-223105-00ab"),
        row("2026-08-17-080000-ffff"),
        row("2026-08-16-223105-01cd"),
    ];
    let ids: Vec<String> = sort_newest_first(rows).into_iter().map(|r| r.id).collect();
    assert_eq!(
        ids,
        vec![
            "2026-08-17-080000-ffff".to_owned(),
            "2026-08-16-223105-01cd".to_owned(),
            "2026-08-16-223105-00ab".to_owned(),
        ],
    );
}

#[test]
fn new_workflows_get_a_readable_id_and_an_empty_v1_manifest() {
    assert_eq!(entropy_suffix(0x1234_abcd), "abcd");
    assert_eq!(entropy_suffix(0x7), "0007");
    let id = candidate_workflow_id(INSTANT_MS, 0x00ab);
    assert_eq!(id, "2026-08-16-223105-00ab");
    assert!(validate_workflow_id(&id).is_ok());

    let m = new_manifest(id.clone(), "Approve invoice", INSTANT_MS);
    assert_eq!(m, Manifest {
        schema_version: 1,
        id,
        name: "Approve invoice".into(),
        created_at: "2026-08-16T22:31:05Z".into(),
        steps: vec![],
    });
}

#[test]
fn publishing_disarms_the_rollback() {
    let mut claim = UnpublishedWorkflow::new("wf_1".into());
    assert_eq!(claim.id(), "wf_1");
    assert!(claim.is_armed());
    assert_eq!(claim.publish(), "wf_1");
    assert!(!claim.is_armed());
}

#[test]
fn read_shot_rejects_non_canonical_ids() {
    assert_eq!(shot_file("evt_0001", ShotVariant::Window).unwrap(), "evt_0001.window.png");
    assert_eq!(
        shot_file("../evt_0001", ShotVariant::Full).unwrap_err(),
        StoreError::InvalidEventId("../evt_0001".into()),
    );
}

#[test]
fn store_errors_render_their_messages() {
    assert_eq!(
        StoreError::InvalidWorkflowId("../x".into()).to_string(),
        "invalid workflow id: \"../x\"",
    );
    assert_eq!(
        StoreError::CorruptEvents { workflow_id: "wf".into(), line: 3, detail: "eof".into() }
            .to_string(),
        "corrupt event log for workflow wf at line 3: eof",
    );
    assert_eq!(
        io_error("read file", "permission denied".into()).to_string(),
        "read file: permission denied",
    );
}

// Commands.

#[test]
fn path_free_mapping_passes_id_only_variants_through() {
    for error in [
        RecordingError::Store(StoreError::NotFound("wf_1".to_owned())),
        RecordingError::Store(StoreError::InvalidWorkflowId("../x".to_owned())),
        RecordingError::Store(StoreError::InvalidEventId("a/b".to_owned())),
    ] {
        assert_eq!(path_free_error(&error), error.to_string());
    }
}

#[test]
fn dec_007_ipc_error_strings_never_carry_a_filesystem_path() {
    let path_bearing = [
        RecordingError::Store(StoreError::SymlinkRejected("/private/store/wf_1/shots".into())),
        RecordingError::Store(StoreError::Io {
            context: "open /private/store/wf_1/shots/evt_9999.window.png".to_owned(),
            source: "entity not found".into(),
        }),
    ];
    for error in &path_bearing {
        let message = path_free_error(error);
        assert!(!message.contains('/'), "filesystem path leaked into the IPC error string: {message}");
    }
}

// Session worker.

#[test]
fn own_app_events_are_dropped_before_any_number_is_used() {
    let mut worker = SessionWorker::new("wf".into(), 871);
    assert!(matches!(worker.accept_packet(click_packet(), INSTANT_MS), PacketDecision::Drop));

    let mut worker = SessionWorker::new("wf".into(), 42);
    match worker.accept_packet(click_packet(), INSTANT_MS) {
        PacketDecision::Persist { event, shots, frontmost_app } => {
            assert_eq!(event.id, "evt_0001");
            assert_eq!(event.ts, "2026-08-16T22:31:05.123Z");
            assert_eq!(event.kind, EventKind::Click);
            assert_eq!(event.button, Some(MouseButton::Left));
            assert_eq!(event.shots, ShotPaths::for_event("evt_0001"));
            assert_eq!(event.capture, CaptureMeta { frame_age_ms: 12 });
            assert_eq!(shots, fixture_shots());
            assert_eq!(frontmost_app.as_deref(), Some("TextEdit"));
        }
        PacketDecision::Drop => panic!("a foreign window's click must persist"),
    }
}

#[test]
fn committed_events_publish_steps_in_order_and_finalize_into_the_manifest() {
    let mut worker = SessionWorker::new("wf".into(), 42);
    let mut published = Vec::new();
    for packet in [click_packet(), key_packet()] {
        match worker.accept_packet(packet, INSTANT_MS) {
            PacketDecision::Persist { event, frontmost_app, .. } => {
                published.push(worker.committed(&event, frontmost_app.as_deref()));
            }
            PacketDecision::Drop => panic!("unexpected drop"),
        }
    }
    let titles: Vec<String> = published
        .iter()
        .map(|item| match item {
            LiveEnvelope::Step { step, ts } => {
                assert_eq!(ts, "2026-08-16T22:31:05.123Z");
                format!("{} {}", step.id, step.title)
            }
            other => panic!("unexpected {other:?}"),
        })
        .collect();
    assert_eq!(
        titles,
        vec![
            "step_0001 Click \"OK\" \u{2014} TextEdit".to_owned(),
            "step_0002 Press Cmd+S \u{2014} TextEdit".to_owned(),
        ],
    );
    let finalized = worker.finalize(manifest("wf", vec![]));
    let ids: Vec<&str> = finalized.steps.iter().map(|s| s.id.as_str()).collect();
    assert_eq!(ids, vec!["step_0001", "step_0002"]);
    assert_eq!(finalized.steps[1].event_ids, vec!["evt_0002".to_owned()]);
    assert_eq!(finalized.steps[1].classification, Classification::Type);
}

#[test]
fn exactly_one_terminal_follows_each_outcome() {
    let stopped = terminal_envelope("wf".into(), Outcome::Stopped, &Ok(()));
    assert_eq!(stopped, LiveEnvelope::Stopped { workflow_id: "wf".into() });
    assert!(stopped.is_terminal());

    let failed = terminal_envelope("wf".into(), Outcome::Failed("stream lost".into()), &Ok(()));
    assert_eq!(failed, LiveEnvelope::Failed { workflow_id: "wf".into(), error: "stream lost".into() });

    let save_failed = terminal_envelope(
        "wf".into(),
        Outcome::Stopped,
        &Err(StoreError::NotFound("wf".into())),
    );
    assert_eq!(
        save_failed,
        LiveEnvelope::Failed {
            workflow_id: "wf".into(),
            error: "manifest save failed: workflow not found: wf".into(),
        },
    );
    assert_eq!(
        persistence_failure(&StoreError::NotFound("wf".into())),
        Outcome::Failed("event persistence failed: workflow not found: wf".into()),
    );
}

// Coordinator decisions.

#[test]
fn start_refuses_unless_all_three_permissions_pass() {
    let granted = PermissionReport {
        input_monitoring: PermissionStatus::Granted,
        accessibility: PermissionStatus::Granted,
        screen_recording: PermissionStatus::Granted,
    };
    assert!(check_permissions(granted).is_ok());
    let missing = PermissionReport { screen_recording: PermissionStatus::Denied, ..granted };
    let error = check_permissions(missing).unwrap_err();
    assert_eq!(error, RecordingError::PermissionsMissing(missing));
    assert_eq!(
        error.to_string(),
        "recording requires Input Monitoring, Accessibility, and Screen Recording; current status: input_monitoring=Granted, accessibility=Granted, screen_recording=Denied",
    );
}

#[test]
fn second_start_while_recording_is_refused() {
    let mut phase: Phase<u8> = Phase::Idle;
    assert!(phase.begin_start().is_ok());
    assert_eq!(phase.begin_start(), Err(RecordingError::AlreadyActive));
    phase.install("wf".into(), 1);
    assert_eq!(phase.begin_start(), Err(RecordingError::AlreadyActive));
}

#[test]
fn stop_without_an_active_recording_returns_a_defined_error() {
    let mut phase: Phase<u8> = Phase::Idle;
    assert_eq!(phase.begin_stop().unwrap_err(), RecordingError::NotRecording);
    assert_eq!(RecordingError::NotRecording.to_string(), "no active recording");
    phase.begin_start().unwrap();
    assert_eq!(phase.begin_stop().unwrap_err(), RecordingError::StartInProgress);
}

#[test]
fn stop_and_fail_stop_have_exactly_one_owner() {
    let mut phase: Phase<u8> = Phase::Idle;
    phase.begin_start().unwrap();
    phase.install("wf".into(), 9);
    let (id, session) = phase.begin_stop().unwrap();
    assert_eq!((id.as_str(), session), ("wf", 9));
    assert_eq!(phase.fail_takeover(), None);
    assert_eq!(phase.begin_stop().unwrap_err(), RecordingError::StopInProgress);

    let mut phase: Phase<u8> = Phase::Idle;
    phase.begin_start().unwrap();
    phase.install("wf".into(), 9);
    assert_eq!(phase.fail_takeover(), Some(9));
    assert_eq!(phase.begin_stop().unwrap_err(), RecordingError::StopInProgress);
    phase.finish();
    assert!(phase.begin_start().is_ok());
}

#[test]
fn active_workflow_mutations_are_rejected_while_others_stay_editable() {
    let mut phase: Phase<u8> = Phase::Idle;
    phase.begin_start().unwrap();
    phase.install("wf_active".into(), 1);
    assert_eq!(
        phase.guard_not_active("wf_active"),
        Err(RecordingError::WorkflowBusy("wf_active".into())),
    );
    assert!(phase.guard_not_active("wf_other").is_ok());
    phase.begin_stop().unwrap();
    assert!(phase.guard_not_active("wf_active").is_err());
    phase.finish();
    assert!(phase.guard_not_active("wf_active").is_ok());
}

#[test]
fn stop_surfaces_a_manifest_save_failure_instead_of_ok() {
    assert_eq!(stop_result("wf".into(), None), Ok("wf".into()));
    let error = stop_result("wf".into(), Some("manifest save failed: disk full".into())).unwrap_err();
    assert_eq!(
        error.to_string(),
        "recording finalization failed: manifest save failed: disk full",
    );
}

#[test]
fn blank_or_missing_name_defaults_to_the_timestamp() {
    assert_eq!(resolve_workflow_name(None, INSTANT_MS), "2026-08-16 22:31:05");
    assert_eq!(resolve_workflow_name(Some("   "), INSTANT_MS), "2026-08-16 22:31:05");
}

#[test]
fn an_explicit_name_is_kept() {
    assert_eq!(resolve_workflow_name(Some("  Approve invoice "), INSTANT_MS), "Approve invoice");
}

#[test]
fn update_step_patches_only_the_supplied_fields() {
    let mut m = manifest("wf", vec![step("step_0001", "evt_0001"), step("step_0002", "evt_0002")]);
    let patch = StepPatch {
        title: Some("Save the file".into()),
        description: None,
        classification: Some(Classification::Assert),
    };
    apply_step_patch(&mut m, "wf", "step_0002", patch).unwrap();
    assert_eq!(m.steps[0], step("step_0001", "evt_0001"));
    assert_eq!(m.steps[1].title, "Save the file");
    assert_eq!(m.steps[1].description, "");
    assert_eq!(m.steps[1].classification, Classification::Assert);
    assert_eq!(m.steps[1].event_ids, vec!["evt_0002".to_owned()]);
}

#[test]
fn unknown_step_writes_nothing() {
    let mut m = manifest("wf", vec![step("step_0001", "evt_0001")]);
    let before = m.clone();
    let error = apply_step_patch(&mut m, "wf", "step_9999", StepPatch::default()).unwrap_err();
    assert_eq!(
        error,
        RecordingError::StepNotFound { workflow_id: "wf".into(), step_id: "step_9999".into() },
    );
    assert_eq!(error.to_string(), "step step_9999 not found in workflow wf");
    assert_eq!(m, before);
    assert!(remove_step(&mut m, "wf", "step_9999").is_err());
    assert_eq!(m, before);
}

#[test]
fn delete_step_removes_only_that_entry() {
    let mut m = manifest("wf", vec![step("step_0001", "evt_0001"), step("step_0002", "evt_0002")]);
    remove_step(&mut m, "wf", "step_0001").unwrap();
    assert_eq!(m.steps, vec![step("step_0002", "evt_0002")]);
    assert_eq!(m.id, "wf");
}

#[test]
fn rename_changes_the_manifest_name_but_not_id_or_folder() {
    assert_eq!(rename_target("  Pay bill ").unwrap(), "Pay bill");
    assert_eq!(rename_target(" \t ").unwrap_err(), RecordingError::EmptyWorkflowName);
    assert_eq!(RecordingError::EmptyWorkflowName.to_string(), "workflow name cannot be empty");

    let mut m = manifest("wf", vec![step("step_0001", "evt_0001")]);
    rename_manifest(&mut m, " Pay bill\n").unwrap();
    assert_eq!(m.name, "Pay bill");
    assert_eq!(m.id, "wf");
    assert_eq!(m.steps, vec![step("step_0001", "evt_0001")]);
    assert_eq!(rename_manifest(&mut m, "  "), Err(RecordingError::EmptyWorkflowName));
    assert_eq!(m.name, "Pay bill");
}
