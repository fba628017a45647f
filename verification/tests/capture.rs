use std::sync::Arc;

use workflow_step_editor::capture::broker::{
    DisplayInfo, FrameBroker, FrameData, FrameSnapshot, POST_EVENT_FRAME_WINDOW_NS,
    POST_EVENT_SETTLE_NS,
};
use workflow_step_editor::capture::encoder::encode_crop_png;
use workflow_step_editor::capture::geometry::CropPx;
use workflow_step_editor::capture::health::FailLatch;
use workflow_step_editor::capture::hostclock::{
    normalize_event_timestamp_ns, MachTimebaseInfo, Timebase,
};
use workflow_step_editor::capture::packets::{
    element_source, encode_triple, require_frame, select_display, PacketBuildError,
};
use workflow_step_editor::capture::pipeline::{
    enqueue_failure, frame_set_bytes, frames_bytes_fit, health_step, tap_health_failure, warm_up_failure,
    warm_up_step, HealthAction, WarmUp,
};
use workflow_step_editor::capture::queue::{
    queue_capacity, CaptureQueue, EnqueueError, QueueDepth, RETAINED_FRAME_BYTE_BUDGET,
};
use workflow_step_editor::capture::streams::{
    coalesce, initial_start_failure, reconfigure_failure, restart_stream_failure,
    ManagerAction, StreamCommand,
};
use workflow_step_editor::capture::tap::{
    classify, copy_input, disabled_report, held_modifiers, key_chars, TapAction, TapEventType,
    TapInput, FLAG_ALPHA_SHIFT, FLAG_COMMAND, FLAG_SECONDARY_FN, FLAG_SHIFT,
};
use workflow_step_editor::capture::worker::{
    choose_frame, key_down_step, post_event_deadline, post_event_settle_point, wait_after_miss,
    FrameChoice, KeyDownStep,
};
use workflow_step_editor::domain::schema::{ElementSource, KeyInfo, Modifier, MouseButton};

// Host clock.

const APPLE_SILICON: Timebase = Timebase { numer: 125, denom: 3 };
const IDENTITY: Timebase = Timebase { numer: 1, denom: 1 };

#[test]
fn nanosecond_timestamps_pass_through() {
    let now_ns = 1_000_000_000_000;
    let raw = now_ns - 5_000_000;
    assert_eq!(normalize_event_timestamp_ns(raw, APPLE_SILICON, now_ns), raw);
    assert_eq!(normalize_event_timestamp_ns(raw, IDENTITY, now_ns), raw);
}

#[test]
fn tick_shaped_timestamps_convert_through_the_timebase() {
    let now_ns = 1_000_000_000_000;
    let raw_ticks = now_ns * 3 / 125;
    let normalized = normalize_event_timestamp_ns(raw_ticks, APPLE_SILICON, now_ns);
    assert_eq!(normalized, APPLE_SILICON.ticks_to_ns(raw_ticks));
    assert!(normalized.abs_diff(now_ns) < 1_000);
}

#[test]
fn ticks_convert_exactly_and_a_zero_denominator_counts_as_one() {
    assert_eq!(APPLE_SILICON.ticks_to_ns(24_000_000), 1_000_000_000);
    assert_eq!(Timebase { numer: 7, denom: 0 }.ticks_to_ns(3), 21);
    // The product is taken at full width before the division.
    assert_eq!(APPLE_SILICON.ticks_to_ns(u64::MAX), (u128::from(u64::MAX) * 125 / 3) as u64);
}

#[test]
fn a_failed_timebase_query_yields_the_identity_parts() {
    let timebase = Timebase::from_info(MachTimebaseInfo { numer: 0, denom: 0 });
    assert_eq!(timebase, IDENTITY);
    let timebase = Timebase::from_info(MachTimebaseInfo { numer: 125, denom: 3 });
    assert_eq!(timebase, APPLE_SILICON);
}

#[test]
fn equal_distances_keep_the_nanosecond_reading() {
    let timebase = Timebase { numer: 2, denom: 1 };
    // now = 15: raw 10 is 5 away; as ticks 20 is 5 away.
    assert_eq!(normalize_event_timestamp_ns(10, timebase, 15), 10);
    // now = 19: raw 10 is 9 away; as ticks 20 is 1 away.
    assert_eq!(normalize_event_timestamp_ns(10, timebase, 19), 20);
}

// Queue.

#[test]
fn capacity_comes_from_the_byte_budget_with_clamping() {
    let frame_set = 3456_u64 * 2234 * 4;
    assert_eq!(queue_capacity(RETAINED_FRAME_BYTE_BUDGET, frame_set), 26);
    assert_eq!(queue_capacity(RETAINED_FRAME_BYTE_BUDGET, u64::MAX / 2), 4);
    assert_eq!(queue_capacity(RETAINED_FRAME_BYTE_BUDGET, 1), 64);
    assert_eq!(queue_capacity(RETAINED_FRAME_BYTE_BUDGET, 0), 64);
}

#[test]
fn saturation_is_an_explicit_error_and_earlier_jobs_survive_in_order() {
    let mut queue = CaptureQueue::new(2);
    queue.enqueue(1_u64).unwrap();
    queue.enqueue(2).unwrap();
    assert_eq!(queue.enqueue(3), Err(EnqueueError::Saturated));

    assert_eq!(queue.recv(), Some(1));
    assert_eq!(queue.recv(), Some(2));
    queue.enqueue(4).unwrap();
    assert_eq!(queue.recv(), Some(4));
}

#[test]
fn a_closed_queue_reports_closed() {
    let mut queue = CaptureQueue::new(2);
    queue.close_receiver();
    assert_eq!(queue.enqueue(1_u64), Err(EnqueueError::Closed));
}

#[test]
fn depth_tracks_the_observed_maximum() {
    let mut queue = CaptureQueue::new(8);
    queue.enqueue(1_u64).unwrap();
    queue.enqueue(2).unwrap();
    queue.enqueue(3).unwrap();
    queue.recv().unwrap();
    queue.enqueue(4).unwrap();
    assert_eq!(queue.max_observed(), 3);
}

#[test]
fn the_worker_stops_only_once_senders_closed_and_jobs_drained() {
    let mut queue = CaptureQueue::new(4);
    queue.enqueue(7_u64).unwrap();
    assert!(!queue.is_drained());
    queue.close_senders();
    assert!(!queue.is_drained());
    assert_eq!(queue.len(), 1);
    assert_eq!(queue.recv(), Some(7));
    assert!(queue.is_drained());
    assert_eq!(queue.recv(), None);
}

#[test]
fn a_rejected_job_at_the_boundary_counts_in_the_observed_maximum() {
    let mut queue = CaptureQueue::new(1);
    queue.enqueue(1_u64).unwrap();
    assert_eq!(queue.enqueue(2), Err(EnqueueError::Saturated));
    assert_eq!(queue.max_observed(), 2);
    assert_eq!(queue.len(), 1);
}

#[test]
fn depth_counters_wrap_like_the_atomics() {
    let mut depth = QueueDepth::new();
    depth.on_dequeue();
    depth.on_enqueue();
    assert_eq!(depth.max_observed(), 0);
    depth.on_enqueue();
    depth.on_enqueue();
    depth.on_rejected();
    assert_eq!(depth.max_observed(), 2);
}

// Frame broker.

fn display(id: u32) -> DisplayInfo<u32> {
    DisplayInfo { id, geometry: 100 }
}

fn frame(id: u32, ts_ns: u64) -> Arc<FrameData<u32>> {
    Arc::new(FrameData {
        display_id: id,
        display: 100,
        width_px: 100,
        height_px: 100,
        bytes_per_row: 400,
        ts_ns,
        pixels: vec![0; 400 * 100],
    })
}

fn broker_with(displays: Vec<u32>) -> FrameBroker<u32> {
    let mut broker = FrameBroker::new();
    broker.publish_displays(displays.into_iter().map(display).collect());
    broker
}

#[test]
fn selects_the_newest_frame_not_later_than_the_event() {
    let mut broker = broker_with(vec![1]);
    broker.publish_frame(frame(1, 1_000));
    broker.publish_frame(frame(1, 2_000));
    let snapshot = broker.snapshot(2_500);
    assert_eq!(snapshot.frame_for(1).unwrap().ts_ns, 2_000);
    let snapshot = broker.snapshot(1_500);
    assert_eq!(snapshot.frame_for(1).unwrap().ts_ns, 1_000);
}

#[test]
fn an_equal_timestamp_is_eligible() {
    let mut broker = broker_with(vec![1]);
    broker.publish_frame(frame(1, 1_000));
    broker.publish_frame(frame(1, 2_000));
    let snapshot = broker.snapshot(2_000);
    let selected = snapshot.frame_for(1).unwrap();
    assert_eq!(selected.ts_ns, 2_000);
    assert_eq!(snapshot.frame_age_ms(selected), 0);
}

#[test]
fn a_delayed_callback_still_finds_its_pre_event_frame() {
    let mut broker = broker_with(vec![1]);
    broker.publish_frame(frame(1, 1_000));
    broker.publish_frame(frame(1, 2_000));
    let snapshot = broker.snapshot(1_500);
    let selected = snapshot.frame_for(1).unwrap();
    assert_eq!(selected.ts_ns, 1_000);
    assert_eq!(snapshot.frame_age_ms(selected), 0);
    let snapshot = broker.snapshot(2_000 + 600_000_000);
    assert_eq!(snapshot.frame_age_ms(snapshot.frame_for(1).unwrap()), 600);
}

#[test]
fn an_event_older_than_every_retained_frame_takes_the_oldest() {
    let mut broker = broker_with(vec![1]);
    broker.publish_frame(frame(1, 5_000));
    broker.publish_frame(frame(1, 6_000));
    let snapshot = broker.snapshot(1_000);
    let selected = snapshot.frame_for(1).unwrap();
    assert_eq!(selected.ts_ns, 5_000);
    assert_eq!(snapshot.frame_age_ms(selected), 0);
}

#[test]
fn advancing_the_broker_after_a_snapshot_keeps_the_pinned_predecessor() {
    let mut broker = broker_with(vec![1]);
    broker.publish_frame(frame(1, 1_000));
    let snapshot = broker.snapshot(1_500);
    broker.publish_frame(frame(1, 2_000));
    broker.publish_frame(frame(1, 3_000));
    assert_eq!(snapshot.frame_for(1).unwrap().ts_ns, 1_000);
    assert_eq!(broker.snapshot(3_500).frame_for(1).unwrap().ts_ns, 3_000);
}

#[test]
fn display_set_replacement_keeps_surviving_frames_and_live_leases() {
    let mut broker = broker_with(vec![1, 2]);
    broker.publish_frame(frame(1, 1_000));
    broker.publish_frame(frame(2, 1_100));
    let lease = broker.snapshot(1_200);

    let generation = broker.publish_displays(vec![display(1), display(3)]);
    assert_eq!(generation, 2);

    let snapshot = broker.snapshot(1_300);
    assert_eq!(snapshot.frame_for(1).unwrap().ts_ns, 1_000);
    assert!(snapshot.frame_for(3).is_none());
    assert!(!broker.is_warm());
    assert_eq!(lease.frame_for(2).unwrap().ts_ns, 1_100);
}

#[test]
fn warm_up_requires_a_frame_on_every_current_display() {
    let mut broker = broker_with(vec![1, 2]);
    assert!(!broker.is_warm());
    broker.publish_frame(frame(1, 1_000));
    assert!(!broker.is_warm());
    broker.publish_frame(frame(2, 1_050));
    assert!(broker.is_warm());
}

#[test]
fn an_empty_display_set_is_never_warm() {
    let broker: FrameBroker<u32> = FrameBroker::new();
    assert!(!broker.is_warm());
}

const EVENT: u64 = 1_000_000_000;
const DEADLINE: u64 = EVENT + POST_EVENT_FRAME_WINDOW_NS;

#[test]
fn post_event_query_takes_the_oldest_of_two_in_window_frames() {
    let mut broker = broker_with(vec![1]);
    broker.publish_frame(frame(1, EVENT + 100_000_000));
    broker.publish_frame(frame(1, EVENT + 200_000_000));
    let selected = broker.post_event_frame(1, EVENT, DEADLINE).unwrap();
    assert_eq!(selected.ts_ns, EVENT + 100_000_000);
}

#[test]
fn the_settled_query_takes_the_newest_of_two_in_window_frames() {
    let mut broker = broker_with(vec![1]);
    broker.publish_frame(frame(1, EVENT + 150_000_000));
    broker.publish_frame(frame(1, EVENT + 200_000_000));
    let selected = broker.settled_post_event_frame(1, EVENT, DEADLINE).unwrap();
    assert_eq!(selected.ts_ns, EVENT + 200_000_000);
}

#[test]
fn the_settled_query_keeps_to_the_window_and_the_display() {
    let mut broker = broker_with(vec![1, 2]);
    broker.publish_frame(frame(1, EVENT + 40_000_000));
    broker.publish_frame(frame(1, DEADLINE + 1));
    broker.publish_frame(frame(2, EVENT));
    assert_eq!(broker.settled_post_event_frame(1, EVENT, DEADLINE).unwrap().ts_ns, EVENT + 40_000_000);
    assert!(broker.settled_post_event_frame(2, EVENT, DEADLINE).is_none());
    assert!(broker.settled_post_event_frame(3, EVENT, DEADLINE).is_none());
}

#[test]
fn post_event_query_excludes_a_frame_equal_to_the_event() {
    let mut broker = broker_with(vec![1]);
    broker.publish_frame(frame(1, EVENT));
    assert!(broker.post_event_frame(1, EVENT, DEADLINE).is_none());
}

#[test]
fn post_event_query_includes_a_frame_equal_to_the_deadline() {
    let mut broker = broker_with(vec![1]);
    broker.publish_frame(frame(1, DEADLINE));
    assert_eq!(broker.post_event_frame(1, EVENT, DEADLINE).unwrap().ts_ns, DEADLINE);
}

#[test]
fn post_event_query_ignores_frames_after_the_deadline() {
    let mut broker = broker_with(vec![1]);
    broker.publish_frame(frame(1, EVENT - 50_000_000));
    broker.publish_frame(frame(1, DEADLINE + 1));
    assert!(broker.post_event_frame(1, EVENT, DEADLINE).is_none());
}

#[test]
fn post_event_query_is_per_display() {
    let mut broker = broker_with(vec![1, 2]);
    broker.publish_frame(frame(1, EVENT - 10_000_000));
    broker.publish_frame(frame(2, EVENT + 30_000_000));
    assert!(broker.post_event_frame(1, EVENT, DEADLINE).is_none());
    assert_eq!(broker.post_event_frame(2, EVENT, DEADLINE).unwrap().ts_ns, EVENT + 30_000_000);
    assert!(broker.post_event_frame(3, EVENT, DEADLINE).is_none());
}

#[test]
fn post_event_query_leaves_the_pinned_click_selection_unchanged() {
    let mut broker = broker_with(vec![1]);
    broker.publish_frame(frame(1, EVENT - 10_000_000));
    broker.publish_frame(frame(1, EVENT + 40_000_000));
    let snapshot = broker.snapshot(EVENT);
    assert_eq!(snapshot.frame_for(1).unwrap().ts_ns, EVENT - 10_000_000);
    assert_eq!(broker.post_event_frame(1, EVENT, DEADLINE).unwrap().ts_ns, EVENT + 40_000_000);
}

#[test]
fn a_fixture_snapshot_pins_the_given_frames() {
    let snapshot = FrameSnapshot::for_test(10_000_000, vec![display(1)], vec![frame(1, 4_000_000)]);
    let pinned = snapshot.frame_for(1).unwrap();
    assert_eq!(pinned.ts_ns, 4_000_000);
    assert_eq!(snapshot.frame_age_ms(pinned), 6);
    assert!(snapshot.frame_for(2).is_none());
}

// Encoder.

fn coordinate_frame() -> FrameData<u32> {
    let (width, height, bytes_per_row) = (4_u32, 3_u32, 20_usize);
    let mut pixels = vec![0_u8; bytes_per_row * height as usize];
    for y in 0..height {
        for x in 0..width {
            let offset = y as usize * bytes_per_row + x as usize * 4;
            pixels[offset] = x as u8;
            pixels[offset + 1] = y as u8;
            pixels[offset + 2] = 9;
            pixels[offset + 3] = 255;
        }
    }
    FrameData {
        display_id: 1,
        display: 1,
        width_px: width,
        height_px: height,
        bytes_per_row,
        ts_ns: 0,
        pixels,
    }
}

fn decode(bytes: &[u8]) -> (u32, u32, Vec<u8>) {
    let decoder = png::Decoder::new(std::io::Cursor::new(bytes));
    let mut reader = decoder.read_info().unwrap();
    let mut buffer = vec![0; reader.output_buffer_size().unwrap()];
    let info = reader.next_frame(&mut buffer).unwrap();
    buffer.truncate(info.buffer_size());
    (info.width, info.height, buffer)
}

#[test]
fn crops_encode_to_decodable_rgb_pngs_with_exact_pixels() {
    let frame = coordinate_frame();
    let bytes = encode_crop_png(&frame, CropPx { x: 1, y: 1, w: 2, h: 2 }).unwrap();
    let (w, h, rgb) = decode(&bytes);
    assert_eq!((w, h), (2, 2));
    assert_eq!(rgb, vec![9, 1, 1, 9, 1, 2, 9, 2, 1, 9, 2, 2]);
}

#[test]
fn oversized_crops_clamp_to_the_buffer() {
    let frame = coordinate_frame();
    let bytes = encode_crop_png(&frame, CropPx { x: 2, y: 0, w: 99, h: 99 }).unwrap();
    let (w, h, _) = decode(&bytes);
    assert_eq!((w, h), (2, 3));
}

#[test]
fn an_empty_crop_is_an_error() {
    let frame = coordinate_frame();
    let error = encode_crop_png(&frame, CropPx { x: 4, y: 0, w: 5, h: 5 }).unwrap_err();
    assert!(error.contains("empty crop"), "got {error}");
}

#[test]
fn a_truncated_buffer_reports_the_first_short_row() {
    let mut frame = coordinate_frame();
    frame.pixels.truncate(30);
    let error = encode_crop_png(&frame, CropPx { x: 0, y: 0, w: 4, h: 3 }).unwrap_err();
    assert_eq!(error, "frame buffer truncated at row 1: 30 bytes, bytes_per_row 20");
}

#[test]
fn a_row_beyond_the_address_space_reports_as_truncated() {
    let bytes_per_row = usize::MAX / 2 + 1;
    let frame = FrameData {
        display_id: 1,
        display: 1_u32,
        width_px: 1,
        height_px: 3,
        bytes_per_row,
        ts_ns: 0,
        pixels: vec![1, 2, 3, 255],
    };
    let error = encode_crop_png(&frame, CropPx { x: 0, y: 2, w: 1, h: 1 }).unwrap_err();
    assert_eq!(error, format!("frame buffer truncated at row 2: 4 bytes, bytes_per_row {bytes_per_row}"));
}

#[test]
fn the_shot_triple_encodes_full_window_and_element_in_order() {
    let frame = coordinate_frame();
    let shots = encode_triple(
        &frame,
        CropPx { x: 0, y: 0, w: 4, h: 3 },
        CropPx { x: 1, y: 1, w: 2, h: 2 },
        CropPx { x: 3, y: 2, w: 1, h: 1 },
    )
    .unwrap();
    assert_eq!(decode(&shots.full).0, 4);
    assert_eq!(decode(&shots.window).2, vec![9, 1, 1, 9, 1, 2, 9, 2, 1, 9, 2, 2]);
    assert_eq!(decode(&shots.element).2, vec![9, 2, 3]);
}

#[test]
fn the_first_crop_that_fails_fails_the_triple() {
    let frame = coordinate_frame();
    let error = encode_triple(
        &frame,
        CropPx { x: 0, y: 0, w: 4, h: 3 },
        CropPx { x: 4, y: 0, w: 5, h: 5 },
        CropPx { x: 0, y: 3, w: 1, h: 1 },
    )
    .unwrap_err();
    assert_eq!(
        error,
        PacketBuildError::Encode("empty crop CropPx { x: 4, y: 0, w: 5, h: 5 } for a 4x3 frame".to_string())
    );
}

// Event tap.

#[test]
fn modifier_flags_map_in_canonical_order() {
    let flags = FLAG_COMMAND | FLAG_SHIFT | FLAG_SECONDARY_FN;
    assert_eq!(held_modifiers(flags), vec![Modifier::Fn, Modifier::Shift, Modifier::Command]);
    assert_eq!(held_modifiers(0), vec![]);
    assert_eq!(held_modifiers(FLAG_ALPHA_SHIFT), vec![Modifier::CapsLock]);
}

#[test]
fn non_character_keys_record_no_characters() {
    assert_eq!(key_chars("h"), "h");
    assert_eq!(key_chars(""), "");
    assert_eq!(key_chars("\r"), "");
    assert_eq!(key_chars("\u{f702}"), "");
    assert_eq!(key_chars("a\u{7f}"), "");
    assert_eq!(key_chars("\u{e9}"), "\u{e9}");
}

#[test]
fn event_types_map_to_their_actions() {
    assert_eq!(classify(TapEventType::LeftMouseDown), TapAction::Click(MouseButton::Left));
    assert_eq!(classify(TapEventType::RightMouseDown), TapAction::Click(MouseButton::Right));
    assert_eq!(classify(TapEventType::OtherMouseDown), TapAction::Click(MouseButton::Middle));
    assert_eq!(classify(TapEventType::KeyDown), TapAction::Key);
    assert_eq!(classify(TapEventType::TapDisabledByUserInput), TapAction::Disabled);
    assert_eq!(classify(TapEventType::Other), TapAction::Ignore);
    assert_eq!(
        disabled_report(TapEventType::TapDisabledByTimeout),
        "event tap disabled by the system (TapDisabledByTimeout)",
    );
}

#[test]
fn a_key_down_copies_code_characters_and_modifiers() {
    let input = copy_input(TapEventType::KeyDown, 65_537, "s", FLAG_COMMAND);
    assert_eq!(
        input,
        Some(TapInput::KeyDown {
            key: KeyInfo { key_code: 1, chars: "s".into(), modifiers: vec![Modifier::Command] },
        }),
    );
    assert_eq!(
        copy_input(TapEventType::RightMouseDown, 0, "", 0),
        Some(TapInput::Click { button: MouseButton::Right }),
    );
    assert_eq!(copy_input(TapEventType::Other, 4, "h", 0), None);
}

// Capture worker.

#[test]
fn the_post_event_deadline_saturates() {
    assert_eq!(post_event_deadline(EVENT, POST_EVENT_FRAME_WINDOW_NS), DEADLINE);
    assert_eq!(post_event_deadline(u64::MAX - 1, 10), u64::MAX);
}

#[test]
fn a_silent_key_down_polls_until_exactly_the_deadline() {
    let poll = 5_000_000;
    let deadline = post_event_deadline(EVENT, POST_EVENT_FRAME_WINDOW_NS);
    let mut now = EVENT + 2_000_000;
    let mut waits = Vec::new();
    while let Some(wait) = wait_after_miss(now, deadline, poll) {
        assert!(wait <= poll);
        waits.push(wait);
        now += wait;
    }
    assert_eq!(now, deadline);
    assert_eq!(waits.iter().sum::<u64>(), POST_EVENT_FRAME_WINDOW_NS - 2_000_000);
}

#[test]
fn the_settle_point_is_a_hundred_ms_after_the_key_and_never_past_the_deadline() {
    assert_eq!(post_event_settle_point(EVENT, POST_EVENT_SETTLE_NS, DEADLINE), EVENT + 100_000_000);
    assert_eq!(post_event_settle_point(EVENT, 300_000_000, DEADLINE), DEADLINE);
    assert_eq!(post_event_settle_point(u64::MAX - 1, 10, u64::MAX), u64::MAX);
}

#[test]
fn a_key_down_waits_out_the_settle_before_taking_a_frame() {
    let settle = EVENT + POST_EVENT_SETTLE_NS;
    let poll = 5_000_000;
    // Before the settle point a frame already in the window is not taken.
    assert_eq!(key_down_step(EVENT + 2_000_000, settle, DEADLINE, poll, true), KeyDownStep::Wait(poll));
    assert_eq!(key_down_step(settle - 3, settle, DEADLINE, poll, true), KeyDownStep::Wait(3));
    // From the settle point on a found frame is taken.
    assert_eq!(key_down_step(settle, settle, DEADLINE, poll, true), KeyDownStep::Take);
    // With none, it polls until the deadline and then uses the pinned frame.
    assert_eq!(key_down_step(settle, settle, DEADLINE, poll, false), KeyDownStep::Wait(poll));
    assert_eq!(key_down_step(DEADLINE - 2, settle, DEADLINE, poll, false), KeyDownStep::Wait(2));
    assert_eq!(key_down_step(DEADLINE, settle, DEADLINE, poll, false), KeyDownStep::UsePinned);
    // A late job takes a retained in-window frame without waiting.
    assert_eq!(key_down_step(DEADLINE + 50, settle, DEADLINE, poll, true), KeyDownStep::Take);
}

#[test]
fn a_silent_key_down_waits_through_the_settle_to_exactly_the_deadline() {
    let poll = 8_000_000;
    let settle = post_event_settle_point(EVENT, POST_EVENT_SETTLE_NS, DEADLINE);
    let mut now = EVENT + 2_000_000;
    let mut waits = Vec::new();
    let mut reached = Vec::new();
    while let KeyDownStep::Wait(wait) = key_down_step(now, settle, DEADLINE, poll, false) {
        assert!(wait <= poll);
        waits.push(wait);
        now += wait;
        reached.push(now);
    }
    // 98 ms to the settle point is not a multiple of the poll: the last
    // pause before it is shortened so the clock stops exactly there.
    assert!(reached.contains(&settle));
    assert_eq!(now, DEADLINE);
    assert_eq!(waits.iter().sum::<u64>(), POST_EVENT_FRAME_WINDOW_NS - 2_000_000);
}

#[test]
fn a_late_job_never_waits() {
    assert_eq!(wait_after_miss(DEADLINE + 50, DEADLINE, 5), None);
    assert_eq!(wait_after_miss(DEADLINE, DEADLINE, 5), None);
    assert_eq!(wait_after_miss(DEADLINE - 3, DEADLINE, 5), Some(3));
}

#[test]
fn frame_choice_follows_the_event_kind() {
    assert_eq!(choose_frame(true, true, true), FrameChoice::Pinned);
    assert_eq!(choose_frame(false, true, true), FrameChoice::PostEvent);
    assert_eq!(choose_frame(false, true, false), FrameChoice::Pinned);
    assert_eq!(choose_frame(false, false, true), FrameChoice::Pinned);
}

// Packet assembly.

#[test]
fn clicks_use_the_point_display_else_the_main_display() {
    assert_eq!(select_display(true, Some(2), Some(3), Some(4), Some(1)), Some(2));
    assert_eq!(select_display(true, None, Some(3), Some(4), Some(1)), Some(1));
}

#[test]
fn key_downs_use_the_element_then_the_window_then_the_main_display() {
    assert_eq!(select_display(false, Some(2), Some(3), Some(4), Some(1)), Some(3));
    assert_eq!(select_display(false, Some(2), None, Some(4), Some(1)), Some(4));
    assert_eq!(select_display(false, Some(2), None, None, Some(1)), Some(1));
    assert_eq!(select_display(false, None, None, None, None), None);
}

#[test]
fn only_a_plausible_resolved_element_keeps_its_frame() {
    assert_eq!(element_source(true, true), ElementSource::Ax);
    assert_eq!(element_source(true, false), ElementSource::Fallback);
    assert_eq!(element_source(false, true), ElementSource::Fallback);
}

#[test]
fn a_display_without_any_retained_frame_is_an_explicit_fail_stop() {
    let error = require_frame::<u8>(Some(7), None).unwrap_err();
    assert_eq!(error, PacketBuildError::NoRetainedFrame { display_id: 7 });
    assert_eq!(error.to_string(), "no retained pre-event frame for display 7");
    assert_eq!(
        require_frame::<u8>(None, Some(1)),
        Err(PacketBuildError::NoRetainedFrame { display_id: 0 }),
    );
    assert_eq!(require_frame(Some(1), Some(9_u8)), Ok(9));
    assert_eq!(
        PacketBuildError::Encode("png data: bad".into()).to_string(),
        "screenshot encoding failed: png data: bad",
    );
}

// Failure latch.

#[test]
fn racing_failure_sources_forward_exactly_one_fail_stop() {
    let mut latch = FailLatch::new();
    let forwarded: Vec<bool> = (0..3).map(|_| latch.fail()).collect();
    assert_eq!(forwarded, vec![true, false, false]);
    assert!(latch.has_failed());
}

#[test]
fn packets_flow_until_close_then_drop_silently() {
    let mut latch = FailLatch::new();
    assert!(latch.packet());
    latch.close();
    assert!(!latch.packet());
    assert!(!latch.fail());
    assert!(latch.has_failed());
}

// Stream manager.

#[test]
fn a_burst_of_reconfigurations_restarts_once_unless_a_stop_is_pending() {
    let pending = vec![StreamCommand::Reconfigured, StreamCommand::Reconfigured];
    assert_eq!(coalesce(StreamCommand::Reconfigured, &pending), ManagerAction::Restart);
    let pending = vec![StreamCommand::Reconfigured, StreamCommand::Stop];
    assert_eq!(coalesce(StreamCommand::Reconfigured, &pending), ManagerAction::Stop);
    assert_eq!(coalesce(StreamCommand::Stop, &vec![]), ManagerAction::Stop);
}

#[test]
fn an_empty_initial_display_set_refuses_to_start() {
    assert_eq!(initial_start_failure(Ok(0)), Some("no active displays to capture".to_owned()));
    assert_eq!(initial_start_failure(Ok(2)), None);
    assert_eq!(initial_start_failure(Err("denied".into())), Some("denied".to_owned()));
}

#[test]
fn restart_failures_name_their_cause() {
    assert_eq!(
        reconfigure_failure(Ok(0)),
        Some("display configuration changed to no active displays".to_owned()),
    );
    assert_eq!(
        reconfigure_failure(Err("gone".into())),
        Some("display reconfiguration failed to enumerate displays: gone".to_owned()),
    );
    assert_eq!(reconfigure_failure(Ok(1)), None);
    assert_eq!(
        restart_stream_failure("no stream"),
        "stream restart after display change failed: no stream",
    );
}

// Pipeline.

#[test]
fn saturation_fail_stops_and_a_closed_queue_is_silent() {
    assert_eq!(
        enqueue_failure(EnqueueError::Saturated).unwrap(),
        "capture overloaded: the screenshot queue is full (recording stopped to preserve the per-event screenshot guarantee)",
    );
    assert_eq!(enqueue_failure(EnqueueError::Closed), None);
}

#[test]
fn a_frame_set_counts_four_bytes_per_pixel_and_at_least_one() {
    assert_eq!(frame_set_bytes(&vec![(3456, 2234), (1920, 1080)]), 3456 * 2234 * 4 + 1920 * 1080 * 4);
    assert_eq!(frame_set_bytes(&vec![]), 1);
    assert_eq!(frame_set_bytes(&vec![(0, 10)]), 1);
    assert!(frames_bytes_fit(&vec![(3456, 2234)]));
    assert!(!frames_bytes_fit(&vec![(u32::MAX, u32::MAX); 2]));
}

#[test]
fn warm_up_and_health_polls_decide_as_specified() {
    assert_eq!(warm_up_step(true, 10, 5), WarmUp::Ready);
    assert_eq!(warm_up_step(false, 10, 10), WarmUp::TimedOut);
    assert_eq!(warm_up_step(false, 9, 10), WarmUp::Poll);
    assert_eq!(
        warm_up_failure(),
        "screen capture did not deliver a first frame for every display in time",
    );
    assert_eq!(health_step(true, false, false), HealthAction::Exit);
    assert_eq!(health_step(false, true, false), HealthAction::Exit);
    assert_eq!(health_step(false, false, false), HealthAction::FailStop);
    assert_eq!(health_step(false, false, true), HealthAction::Sleep);
    assert_eq!(
        tap_health_failure(),
        "event tap disabled mid-recording (Input Monitoring health check)",
    );
}
