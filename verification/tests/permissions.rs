use std::cell::RefCell;
use std::rc::Rc;

use workflow_step_editor::permissions::{
    may_touch_accessibility, report_from, request_status, NativeStatus, PermissionKind,
    PermissionReport, PermissionService, PermissionSource, PermissionStatus,
};

#[derive(Debug, Clone, Copy, PartialEq, Eq)]
enum Call {
    InputMonitoringStatus,
    InputMonitoringRequest,
    AccessibilityStatus,
    AccessibilityRequest,
    ScreenRecordingStatus,
    ScreenRecordingRequest,
}

/// A native source with fixed answers that records every call in a log
/// the test keeps a handle on.
struct FakeSource {
    input_monitoring: NativeStatus,
    accessibility: NativeStatus,
    screen_recording: NativeStatus,
    calls: Rc<RefCell<Vec<Call>>>,
}

impl FakeSource {
    fn first_launch() -> (Self, Rc<RefCell<Vec<Call>>>) {
        let calls = Rc::new(RefCell::new(Vec::new()));
        (
            Self {
                input_monitoring: NativeStatus::NotDetermined,
                accessibility: NativeStatus::Denied,
                screen_recording: NativeStatus::Denied,
                calls: calls.clone(),
            },
            calls,
        )
    }

    fn with_input_monitoring(status: NativeStatus) -> (Self, Rc<RefCell<Vec<Call>>>) {
        let (mut source, calls) = Self::first_launch();
        source.input_monitoring = status;
        (source, calls)
    }
}

fn accessibility_calls(calls: &Rc<RefCell<Vec<Call>>>) -> Vec<Call> {
    calls
        .borrow()
        .iter()
        .copied()
        .filter(|call| matches!(call, Call::AccessibilityStatus | Call::AccessibilityRequest))
        .collect()
}

impl PermissionSource for FakeSource {
    fn input_monitoring_status(&mut self) -> NativeStatus {
        self.calls.borrow_mut().push(Call::InputMonitoringStatus);
        self.input_monitoring
    }

    fn request_input_monitoring(&mut self) -> NativeStatus {
        self.calls.borrow_mut().push(Call::InputMonitoringRequest);
        self.input_monitoring
    }

    fn accessibility_status(&mut self) -> NativeStatus {
        self.calls.borrow_mut().push(Call::AccessibilityStatus);
        self.accessibility
    }

    fn request_accessibility(&mut self) -> NativeStatus {
        self.calls.borrow_mut().push(Call::AccessibilityRequest);
        self.accessibility
    }

    fn screen_recording_status(&mut self) -> NativeStatus {
        self.calls.borrow_mut().push(Call::ScreenRecordingStatus);
        self.screen_recording
    }

    fn request_screen_recording(&mut self) -> NativeStatus {
        self.calls.borrow_mut().push(Call::ScreenRecordingRequest);
        self.screen_recording
    }
}

#[test]
fn check_queries_input_monitoring_before_accessibility() {
    let (source, calls) = FakeSource::with_input_monitoring(NativeStatus::Granted);
    let mut service = PermissionService::new(source);

    service.check_all();

    assert_eq!(
        *calls.borrow(),
        vec![Call::InputMonitoringStatus, Call::AccessibilityStatus, Call::ScreenRecordingStatus],
    );
}

#[test]
fn first_launch_reports_not_requested_and_blocks_accessibility() {
    let (source, calls) = FakeSource::first_launch();
    let mut service = PermissionService::new(source);

    let report = service.check_all();

    assert_eq!(
        report,
        PermissionReport {
            input_monitoring: PermissionStatus::NotRequested,
            accessibility: PermissionStatus::BlockedByPrerequisite,
            screen_recording: PermissionStatus::Denied,
        },
    );
    assert_eq!(accessibility_calls(&calls), vec![]);
}

#[test]
fn out_of_order_accessibility_request_is_blocked_without_touching_ax() {
    let (source, calls) = FakeSource::first_launch();
    let mut service = PermissionService::new(source);

    let status = service.request(PermissionKind::Accessibility);

    assert_eq!(status, PermissionStatus::BlockedByPrerequisite);
    assert_eq!(accessibility_calls(&calls), vec![]);
}

#[test]
fn accessibility_unblocks_after_in_session_input_monitoring_request() {
    let (source, calls) = FakeSource::first_launch();
    let mut service = PermissionService::new(source);

    service.request(PermissionKind::InputMonitoring);
    let status = service.request(PermissionKind::Accessibility);

    assert_eq!(status, PermissionStatus::Denied);
    assert_eq!(accessibility_calls(&calls), vec![Call::AccessibilityRequest]);
}

#[test]
fn accessibility_unblocks_when_earlier_run_already_requested_input_monitoring() {
    let (source, calls) = FakeSource::with_input_monitoring(NativeStatus::Denied);
    let mut service = PermissionService::new(source);

    let status = service.request(PermissionKind::Accessibility);

    assert_eq!(status, PermissionStatus::Denied);
    assert_eq!(accessibility_calls(&calls), vec![Call::AccessibilityRequest]);
}

#[test]
fn each_kind_uses_exactly_its_own_native_request_path() {
    let (source, calls) = FakeSource::with_input_monitoring(NativeStatus::Granted);
    let mut service = PermissionService::new(source);

    service.request(PermissionKind::InputMonitoring);
    service.request(PermissionKind::ScreenRecording);
    service.request(PermissionKind::Accessibility);

    let requests: Vec<Call> = calls
        .borrow()
        .iter()
        .copied()
        .filter(|call| {
            matches!(
                call,
                Call::InputMonitoringRequest
                    | Call::AccessibilityRequest
                    | Call::ScreenRecordingRequest
            )
        })
        .collect();
    assert_eq!(
        requests,
        vec![Call::InputMonitoringRequest, Call::ScreenRecordingRequest, Call::AccessibilityRequest],
    );
}

#[test]
fn invalid_kind_name_is_rejected() {
    let error = PermissionKind::from_str("full_disk_access").unwrap_err();

    assert_eq!(error.to_string(), "unknown permission kind: full_disk_access");
}

#[test]
fn kind_names_parse_to_their_kinds() {
    assert_eq!(
        PermissionKind::from_str("input_monitoring").unwrap(),
        PermissionKind::InputMonitoring,
    );
    assert_eq!(PermissionKind::from_str("accessibility").unwrap(), PermissionKind::Accessibility);
    assert_eq!(
        PermissionKind::from_str("screen_recording").unwrap(),
        PermissionKind::ScreenRecording,
    );
}

#[test]
fn kind_names_parse_through_from_str_too() {
    let kind: PermissionKind = "accessibility".parse().unwrap();
    assert_eq!(kind, PermissionKind::Accessibility);
    assert!("Accessibility".parse::<PermissionKind>().is_err());
}

#[test]
fn granted_input_monitoring_lets_check_query_accessibility() {
    let (mut source, _calls) = FakeSource::with_input_monitoring(NativeStatus::Granted);
    source.accessibility = NativeStatus::Granted;
    source.screen_recording = NativeStatus::Granted;
    let mut service = PermissionService::new(source);

    let report = service.check_all();

    assert_eq!(
        report,
        PermissionReport {
            input_monitoring: PermissionStatus::Granted,
            accessibility: PermissionStatus::Granted,
            screen_recording: PermissionStatus::Granted,
        },
    );
}

#[test]
fn a_check_after_an_in_session_request_reports_accessibility() {
    let (source, calls) = FakeSource::first_launch();
    let mut service = PermissionService::new(source);

    service.request(PermissionKind::InputMonitoring);
    let report = service.check_all();

    assert_eq!(report.accessibility, PermissionStatus::Denied);
    assert_eq!(accessibility_calls(&calls), vec![Call::AccessibilityStatus]);
}

#[test]
fn the_ordering_decision_reads_the_session_flag_and_the_native_status() {
    assert!(!may_touch_accessibility(false, NativeStatus::NotDetermined));
    assert!(may_touch_accessibility(true, NativeStatus::NotDetermined));
    assert!(may_touch_accessibility(false, NativeStatus::Denied));
    assert!(may_touch_accessibility(false, NativeStatus::Granted));
}

#[test]
fn reports_and_request_statuses_map_the_native_answers() {
    assert_eq!(
        report_from(NativeStatus::NotDetermined, None, NativeStatus::Denied),
        PermissionReport {
            input_monitoring: PermissionStatus::NotRequested,
            accessibility: PermissionStatus::BlockedByPrerequisite,
            screen_recording: PermissionStatus::Denied,
        }
    );
    assert_eq!(
        report_from(NativeStatus::Granted, Some(NativeStatus::NotDetermined), NativeStatus::Granted),
        PermissionReport {
            input_monitoring: PermissionStatus::Granted,
            accessibility: PermissionStatus::NotRequested,
            screen_recording: PermissionStatus::Granted,
        }
    );
    assert_eq!(request_status(None), PermissionStatus::BlockedByPrerequisite);
    assert_eq!(request_status(Some(NativeStatus::Denied)), PermissionStatus::Denied);
}
