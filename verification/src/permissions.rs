//! TCC permission reporting and requesting for the capture pipeline.
//!
//! Ordering invariant: no Accessibility API call may happen before Input
//! Monitoring has been requested, because an early Accessibility check
//! suppresses the Input Monitoring prompt. An out-of-order Accessibility
//! request returns `PermissionStatus::BlockedByPrerequisite` without
//! touching the Accessibility API.
//!
//! `PermissionService` is not internally synchronized; the command layer
//! serializes it behind a mutex. The service holds its native source
//! inside a `LoggedSource`, whose fields its own module keeps private:
//! every call on the source goes through one of its methods, each of
//! which makes exactly that call and records it, with its answer, in a
//! ghost log. The contracts and the ordering invariant are stated over
//! that log.

use vstd::prelude::*;

use crate::text::str_eq;

mod logged;

use logged::LoggedSource;

verus! {

/// The three TCC permissions the capture pipeline needs.
#[derive(Debug, Clone, Copy, PartialEq, Eq, Structural)]
pub enum PermissionKind {
    InputMonitoring,
    Accessibility,
    ScreenRecording,
}

/// Error for a permission kind name that is not one of the three kinds.
#[derive(Debug, Clone, PartialEq, Eq)]
pub struct InvalidPermissionKind(pub String);

/// The error message prefix: `unknown permission kind: `.
pub open spec fn unknown_kind_prefix() -> Seq<char> {
    seq!['u', 'n', 'k', 'n', 'o', 'w', 'n', ' ', 'p', 'e', 'r', 'm', 'i', 's', 's', 'i', 'o', 'n', ' ',
    'k', 'i', 'n', 'd', ':', ' ']
}

impl InvalidPermissionKind {
    /// `unknown permission kind: {name}`.
    pub fn to_string(&self) -> (r: String)
        ensures
            r@ == unknown_kind_prefix() + self.0@,
    {
        proof { reveal_strlit("unknown permission kind: "); }
        let mut s = String::from_str("unknown permission kind: ");
        s.append(self.0.as_str());
        s
    }
}

/// The snake_case name of each kind.
pub open spec fn kind_name(kind: PermissionKind) -> Seq<char> {
    match kind {
        PermissionKind::InputMonitoring => "input_monitoring"@,
        PermissionKind::Accessibility => "accessibility"@,
        PermissionKind::ScreenRecording => "screen_recording"@,
    }
}

impl PermissionKind {
    /// Parses one of the three snake_case kind names; anything else is
    /// rejected with the offending name.
    pub fn from_str(s: &str) -> (r: Result<PermissionKind, InvalidPermissionKind>)
        ensures
            match r {
                Ok(kind) => kind_name(kind) == s@,
                Err(e) => e.0@ == s@ && forall|k: PermissionKind| kind_name(k) != s@,
            },
    {
        if str_eq(s, "input_monitoring") {
            Ok(PermissionKind::InputMonitoring)
        } else if str_eq(s, "accessibility") {
            Ok(PermissionKind::Accessibility)
        } else if str_eq(s, "screen_recording") {
            Ok(PermissionKind::ScreenRecording)
        } else {
            assert forall|k: PermissionKind| kind_name(k) != s@ by {
                match k {
                    PermissionKind::InputMonitoring => {},
                    PermissionKind::Accessibility => {},
                    PermissionKind::ScreenRecording => {},
                }
            }
            Err(InvalidPermissionKind(String::from_str(s)))
        }
    }
}

impl std::str::FromStr for PermissionKind {
    type Err = InvalidPermissionKind;

    fn from_str(s: &str) -> (r: Result<Self, Self::Err>)
        ensures
            match r {
                Ok(kind) => kind_name(kind) == s@,
                Err(e) => e.0@ == s@ && forall|k: PermissionKind| kind_name(k) != s@,
            },
    {
        PermissionKind::from_str(s)
    }
}

/// User-facing status of one permission.
#[derive(Debug, Clone, Copy, PartialEq, Eq, Structural)]
pub enum PermissionStatus {
    Granted,
    /// Not currently granted. Kinds whose native query is boolean cannot
    /// distinguish "never asked" from "declined"; both report `Denied`.
    Denied,
    /// TCC has no record yet (first launch, before any request).
    NotRequested,
    /// Deliberately not checked or requested: the ordering prerequisite
    /// (Input Monitoring requested first) is not satisfied yet.
    BlockedByPrerequisite,
}

/// Raw answer from the operating system for one permission.
#[derive(Debug, Clone, Copy, PartialEq, Eq, Structural)]
pub enum NativeStatus {
    Granted,
    Denied,
    NotDetermined,
}

/// The user-facing status of a native answer.
pub open spec fn status_of(native: NativeStatus) -> PermissionStatus {
    match native {
        NativeStatus::Granted => PermissionStatus::Granted,
        NativeStatus::Denied => PermissionStatus::Denied,
        NativeStatus::NotDetermined => PermissionStatus::NotRequested,
    }
}

impl From<NativeStatus> for PermissionStatus {
    fn from(native: NativeStatus) -> (r: Self) {
        match native {
            NativeStatus::Granted => PermissionStatus::Granted,
            NativeStatus::Denied => PermissionStatus::Denied,
            NativeStatus::NotDetermined => PermissionStatus::NotRequested,
        }
    }
}

impl vstd::std_specs::convert::FromSpecImpl<NativeStatus> for PermissionStatus {
    open spec fn obeys_from_spec() -> bool {
        true
    }

    open spec fn from_spec(v: NativeStatus) -> PermissionStatus {
        status_of(v)
    }
}

/// The native seam: one status query and one request path per kind. The
/// production implementation talks to the macOS TCC APIs; tests
/// substitute a fake. Nothing is assumed about the answers.
pub trait PermissionSource {
    fn input_monitoring_status(&mut self) -> NativeStatus;

    fn request_input_monitoring(&mut self) -> NativeStatus;

    fn accessibility_status(&mut self) -> NativeStatus;

    fn request_accessibility(&mut self) -> NativeStatus;

    fn screen_recording_status(&mut self) -> NativeStatus;

    fn request_screen_recording(&mut self) -> NativeStatus;
}

/// One call to the native seam, with the answer it returned.
pub enum SourceCall {
    InputMonitoringStatus(NativeStatus),
    InputMonitoringRequest(NativeStatus),
    AccessibilityStatus(NativeStatus),
    AccessibilityRequest(NativeStatus),
    ScreenRecordingStatus(NativeStatus),
    ScreenRecordingRequest(NativeStatus),
}

/// True for the calls that touch the Accessibility API.
pub open spec fn touches_accessibility(call: SourceCall) -> bool {
    call is AccessibilityStatus || call is AccessibilityRequest
}

/// The ordering prerequisite as observed at log position `i`: Input
/// Monitoring was requested earlier in the session, or the call right
/// before is an Input Monitoring status query whose answer shows an
/// earlier run already requested it (not `NotDetermined`).
pub open spec fn prerequisite_before(calls: Seq<SourceCall>, i: int) -> bool {
    ||| exists|j: int| 0 <= j < i && #[trigger] calls[j] is InputMonitoringRequest
    ||| (i >= 1 && prior_status_shows_request(calls[i - 1]))
}

/// An Input Monitoring status query whose answer is not `NotDetermined`.
pub open spec fn prior_status_shows_request(call: SourceCall) -> bool {
    match call {
        SourceCall::InputMonitoringStatus(st) => st != NativeStatus::NotDetermined,
        _ => false,
    }
}

/// Every Accessibility call in the log satisfies the prerequisite.
pub open spec fn accessibility_ordered(calls: Seq<SourceCall>) -> bool {
    forall|i: int|
        0 <= i < calls.len() && touches_accessibility(#[trigger] calls[i]) ==> prerequisite_before(
            calls,
            i,
        )
}

/// Whether the log holds an Input Monitoring request.
pub open spec fn requested_in(calls: Seq<SourceCall>) -> bool {
    exists|j: int| 0 <= j < calls.len() && #[trigger] calls[j] is InputMonitoringRequest
}

/// Status of all three permissions, one field per kind.
#[derive(Debug, Clone, Copy, PartialEq, Eq, Structural)]
pub struct PermissionReport {
    pub input_monitoring: PermissionStatus,
    pub accessibility: PermissionStatus,
    pub screen_recording: PermissionStatus,
}

/// What `check_all` appends to the log and reports, given whether Input
/// Monitoring was requested earlier in the session.
pub open spec fn check_all_outcome(
    requested: bool,
    log: Seq<SourceCall>,
    report: PermissionReport,
) -> bool {
    &&& log.len() >= 2
    &&& log[0] matches SourceCall::InputMonitoringStatus(im)
    &&& report.input_monitoring == status_of(im)
    &&& if requested || im != NativeStatus::NotDetermined {
        &&& log.len() == 3
        &&& log[1] matches SourceCall::AccessibilityStatus(ax)
        &&& report.accessibility == status_of(ax)
        &&& log[2] matches SourceCall::ScreenRecordingStatus(sr)
        &&& report.screen_recording == status_of(sr)
    } else {
        &&& log.len() == 2
        &&& report.accessibility == PermissionStatus::BlockedByPrerequisite
        &&& log[1] matches SourceCall::ScreenRecordingStatus(sr)
        &&& report.screen_recording == status_of(sr)
    }
}

/// What `request(kind)` appends to the log and returns.
pub open spec fn request_outcome(
    requested: bool,
    kind: PermissionKind,
    log: Seq<SourceCall>,
    status: PermissionStatus,
) -> bool {
    match kind {
        PermissionKind::InputMonitoring => {
            &&& log.len() == 1
            &&& log[0] matches SourceCall::InputMonitoringRequest(st)
            &&& status == status_of(st)
        },
        PermissionKind::Accessibility => {
            &&& log.len() >= 1
            &&& log[0] matches SourceCall::InputMonitoringStatus(im)
            &&& if requested || im != NativeStatus::NotDetermined {
                &&& log.len() == 2
                &&& log[1] matches SourceCall::AccessibilityRequest(ax)
                &&& status == status_of(ax)
            } else {
                &&& log.len() == 1
                &&& status == PermissionStatus::BlockedByPrerequisite
            }
        },
        PermissionKind::ScreenRecording => {
            &&& log.len() == 1
            &&& log[0] matches SourceCall::ScreenRecordingRequest(st)
            &&& status == status_of(st)
        },
    }
}

/// Whether the Accessibility API may be touched: Input Monitoring was
/// requested by this service in this session, or its native status shows
/// an earlier run requested it (anything but `NotDetermined`).
pub fn may_touch_accessibility(requested: bool, input_monitoring: NativeStatus) -> (r: bool)
    ensures
        r == (requested || input_monitoring != NativeStatus::NotDetermined),
{
    requested || input_monitoring != NativeStatus::NotDetermined
}

/// The report for the native answers; `accessibility` is `None` when the
/// Accessibility status was not queried because its prerequisite is not
/// satisfied.
pub open spec fn report_of(
    input_monitoring: NativeStatus,
    accessibility: Option<NativeStatus>,
    screen_recording: NativeStatus,
) -> PermissionReport {
    PermissionReport {
        input_monitoring: status_of(input_monitoring),
        accessibility: match accessibility {
            Some(ax) => status_of(ax),
            None => PermissionStatus::BlockedByPrerequisite,
        },
        screen_recording: status_of(screen_recording),
    }
}

/// Builds the report from the native answers.
pub fn report_from(
    input_monitoring: NativeStatus,
    accessibility: Option<NativeStatus>,
    screen_recording: NativeStatus,
) -> (r: PermissionReport)
    ensures
        r == report_of(input_monitoring, accessibility, screen_recording),
{
    PermissionReport {
        input_monitoring: PermissionStatus::from(input_monitoring),
        accessibility: match accessibility {
            Some(ax) => PermissionStatus::from(ax),
            None => PermissionStatus::BlockedByPrerequisite,
        },
        screen_recording: PermissionStatus::from(screen_recording),
    }
}

/// The status a request returns: the status of the native answer, or
/// `BlockedByPrerequisite` when no native request was sent.
pub open spec fn request_status_of(answer: Option<NativeStatus>) -> PermissionStatus {
    match answer {
        Some(a) => status_of(a),
        None => PermissionStatus::BlockedByPrerequisite,
    }
}

/// The status a request returns for the native answer it got, if any.
pub fn request_status(answer: Option<NativeStatus>) -> (r: PermissionStatus)
    ensures
        r == request_status_of(answer),
{
    match answer {
        Some(a) => PermissionStatus::from(a),
        None => PermissionStatus::BlockedByPrerequisite,
    }
}

/// Appending a call that is neither an Input Monitoring request nor an
/// Accessibility call keeps the log ordered and the request flag.
proof fn lemma_push_neutral(calls: Seq<SourceCall>, call: SourceCall)
    requires
        accessibility_ordered(calls),
        !(call is InputMonitoringRequest),
        !touches_accessibility(call),
    ensures
        accessibility_ordered(calls.push(call)),
        requested_in(calls.push(call)) == requested_in(calls),
{
    let c = calls.push(call);
    assert forall|i: int| 0 <= i < c.len() && touches_accessibility(#[trigger] c[i]) implies prerequisite_before(c, i) by {
        assert(i < calls.len());
        assert(c[i] == calls[i]);
        assert(prerequisite_before(calls, i));
        if exists|j: int| 0 <= j < i && #[trigger] calls[j] is InputMonitoringRequest {
            let j = choose|j: int| 0 <= j < i && #[trigger] calls[j] is InputMonitoringRequest;
            assert(c[j] == calls[j]);
        } else {
            assert(c[i - 1] == calls[i - 1]);
        }
    }
    if requested_in(calls) {
        let j = choose|j: int| 0 <= j < calls.len() && #[trigger] calls[j] is InputMonitoringRequest;
        assert(c[j] == calls[j]);
    }
    if requested_in(c) {
        let j = choose|j: int| 0 <= j < c.len() && #[trigger] c[j] is InputMonitoringRequest;
        assert(j < calls.len());
        assert(c[j] == calls[j]);
    }
}

/// Appending an Input Monitoring request keeps the log ordered and sets
/// the request flag.
proof fn lemma_push_request(calls: Seq<SourceCall>, st: NativeStatus)
    requires
        accessibility_ordered(calls),
    ensures
        accessibility_ordered(calls.push(SourceCall::InputMonitoringRequest(st))),
        requested_in(calls.push(SourceCall::InputMonitoringRequest(st))),
{
    let c = calls.push(SourceCall::InputMonitoringRequest(st));
    assert(c[calls.len() as int] is InputMonitoringRequest);
    assert forall|i: int| 0 <= i < c.len() && touches_accessibility(#[trigger] c[i]) implies prerequisite_before(c, i) by {
        assert(i < calls.len());
        assert(c[i] == calls[i]);
        assert(prerequisite_before(calls, i));
        if exists|j: int| 0 <= j < i && #[trigger] calls[j] is InputMonitoringRequest {
            let j = choose|j: int| 0 <= j < i && #[trigger] calls[j] is InputMonitoringRequest;
            assert(c[j] == calls[j]);
        } else {
            assert(c[i - 1] == calls[i - 1]);
        }
    }
}

/// Appending an Accessibility call right after an Input Monitoring
/// status query, when the prerequisite holds for that answer, keeps the
/// log ordered and the request flag.
proof fn lemma_push_accessibility(calls: Seq<SourceCall>, im: NativeStatus, call: SourceCall)
    requires
        accessibility_ordered(calls),
        calls.len() >= 1,
        calls.last() == SourceCall::InputMonitoringStatus(im),
        touches_accessibility(call),
        requested_in(calls) || im != NativeStatus::NotDetermined,
    ensures
        accessibility_ordered(calls.push(call)),
        requested_in(calls.push(call)) == requested_in(calls),
{
    let c = calls.push(call);
    assert forall|i: int| 0 <= i < c.len() && touches_accessibility(#[trigger] c[i]) implies prerequisite_before(c, i) by {
        if i < calls.len() {
            assert(c[i] == calls[i]);
            assert(prerequisite_before(calls, i));
            if exists|j: int| 0 <= j < i && #[trigger] calls[j] is InputMonitoringRequest {
                let j = choose|j: int| 0 <= j < i && #[trigger] calls[j] is InputMonitoringRequest;
                assert(c[j] == calls[j]);
            } else {
                assert(c[i - 1] == calls[i - 1]);
            }
        } else {
            assert(i == calls.len());
            if requested_in(calls) {
                let j = choose|j: int| 0 <= j < calls.len() && #[trigger] calls[j] is InputMonitoringRequest;
                assert(c[j] == calls[j]);
            } else {
                assert(c[i - 1] == calls.last());
            }
        }
    }
    if requested_in(calls) {
        let j = choose|j: int| 0 <= j < calls.len() && #[trigger] calls[j] is InputMonitoringRequest;
        assert(c[j] == calls[j]);
    }
    if requested_in(c) {
        let j = choose|j: int| 0 <= j < c.len() && #[trigger] c[j] is InputMonitoringRequest;
        assert(j < calls.len());
        assert(c[j] == calls[j]);
    }
}

/// Ordered permission aggregation over a [`PermissionSource`].
pub struct PermissionService<S> {
    /// The source, reachable only through its recording adaptor.
    source: LoggedSource<S>,
    /// True once this service has sent the native Input Monitoring
    /// request in this session. TCC state from earlier runs is derived
    /// from the native status instead.
    input_monitoring_requested: bool,
}

impl<S: PermissionSource> PermissionService<S> {
    /// Well-formedness: the session flag says whether the service's calls
    /// hold an Input Monitoring request, and they are ordered.
    pub closed spec fn wf(&self) -> bool {
        &&& self.input_monitoring_requested == requested_in(self.calls())
        &&& accessibility_ordered(self.calls())
    }

    /// Every call this service has made on its source, in order, with the
    /// answers, as its source adaptor recorded them.
    pub closed spec fn calls(&self) -> Seq<SourceCall> {
        self.source.log()
    }

    /// Whether this service has requested Input Monitoring.
    pub closed spec fn requested(&self) -> bool {
        self.input_monitoring_requested
    }

    /// A well-formed service has made only ordered Accessibility calls,
    /// and its session flag says whether it has requested Input
    /// Monitoring.
    pub proof fn lemma_wf_means_ordered(&self)
        requires
            self.wf(),
        ensures
            accessibility_ordered(self.calls()),
            self.requested() == requested_in(self.calls()),
    {
    }

    pub fn new(source: S) -> (r: Self)
        ensures
            r.calls() == Seq::<SourceCall>::empty(),
            !r.requested(),
            r.wf(),
    {
        PermissionService { source: LoggedSource::new(source), input_monitoring_requested: false }
    }

    /// Reports all three kinds. Queries Input Monitoring first; queries
    /// Accessibility only when the ordering prerequisite is satisfied.
    pub fn check_all(&mut self) -> (report: PermissionReport)
        requires
            old(self).wf(),
        ensures
            final(self).wf(),
            final(self).calls().len() > old(self).calls().len(),
            final(self).calls().take(old(self).calls().len() as int) == old(self).calls(),
            check_all_outcome(
                old(self).requested(),
                final(self).calls().skip(old(self).calls().len() as int),
                report,
            ),
            final(self).requested() == old(self).requested(),
            accessibility_ordered(final(self).calls()),
    {
        let ghost before = self.calls();
        let input_monitoring = self.source.input_monitoring_status();
        proof {
            lemma_push_neutral(before, SourceCall::InputMonitoringStatus(input_monitoring));
        }
        let ghost after_im = self.calls();
        let accessibility = if may_touch_accessibility(self.input_monitoring_requested, input_monitoring) {
            let ax = self.source.accessibility_status();
            proof {
                lemma_push_accessibility(after_im, input_monitoring, SourceCall::AccessibilityStatus(ax));
            }
            Some(ax)
        } else {
            None
        };
        let ghost after_ax = self.calls();
        let sr = self.source.screen_recording_status();
        proof {
            lemma_push_neutral(after_ax, SourceCall::ScreenRecordingStatus(sr));
            let c = self.calls();
            assert(c.take(before.len() as int) =~= before);
            assert(c.skip(before.len() as int) =~= c.subrange(before.len() as int, c.len() as int));
        }
        report_from(input_monitoring, accessibility, sr)
    }

    /// Sends the native request for `kind` and returns the resulting
    /// status. An Accessibility request whose ordering prerequisite is not
    /// satisfied returns `BlockedByPrerequisite` without touching the
    /// Accessibility API.
    pub fn request(&mut self, kind: PermissionKind) -> (status: PermissionStatus)
        requires
            old(self).wf(),
        ensures
            final(self).wf(),
            final(self).calls().len() > old(self).calls().len(),
            final(self).calls().take(old(self).calls().len() as int) == old(self).calls(),
            request_outcome(
                old(self).requested(),
                kind,
                final(self).calls().skip(old(self).calls().len() as int),
                status,
            ),
            final(self).requested() == (old(self).requested() || kind
                == PermissionKind::InputMonitoring),
            accessibility_ordered(final(self).calls()),
    {
        let ghost before = self.calls();
        let answer = match kind {
            PermissionKind::InputMonitoring => {
                let st = self.source.request_input_monitoring();
                proof {
                    lemma_push_request(before, st);
                }
                self.input_monitoring_requested = true;
                Some(st)
            },
            PermissionKind::Accessibility => {
                let input_monitoring = self.source.input_monitoring_status();
                proof {
                    lemma_push_neutral(before, SourceCall::InputMonitoringStatus(input_monitoring));
                }
                if may_touch_accessibility(self.input_monitoring_requested, input_monitoring) {
                    let ghost after_im = self.calls();
                    let ax = self.source.request_accessibility();
                    proof {
                        lemma_push_accessibility(after_im, input_monitoring, SourceCall::AccessibilityRequest(ax));
                    }
                    Some(ax)
                } else {
                    None
                }
            },
            PermissionKind::ScreenRecording => {
                let st = self.source.request_screen_recording();
                proof {
                    lemma_push_neutral(before, SourceCall::ScreenRecordingRequest(st));
                }
                Some(st)
            },
        };
        proof {
            let c = self.calls();
            assert(c.take(before.len() as int) =~= before);
            assert(c.skip(before.len() as int) =~= c.subrange(before.len() as int, c.len() as int));
        }
        request_status(answer)
    }
}

} // verus!
