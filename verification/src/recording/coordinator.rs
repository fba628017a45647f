//! The recording lifecycle: the `Idle -> Starting -> Recording ->
//! Stopping/Failed -> Idle` state machine with exactly one active
//! recording and exactly one owner of each session's finalization, the
//! permission rule for starting, what a stop returns, the name a new
//! recording gets, and the manifest edits (step patches, step removal,
//! rename). The per-packet decisions of the session worker are in
//! `session`.
//!
//! Threads, locks, channels and the store's file I/O belong to the I/O
//! shell, which holds the phase behind its state lock and runs the worker
//! loop; every decision it takes is made here or in `session`.

use vstd::prelude::*;

use crate::domain::schema::{strings_view, Classification, Manifest, Step, StepView};
use crate::permissions::{PermissionReport, PermissionStatus};
use crate::recording::clock::{default_workflow_name, name_pattern, representable, strftime_text};
use crate::recording::store::{store_error_message, StoreError};
use crate::text::{decimal, push_decimal, str_eq, str_trim, trim};

verus! {

/// Errors from the capture-lifecycle service.
#[derive(Debug, Clone, PartialEq, Eq)]
pub enum RecordingError {
    /// A recording is already active or starting.
    AlreadyActive,
    /// Stop was called while start was still in progress.
    StartInProgress,
    /// Stop was called while a finalization was already in progress.
    StopInProgress,
    /// Stop was called with no active recording.
    NotRecording,
    /// One or more of the three required permissions did not pass.
    PermissionsMissing(PermissionReport),
    /// The target workflow is the active or stopping recording; manifest
    /// mutations and deletion are rejected until finalization completes.
    WorkflowBusy(String),
    /// The step id does not exist in the workflow's manifest.
    StepNotFound { workflow_id: String, step_id: String },
    /// The rename target name is empty after trimming.
    EmptyWorkflowName,
    Store(StoreError),
    PipelineStart(String),
    /// The recording stopped, but finalization could not persist the
    /// manifest; committed events and screenshots remain on disk.
    FinalizationFailed(String),
    Internal(String),
}

/// `{:?}` of a permission status: its variant name.
pub open spec fn status_debug(status: PermissionStatus) -> Seq<char> {
    match status {
        PermissionStatus::Granted => "Granted"@,
        PermissionStatus::Denied => "Denied"@,
        PermissionStatus::NotRequested => "NotRequested"@,
        PermissionStatus::BlockedByPrerequisite => "BlockedByPrerequisite"@,
    }
}

fn push_status_debug(s: &mut String, status: PermissionStatus)
    ensures
        final(s)@ == old(s)@ + status_debug(status),
{
    match status {
        PermissionStatus::Granted => s.append("Granted"),
        PermissionStatus::Denied => s.append("Denied"),
        PermissionStatus::NotRequested => s.append("NotRequested"),
        PermissionStatus::BlockedByPrerequisite => s.append("BlockedByPrerequisite"),
    }
}

/// The message of each recording error, as its `Display` renders it.
pub open spec fn recording_error_message(e: RecordingError) -> Seq<char> {
    match e {
        RecordingError::AlreadyActive => "a recording is already active or starting"@,
        RecordingError::StartInProgress => "recording start is in progress"@,
        RecordingError::StopInProgress => "recording finalization is in progress"@,
        RecordingError::NotRecording => "no active recording"@,
        RecordingError::PermissionsMissing(report) =>
            "recording requires Input Monitoring, Accessibility, and Screen Recording; current status: input_monitoring="@
            + status_debug(report.input_monitoring) + ", accessibility="@ + status_debug(
            report.accessibility,
        ) + ", screen_recording="@ + status_debug(report.screen_recording),
        RecordingError::WorkflowBusy(id) => "workflow "@ + id@
            + " is recording or stopping; wait for it to finish"@,
        RecordingError::StepNotFound { workflow_id, step_id } => "step "@ + step_id@
            + " not found in workflow "@ + workflow_id@,
        RecordingError::EmptyWorkflowName => "workflow name cannot be empty"@,
        RecordingError::Store(error) => "storage error: "@ + store_error_message(error),
        RecordingError::PipelineStart(error) => "capture pipeline failed to start: "@ + error@,
        RecordingError::FinalizationFailed(error) => "recording finalization failed: "@
            + error@,
        RecordingError::Internal(error) => "internal recording error: "@ + error@,
    }
}

impl RecordingError {
    /// The error's message.
    pub fn to_string(&self) -> (r: String)
        ensures
            r@ == recording_error_message(*self),
    {
        match self {
            RecordingError::AlreadyActive => String::from_str(
                "a recording is already active or starting",
            ),
            RecordingError::StartInProgress => String::from_str("recording start is in progress"),
            RecordingError::StopInProgress => String::from_str(
                "recording finalization is in progress",
            ),
            RecordingError::NotRecording => String::from_str("no active recording"),
            RecordingError::PermissionsMissing(report) => {
                let mut s = String::from_str(
                    "recording requires Input Monitoring, Accessibility, and Screen Recording; current status: input_monitoring=",
                );
                push_status_debug(&mut s, report.input_monitoring);
                s.append(", accessibility=");
                push_status_debug(&mut s, report.accessibility);
                s.append(", screen_recording=");
                push_status_debug(&mut s, report.screen_recording);
                s
            },
            RecordingError::WorkflowBusy(id) => {
                let mut s = String::from_str("workflow ");
                s.append(id.as_str());
                s.append(" is recording or stopping; wait for it to finish");
                s
            },
            RecordingError::StepNotFound { workflow_id, step_id } => {
                let mut s = String::from_str("step ");
                s.append(step_id.as_str());
                s.append(" not found in workflow ");
                s.append(workflow_id.as_str());
                s
            },
            RecordingError::EmptyWorkflowName => String::from_str("workflow name cannot be empty"),
            RecordingError::Store(error) => {
                let mut s = String::from_str("storage error: ");
                let detail = error.to_string();
                s.append(detail.as_str());
                s
            },
            RecordingError::PipelineStart(error) => {
                let mut s = String::from_str("capture pipeline failed to start: ");
                s.append(error.as_str());
                s
            },
            RecordingError::FinalizationFailed(error) => {
                let mut s = String::from_str("recording finalization failed: ");
                s.append(error.as_str());
                s
            },
            RecordingError::Internal(error) => {
                let mut s = String::from_str("internal recording error: ");
                s.append(error.as_str());
                s
            },
        }
    }
}

/// Wraps a store error.
impl From<StoreError> for RecordingError {
    fn from(error: StoreError) -> (r: Self) {
        RecordingError::Store(error)
    }
}

impl vstd::std_specs::convert::FromSpecImpl<StoreError> for RecordingError {
    open spec fn obeys_from_spec() -> bool {
        true
    }

    open spec fn from_spec(v: StoreError) -> RecordingError {
        RecordingError::Store(v)
    }
}

/// True when all three permissions are granted.
pub open spec fn report_all_granted(report: PermissionReport) -> bool {
    &&& report.input_monitoring == PermissionStatus::Granted
    &&& report.accessibility == PermissionStatus::Granted
    &&& report.screen_recording == PermissionStatus::Granted
}

/// Start is gated on all three permissions passing.
pub fn all_granted(report: &PermissionReport) -> (r: bool)
    ensures
        r == report_all_granted(*report),
{
    report.input_monitoring == PermissionStatus::Granted && report.accessibility
        == PermissionStatus::Granted && report.screen_recording == PermissionStatus::Granted
}

/// The lifecycle phase. `S` is the I/O shell's handle on a running
/// session (its worker thread, packet channel and pipeline).
pub enum Phase<S> {
    Idle,
    Starting,
    Recording { workflow_id: String, session: S },
    /// A stop owns the session and is joining the worker. The workflow id
    /// stays visible so mutations targeting it are rejected until
    /// finalization completes.
    Stopping { workflow_id: String },
    /// The worker owns a fail-stop finalization; the id stays visible for
    /// the same guard.
    Failed { workflow_id: String },
}

/// The workflow a phase keeps busy, if any. `Starting` has not published
/// its fresh id yet, so no caller can target it.
pub open spec fn busy_id<S>(phase: Phase<S>) -> Option<Seq<char>> {
    match phase {
        Phase::Recording { workflow_id, .. } => Some(workflow_id@),
        Phase::Stopping { workflow_id } => Some(workflow_id@),
        Phase::Failed { workflow_id } => Some(workflow_id@),
        Phase::Idle | Phase::Starting => None,
    }
}

/// The error a stop request meets in each phase other than `Recording`.
pub open spec fn stop_refusal<S>(phase: Phase<S>) -> RecordingError {
    match phase {
        Phase::Idle => RecordingError::NotRecording,
        Phase::Starting => RecordingError::StartInProgress,
        _ => RecordingError::StopInProgress,
    }
}

/// The phase after a start request.
pub open spec fn phase_after_start<S>(phase: Phase<S>) -> Phase<S> {
    if phase is Idle {
        Phase::Starting
    } else {
        phase
    }
}

/// The phase after a stop request.
pub open spec fn phase_after_stop<S>(phase: Phase<S>) -> Phase<S> {
    match phase {
        Phase::Recording { workflow_id, .. } => Phase::Stopping { workflow_id },
        _ => phase,
    }
}

/// The phase after the worker's fail-stop takeover.
pub open spec fn phase_after_fail<S>(phase: Phase<S>) -> Phase<S> {
    match phase {
        Phase::Recording { workflow_id, .. } => Phase::Failed { workflow_id },
        _ => phase,
    }
}

impl<S> Phase<S> {
    /// Claims the single recording slot: `Idle` becomes `Starting`; any
    /// other phase refuses with `AlreadyActive` and stays as it is.
    pub fn begin_start(&mut self) -> (r: Result<(), RecordingError>)
        ensures
            r is Ok == (*old(self) is Idle),
            *final(self) == phase_after_start(*old(self)),
            match *old(self) {
                Phase::Idle => r is Ok && *final(self) is Starting,
                _ => r == Err::<(), RecordingError>(RecordingError::AlreadyActive) && *final(self)
                    == *old(self),
            },
    {
        match self {
            Phase::Idle => {
                *self = Phase::Starting;
                Ok(())
            },
            _ => Err(RecordingError::AlreadyActive),
        }
    }

    /// Installs a started session: `Starting` becomes `Recording`.
    pub fn install(&mut self, workflow_id: String, session: S)
        requires
            *old(self) is Starting,
        ensures
            *final(self) == (Phase::Recording { workflow_id, session }),
    {
        *self = Phase::Recording { workflow_id, session };
    }

    /// Returns to `Idle`: after a failed start, or once finalization has
    /// completed.
    pub fn finish(&mut self)
        ensures
            *final(self) is Idle,
    {
        *self = Phase::Idle;
    }

    /// A stop request: `Recording` becomes `Stopping` for the same
    /// workflow and hands the session to the stopping caller; `Idle`
    /// refuses with `NotRecording`, `Starting` with `StartInProgress`,
    /// and `Stopping`/`Failed` with `StopInProgress`, unchanged.
    pub fn begin_stop(&mut self) -> (r: Result<(String, S), RecordingError>)
        ensures
            r is Ok == (*old(self) is Recording),
            *final(self) == phase_after_stop(*old(self)),
            match *old(self) {
                Phase::Recording { workflow_id, session } => {
                    &&& r matches Ok((id, s)) && id == workflow_id && s == session
                    &&& *final(self) == (Phase::<S>::Stopping { workflow_id })
                },
                _ => {
                    &&& r matches Err(e) && e == stop_refusal(*old(self))
                    &&& *final(self) == *old(self)
                },
            },
    {
        let mut current = Phase::Idle;
        std::mem::swap(self, &mut current);
        match current {
            Phase::Recording { workflow_id, session } => {
                *self = Phase::Stopping { workflow_id: workflow_id.clone() };
                Ok((workflow_id, session))
            },
            Phase::Idle => {
                *self = Phase::Idle;
                Err(RecordingError::NotRecording)
            },
            Phase::Starting => {
                *self = Phase::Starting;
                Err(RecordingError::StartInProgress)
            },
            Phase::Stopping { workflow_id } => {
                *self = Phase::Stopping { workflow_id };
                Err(RecordingError::StopInProgress)
            },
            Phase::Failed { workflow_id } => {
                *self = Phase::Failed { workflow_id };
                Err(RecordingError::StopInProgress)
            },
        }
    }

    /// The worker's fail-stop takeover: when the session is still
    /// `Recording` (no stop owns it), the phase becomes `Failed` for the
    /// same workflow and the worker owns the state from here (the session
    /// handle is returned to be released). Otherwise a concurrent stop
    /// already owns the session and nothing changes.
    pub fn fail_takeover(&mut self) -> (r: Option<S>)
        ensures
            r is Some == (*old(self) is Recording),
            *final(self) == phase_after_fail(*old(self)),
            match *old(self) {
                Phase::Recording { workflow_id, session } => {
                    &&& r == Some(session)
                    &&& *final(self) == (Phase::<S>::Failed { workflow_id })
                },
                _ => r is None && *final(self) == *old(self),
            },
    {
        let mut current = Phase::Idle;
        std::mem::swap(self, &mut current);
        match current {
            Phase::Recording { workflow_id, session } => {
                *self = Phase::Failed { workflow_id };
                Some(session)
            },
            other => {
                *self = other;
                None
            },
        }
    }

    /// Rejects mutations and deletion targeting the active or stopping
    /// workflow; every other workflow stays editable.
    pub fn guard_not_active(&self, workflow_id: &str) -> (r: Result<(), RecordingError>)
        ensures
            match busy_id(*self) {
                Some(id) if id == workflow_id@ => r matches Err(RecordingError::WorkflowBusy(w))
                    && w@ == workflow_id@,
                _ => r is Ok,
            },
    {
        let busy = match self {
            Phase::Recording { workflow_id: id, .. } => crate::text::str_eq(id.as_str(), workflow_id),
            Phase::Stopping { workflow_id: id } => crate::text::str_eq(id.as_str(), workflow_id),
            Phase::Failed { workflow_id: id } => crate::text::str_eq(id.as_str(), workflow_id),
            Phase::Idle | Phase::Starting => false,
        };
        if busy {
            Err(RecordingError::WorkflowBusy(String::from_str(workflow_id)))
        } else {
            Ok(())
        }
    }
}

/// The start rule: a recording starts only when all three permissions
/// are granted; otherwise start is refused with the full report.
pub fn check_permissions(report: PermissionReport) -> (r: Result<(), RecordingError>)
    ensures
        report_all_granted(report) ==> r is Ok,
        !report_all_granted(report) ==> r == Err::<(), RecordingError>(
            RecordingError::PermissionsMissing(report),
        ),
{
    if all_granted(&report) {
        Ok(())
    } else {
        Err(RecordingError::PermissionsMissing(report))
    }
}

/// What a stop returns once the worker has finalized: the workflow id,
/// or the manifest-save failure the worker recorded, so a stale manifest
/// is never reported as a successful stop.
pub fn stop_result(workflow_id: String, save_failure: Option<String>) -> (r: Result<
    String,
    RecordingError,
>)
    ensures
        match save_failure {
            Some(e) => r == Err::<String, RecordingError>(RecordingError::FinalizationFailed(e)),
            None => r matches Ok(id) && id@ == workflow_id@,
        },
{
    match save_failure {
        Some(error) => Err(RecordingError::FinalizationFailed(error)),
        None => Ok(workflow_id),
    }
}

/// A transient patch for one step: only the supplied fields change.
#[derive(Debug, Clone, Default, PartialEq, Eq)]
pub struct StepPatch {
    pub title: Option<String>,
    pub description: Option<String>,
    pub classification: Option<Classification>,
}

/// The step after a patch: supplied fields replaced, the rest kept.
pub open spec fn patched(step: StepView, patch: StepPatch) -> StepView {
    StepView {
        title: match patch.title {
            Some(t) => t@,
            None => step.title,
        },
        description: match patch.description {
            Some(d) => d@,
            None => step.description,
        },
        classification: match patch.classification {
            Some(c) => c,
            None => step.classification,
        },
        ..step
    }
}

/// A patch sets each supplied field of the step to the supplied value and
/// leaves every other field as it was; the step keeps its id and events.
pub proof fn lemma_a_patch_sets_exactly_the_supplied_fields(step: StepView, patch: StepPatch)
    ensures
        patch.title matches Some(t) ==> patched(step, patch).title == t@,
        patch.title is None ==> patched(step, patch).title == step.title,
        patch.description matches Some(d) ==> patched(step, patch).description == d@,
        patch.description is None ==> patched(step, patch).description == step.description,
        patch.classification matches Some(c) ==> patched(step, patch).classification == c,
        patch.classification is None ==> patched(step, patch).classification == step.classification,
        patched(step, patch).id == step.id,
        patched(step, patch).event_ids == step.event_ids,
{
}

/// The views of a list of steps.
pub open spec fn steps_view(steps: Seq<Step>) -> Seq<StepView> {
    steps.map_values(|s: Step| s@)
}

/// The index of the first step with this id, if any.
pub open spec fn first_step_with(steps: Seq<Step>, step_id: Seq<char>, i: int) -> bool {
    &&& 0 <= i < steps.len()
    &&& steps[i].id@ == step_id
    &&& forall|j: int| 0 <= j < i ==> #[trigger] steps[j].id@ != step_id
}

/// Applies a patch to the first step with `step_id`. An unknown step
/// leaves the manifest untouched and reports `StepNotFound`.
pub fn apply_step_patch(manifest: &mut Manifest, workflow_id: &str, step_id: &str, patch: StepPatch) -> (r:
    Result<(), RecordingError>)
    ensures
        final(manifest).schema_version == old(manifest).schema_version,
        final(manifest).id == old(manifest).id,
        final(manifest).name == old(manifest).name,
        final(manifest).created_at == old(manifest).created_at,
        r is Ok ==> exists|i: int|
            {
                &&& first_step_with(old(manifest).steps@, step_id@, i)
                &&& final(manifest).steps@.len() == old(manifest).steps@.len()
                &&& final(manifest).steps@[i].id@ == step_id@
                &&& (patch.title matches Some(t) ==> final(manifest).steps@[i].title@ == t@)
                &&& (patch.title is None ==> final(manifest).steps@[i].title@ == old(manifest).steps@[i].title@)
                &&& (patch.description matches Some(d) ==> final(manifest).steps@[i].description@
                    == d@)
                &&& (patch.description is None ==> final(manifest).steps@[i].description@ == old(manifest).steps@[i].description@)
                &&& (patch.classification matches Some(c) ==> final(manifest).steps@[i].classification
                    == c)
                &&& (patch.classification is None ==> final(manifest).steps@[i].classification
                    == old(manifest).steps@[i].classification)
                &&& forall|j: int| 0 <= j < old(manifest).steps@.len() && j != i ==> #[trigger] final(manifest).steps@[j]@ == old(manifest).steps@[j]@
            },
        match r {
            Ok(()) => exists|i: int|
                first_step_with(old(manifest).steps@, step_id@, i) && steps_view(
                    final(manifest).steps@,
                ) == steps_view(old(manifest).steps@).update(
                    i,
                    patched(old(manifest).steps@[i]@, patch),
                ),
            Err(e) => {
                &&& forall|i: int| 0 <= i < old(manifest).steps@.len() ==> #[trigger] old(
                    manifest,
                ).steps@[i].id@ != step_id@
                &&& e matches RecordingError::StepNotFound { workflow_id: w, step_id: s } && w@
                    == workflow_id@ && s@ == step_id@
                &&& final(manifest).steps@ == old(manifest).steps@
            },
        },
{
    let mut i: usize = 0;
    while i < manifest.steps.len()
        invariant
            0 <= i <= manifest.steps@.len(),
            manifest.steps@ == old(manifest).steps@,
            manifest.schema_version == old(manifest).schema_version,
            manifest.id == old(manifest).id,
            manifest.name == old(manifest).name,
            manifest.created_at == old(manifest).created_at,
            forall|j: int| 0 <= j < i ==> #[trigger] manifest.steps@[j].id@ != step_id@,
        decreases manifest.steps@.len() - i,
    {
        if str_eq(manifest.steps[i].id.as_str(), step_id) {
            let ghost before = manifest.steps@;
            let mut step = manifest.steps.remove(i);
            match patch.title {
                Some(t) => {
                    step.title = t;
                },
                None => {},
            }
            match patch.description {
                Some(d) => {
                    step.description = d;
                },
                None => {},
            }
            match patch.classification {
                Some(c) => {
                    step.classification = c;
                },
                None => {},
            }
            manifest.steps.insert(i, step);
            proof {
                assert(first_step_with(before, step_id@, i as int));
                assert(steps_view(manifest.steps@) =~= steps_view(before).update(
                    i as int,
                    patched(before[i as int]@, patch),
                ));
            }
            return Ok(());
        }
        i = i + 1;
    }
    Err(
        RecordingError::StepNotFound {
            workflow_id: String::from_str(workflow_id),
            step_id: String::from_str(step_id),
        },
    )
}

/// Removes every step entry with `step_id` from the manifest; its raw
/// events and screenshots are not touched. When no step has that id the
/// manifest is unchanged and `StepNotFound` is reported.
pub fn remove_step(manifest: &mut Manifest, workflow_id: &str, step_id: &str) -> (r: Result<
    (),
    RecordingError,
>)
    ensures
        final(manifest).schema_version == old(manifest).schema_version,
        final(manifest).id == old(manifest).id,
        final(manifest).name == old(manifest).name,
        final(manifest).created_at == old(manifest).created_at,
        final(manifest).steps@ == old(manifest).steps@.filter(|s: Step| s.id@ != step_id@),
        match r {
            Ok(()) => exists|i: int|
                0 <= i < old(manifest).steps@.len() && #[trigger] old(manifest).steps@[i].id@
                    == step_id@,
            Err(e) => {
                &&& forall|i: int| 0 <= i < old(manifest).steps@.len() ==> #[trigger] old(
                    manifest,
                ).steps@[i].id@ != step_id@
                &&& e matches RecordingError::StepNotFound { workflow_id: w, step_id: s } && w@
                    == workflow_id@ && s@ == step_id@
            },
        },
{
    let ghost pred = |s: Step| s.id@ != step_id@;
    let ghost original = manifest.steps@;
    assert(original.len() == manifest.steps.len());
    let mut rest: Vec<Step> = Vec::new();
    std::mem::swap(&mut manifest.steps, &mut rest);
    let mut removed = false;
    let mut k: usize = 0;
    let ghost n = original.len();
    while rest.len() > 0
        invariant
            rest@ == original.skip(k as int),
            0 <= k <= n,
            k + rest@.len() == n,
            n <= usize::MAX,
            n == original.len(),
            manifest.steps@ == original.take(k as int).filter(pred),
            pred == (|s: Step| s.id@ != step_id@),
            removed == exists|j: int| 0 <= j < k && #[trigger] original[j].id@ == step_id@,
            manifest.schema_version == old(manifest).schema_version,
            manifest.id == old(manifest).id,
            manifest.name == old(manifest).name,
            manifest.created_at == old(manifest).created_at,
        decreases rest@.len(),
    {
        let ghost rest_before = rest@;
        let step = rest.remove(0);
        proof {
            reveal_with_fuel(Seq::filter, 1);
            assert(original.take(k + 1).drop_last() =~= original.take(k as int));
            assert(original[k as int] == step);
            assert(original.skip(k + 1) =~= rest@);
        }
        if str_eq(step.id.as_str(), step_id) {
            removed = true;
        } else {
            manifest.steps.push(step);
        }
        k = k + 1;
    }
    proof {
        assert(original.take(n as int) =~= original);
    }
    if removed {
        Ok(())
    } else {
        Err(
            RecordingError::StepNotFound {
                workflow_id: String::from_str(workflow_id),
                step_id: String::from_str(step_id),
            },
        )
    }
}

/// The rename target: the name trimmed, which must not be empty.
pub fn rename_target(name: &str) -> (r: Result<String, RecordingError>)
    ensures
        match r {
            Ok(n) => n@ == trim(name@) && trim(name@).len() > 0,
            Err(e) => trim(name@).len() == 0 && e == RecordingError::EmptyWorkflowName,
        },
{
    let trimmed = str_trim(name);
    if trimmed.as_str().unicode_len() == 0 {
        Err(RecordingError::EmptyWorkflowName)
    } else {
        Ok(trimmed)
    }
}

/// Renames the workflow in its manifest: the name becomes the trimmed
/// target; the id (and so the folder), the creation time and the steps
/// never change. A name that is empty after trimming is refused and the
/// manifest is left untouched.
pub fn rename_manifest(manifest: &mut Manifest, name: &str) -> (r: Result<(), RecordingError>)
    ensures
        final(manifest).schema_version == old(manifest).schema_version,
        final(manifest).id == old(manifest).id,
        final(manifest).created_at == old(manifest).created_at,
        final(manifest).steps == old(manifest).steps,
        match r {
            Ok(()) => trim(name@).len() > 0 && final(manifest).name@ == trim(name@),
            Err(e) => trim(name@).len() == 0 && e == RecordingError::EmptyWorkflowName
                && final(manifest).name == old(manifest).name,
        },
{
    match rename_target(name) {
        Ok(target) => {
            manifest.name = target;
            Ok(())
        },
        Err(e) => Err(e),
    }
}

/// The name a new recording gets: the supplied name trimmed, or, when it
/// is missing or blank, the timestamp default for `now_ms`.
pub fn resolve_workflow_name(name: Option<&str>, now_ms: i64) -> (r: String)
    requires
        representable(now_ms),
    ensures
        match name {
            Some(n) if trim(n@).len() > 0 => r@ == trim(n@),
            _ => r@ == strftime_text(now_ms, name_pattern()),
        },
{
    match name {
        Some(n) => {
            let trimmed = str_trim(n);
            if trimmed.as_str().unicode_len() > 0 {
                trimmed
            } else {
                default_workflow_name(now_ms)
            }
        },
        None => default_workflow_name(now_ms),
    }
}

/// Exactly one of two start requests can succeed: after a successful
/// start, a second start is refused with `AlreadyActive`, and a stop
/// meanwhile is refused with `StartInProgress`.
pub proof fn lemma_one_start_wins<S>(phase: Phase<S>)
    requires
        phase is Idle,
    ensures
        !(phase_after_start(phase) is Idle),
        phase_after_start(phase_after_start(phase)) == phase_after_start(phase),
        stop_refusal(phase_after_start(phase)) == RecordingError::StartInProgress,
{
}

/// Stop and fail-stop have exactly one owner: once a stop owns the
/// session, the worker's takeover finds nothing to take; once the worker
/// has taken over, a stop is refused with `StopInProgress`. Either way
/// the workflow stays busy until finalization completes.
pub proof fn lemma_stop_and_fail_have_one_owner<S>(phase: Phase<S>)
    requires
        phase is Recording,
    ensures
        !(phase_after_stop(phase) is Recording),
        phase_after_fail(phase_after_stop(phase)) == phase_after_stop(phase),
        !(phase_after_fail(phase) is Recording),
        phase_after_stop(phase_after_fail(phase)) == phase_after_fail(phase),
        stop_refusal(phase_after_fail(phase)) == RecordingError::StopInProgress,
        busy_id(phase_after_stop(phase)) == busy_id(phase),
        busy_id(phase_after_fail(phase)) == busy_id(phase),
{
}

} // verus!
