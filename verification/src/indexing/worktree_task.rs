//! One worktree's indexing task: how it starts, what it reacts to, and what it reports.

use vstd::prelude::*;

use crate::jobs::JobKind;
use crate::report::Report;
use crate::text::{concat2, concat3, concat4, concat5, decimal_i64, decimal_u64, same};

verus! {

/// What is known of a task while it runs.
#[derive(Debug, PartialEq, Eq)]
pub struct WorktreeTaskStatus<S = String> {
    /// The generation that was last served.
    pub last_generation_id: Option<S>,
    /// When the cycle that served it started.
    pub last_success_ms: Option<i64>,
    /// Failures in a row since then.
    pub consecutive_failures: u32,
    /// What the last failure said.
    pub last_error: Option<S>,
    /// When the cycle that runs now started.
    pub in_progress_since: Option<i64>,
}

impl View for WorktreeTaskStatus<String> {
    type V = WorktreeTaskStatus<Seq<char>>;

    open spec fn view(&self) -> WorktreeTaskStatus<Seq<char>> {
        WorktreeTaskStatus {
            last_generation_id: self.last_generation_id.deep_view(),
            last_success_ms: self.last_success_ms,
            consecutive_failures: self.consecutive_failures,
            last_error: self.last_error.deep_view(),
            in_progress_since: self.in_progress_since,
        }
    }
}

/// The status of a task that has done nothing.
pub open spec fn fresh_status() -> WorktreeTaskStatus<Seq<char>> {
    WorktreeTaskStatus {
        last_generation_id: None,
        last_success_ms: None,
        consecutive_failures: 0,
        last_error: None,
        in_progress_since: None,
    }
}

impl Default for WorktreeTaskStatus<String> {
    fn default() -> (r: Self)
        ensures
            r@ == fresh_status(),
    {
        WorktreeTaskStatus {
            last_generation_id: None,
            last_success_ms: None,
            consecutive_failures: 0,
            last_error: None,
            in_progress_since: None,
        }
    }
}

impl Clone for WorktreeTaskStatus<String> {
    fn clone(&self) -> (r: Self)
        ensures
            r@ == self@,
    {
        WorktreeTaskStatus {
            last_generation_id: clone_text(&self.last_generation_id),
            last_success_ms: self.last_success_ms,
            consecutive_failures: self.consecutive_failures,
            last_error: clone_text(&self.last_error),
            in_progress_since: self.in_progress_since,
        }
    }
}

fn clone_text(s: &Option<String>) -> (r: Option<String>)
    ensures
        r.deep_view() == s.deep_view(),
{
    match s {
        Some(text) => Some(text.clone()),
        None => None,
    }
}

/// Why a task could not start.
#[derive(Debug, PartialEq, Eq)]
pub enum WorktreeTaskStartError<S = String> {
    Meta(S),
    WorktreeVanished,
    Watcher(S),
    Runtime(S),
    ThreadPanicked,
}

impl View for WorktreeTaskStartError<String> {
    type V = WorktreeTaskStartError<Seq<char>>;

    open spec fn view(&self) -> WorktreeTaskStartError<Seq<char>> {
        match *self {
            WorktreeTaskStartError::Meta(e) => WorktreeTaskStartError::Meta(e@),
            WorktreeTaskStartError::WorktreeVanished => WorktreeTaskStartError::WorktreeVanished,
            WorktreeTaskStartError::Watcher(e) => WorktreeTaskStartError::Watcher(e@),
            WorktreeTaskStartError::Runtime(e) => WorktreeTaskStartError::Runtime(e@),
            WorktreeTaskStartError::ThreadPanicked => WorktreeTaskStartError::ThreadPanicked,
        }
    }
}

/// The error in words.
pub open spec fn start_error_text(e: WorktreeTaskStartError<Seq<char>>) -> Seq<char> {
    match e {
        WorktreeTaskStartError::Meta(cause) => "could not load worktree metadata: "@ + cause,
        WorktreeTaskStartError::WorktreeVanished => "the worktree vanished from the registry"@,
        WorktreeTaskStartError::Watcher(cause) => "could not start the filesystem watcher: "@
            + cause,
        WorktreeTaskStartError::Runtime(cause) => "could not build the worktree task's runtime: "@
            + cause,
        WorktreeTaskStartError::ThreadPanicked =>
        "the worktree task's background thread panicked during startup"@,
    }
}

impl WorktreeTaskStartError<String> {
    /// The error in words.
    pub fn message(&self) -> (r: String)
        ensures
            r@ == start_error_text(self@),
    {
        match self {
            WorktreeTaskStartError::Meta(cause) => concat2(
                "could not load worktree metadata: ",
                cause.as_str(),
            ),
            WorktreeTaskStartError::WorktreeVanished =>
            "the worktree vanished from the registry".to_owned(),
            WorktreeTaskStartError::Watcher(cause) => concat2(
                "could not start the filesystem watcher: ",
                cause.as_str(),
            ),
            WorktreeTaskStartError::Runtime(cause) => concat2(
                "could not build the worktree task's runtime: ",
                cause.as_str(),
            ),
            WorktreeTaskStartError::ThreadPanicked =>
            "the worktree task's background thread panicked during startup".to_owned(),
        }
    }
}

/// The stages of a start, in order.
#[derive(Debug, Clone, Copy, PartialEq, Eq, Structural)]
pub enum StartStage {
    BuildRuntime,
    LoadMeta,
    StartWatcher,
    /// Everything is up: the first reconcile is asked for and the loop runs.
    Running,
}

/// What a stage of a start came to.
#[derive(Debug, PartialEq, Eq)]
pub enum StageResult {
    Done,
    /// The registry has no such worktree any more.
    Vanished,
    Failed(String),
}

/// Where a start goes on after a stage.
pub open spec fn after_stage(stage: StartStage, result: StageResult) -> Result<
    StartStage,
    WorktreeTaskStartError<Seq<char>>,
> {
    match (stage, result) {
        (StartStage::BuildRuntime, StageResult::Failed(e)) => Err(
            WorktreeTaskStartError::Runtime(e@),
        ),
        (StartStage::BuildRuntime, _) => Ok(StartStage::LoadMeta),
        (StartStage::LoadMeta, StageResult::Vanished) => Err(
            WorktreeTaskStartError::WorktreeVanished,
        ),
        (StartStage::LoadMeta, StageResult::Failed(e)) => Err(WorktreeTaskStartError::Meta(e@)),
        (StartStage::LoadMeta, StageResult::Done) => Ok(StartStage::StartWatcher),
        (StartStage::StartWatcher, StageResult::Failed(e)) => Err(
            WorktreeTaskStartError::Watcher(e@),
        ),
        (StartStage::StartWatcher, _) => Ok(StartStage::Running),
        (StartStage::Running, _) => Ok(StartStage::Running),
    }
}

/// Where a start goes on after a stage. A failed stage ends it, and the error names the
/// stage.
pub fn advance_start(stage: StartStage, result: StageResult) -> (r: Result<
    StartStage,
    WorktreeTaskStartError,
>)
    ensures
        match r {
            Ok(next) => after_stage(stage, result) == Ok::<
                StartStage,
                WorktreeTaskStartError<Seq<char>>,
            >(next),
            Err(e) => after_stage(stage, result) == Err::<
                StartStage,
                WorktreeTaskStartError<Seq<char>>,
            >(e@),
        },
{
    match stage {
        StartStage::BuildRuntime => match result {
            StageResult::Failed(e) => Err(WorktreeTaskStartError::Runtime(e)),
            _ => Ok(StartStage::LoadMeta),
        },
        StartStage::LoadMeta => match result {
            StageResult::Vanished => Err(WorktreeTaskStartError::WorktreeVanished),
            StageResult::Failed(e) => Err(WorktreeTaskStartError::Meta(e)),
            StageResult::Done => Ok(StartStage::StartWatcher),
        },
        StartStage::StartWatcher => match result {
            StageResult::Failed(e) => Err(WorktreeTaskStartError::Watcher(e)),
            _ => Ok(StartStage::Running),
        },
        StartStage::Running => Ok(StartStage::Running),
    }
}

/// Whether `r` is what the background thread reported of its start. A thread that reports nothing
/// has panicked.
pub open spec fn is_told<T>(
    report: Option<Result<T, WorktreeTaskStartError>>,
    r: Result<T, WorktreeTaskStartError>,
) -> bool {
    match report {
        Some(result) => r == result,
        None => r matches Err(e) && e@ == WorktreeTaskStartError::<Seq<char>>::ThreadPanicked,
    }
}

/// What the background thread reported of its start.
pub fn started<T>(report: Option<Result<T, WorktreeTaskStartError>>) -> (r: Result<
    T,
    WorktreeTaskStartError,
>)
    ensures
        is_told(report, r),
{
    match report {
        Some(result) => result,
        None => Err(WorktreeTaskStartError::ThreadPanicked),
    }
}

/// What a running task waits for.
#[derive(Debug, PartialEq, Eq)]
pub enum TaskEvent {
    /// The task is told to stop. The reconciler has ended, and this is the last generation
    /// that it published.
    Stop { last_published: Option<String> },
    /// The reconciler published a success.
    Published { generation_id: Option<String> },
    /// The reconciler failed.
    ReconcileFailed { consecutive_failures: u32, last_error: String },
    /// A channel of the reconciler closed.
    ChannelClosed,
}

/// What the task does next.
#[derive(Debug, PartialEq, Eq)]
pub enum TaskAction<S = String> {
    /// Serve this generation and wait on.
    Project(S),
    /// Serve this generation and end.
    ProjectAndEnd(S),
    /// End.
    End,
    /// The generation is served already: the reconciler found nothing new.
    NothingNew(S),
    /// Wait on.
    Wait,
}

impl View for TaskAction<String> {
    type V = TaskAction<Seq<char>>;

    open spec fn view(&self) -> TaskAction<Seq<char>> {
        match *self {
            TaskAction::Project(id) => TaskAction::Project(id@),
            TaskAction::ProjectAndEnd(id) => TaskAction::ProjectAndEnd(id@),
            TaskAction::End => TaskAction::End,
            TaskAction::NothingNew(id) => TaskAction::NothingNew(id@),
            TaskAction::Wait => TaskAction::Wait,
        }
    }
}

/// What the task does on an event: a generation is served unless it was the last one
/// served, also on the way out.
pub open spec fn action_on(
    status: WorktreeTaskStatus<Seq<char>>,
    event: TaskEvent,
) -> TaskAction<Seq<char>> {
    match event {
        TaskEvent::Stop { last_published } => match last_published {
            Some(id) => if status.last_generation_id == Some(id@) {
                TaskAction::End
            } else {
                TaskAction::ProjectAndEnd(id@)
            },
            None => TaskAction::End,
        },
        TaskEvent::Published { generation_id } => match generation_id {
            Some(id) => if status.last_generation_id == Some(id@) {
                TaskAction::NothingNew(id@)
            } else {
                TaskAction::Project(id@)
            },
            None => TaskAction::Wait,
        },
        TaskEvent::ReconcileFailed { consecutive_failures, last_error } => TaskAction::Wait,
        TaskEvent::ChannelClosed => TaskAction::Wait,
    }
}

/// What the status is after an event: only a failed reconcile changes it.
pub open spec fn status_on(
    status: WorktreeTaskStatus<Seq<char>>,
    event: TaskEvent,
) -> WorktreeTaskStatus<Seq<char>> {
    match event {
        TaskEvent::ReconcileFailed { consecutive_failures, last_error } => WorktreeTaskStatus {
            consecutive_failures,
            last_error: Some(last_error@),
            ..status
        },
        _ => status,
    }
}

fn is_served(status: &WorktreeTaskStatus, id: &str) -> (r: bool)
    ensures
        r == (status@.last_generation_id == Some(id@)),
{
    match &status.last_generation_id {
        Some(last) => same(last.as_str(), id),
        None => false,
    }
}

/// Reacts to an event.
pub fn on_event(status: &mut WorktreeTaskStatus, event: TaskEvent) -> (r: TaskAction)
    ensures
        r@ == action_on(old(status)@, event),
        final(status)@ == status_on(old(status)@, event),
{
    match event {
        TaskEvent::Stop { last_published } => match last_published {
            Some(id) => if is_served(status, id.as_str()) {
                TaskAction::End
            } else {
                TaskAction::ProjectAndEnd(id)
            },
            None => TaskAction::End,
        },
        TaskEvent::Published { generation_id } => match generation_id {
            Some(id) => if is_served(status, id.as_str()) {
                TaskAction::NothingNew(id)
            } else {
                TaskAction::Project(id)
            },
            None => TaskAction::Wait,
        },
        TaskEvent::ReconcileFailed { consecutive_failures, last_error } => {
            status.consecutive_failures = consecutive_failures;
            status.last_error = Some(last_error);
            TaskAction::Wait
        },
        TaskEvent::ChannelClosed => TaskAction::Wait,
    }
}

/// Why a cycle did not start.
#[derive(Debug, Clone, Copy, PartialEq, Eq, Structural)]
pub enum CycleSkip {
    /// The generation's id is not one.
    NotAnId,
    /// A model is missing; the next trigger tries again.
    ModelMissing,
}

/// Whether a cycle starts.
pub open spec fn cycle_skip(is_id: bool, models_ready: bool) -> Option<CycleSkip> {
    if !is_id {
        Some(CycleSkip::NotAnId)
    } else if !models_ready {
        Some(CycleSkip::ModelMissing)
    } else {
        None
    }
}

/// What a cycle that does not start leaves in the status. An id that is none counts as a
/// failure; a missing model does not.
pub open spec fn status_after_skip(
    status: WorktreeTaskStatus<Seq<char>>,
    generation_id: Seq<char>,
    skip: CycleSkip,
) -> WorktreeTaskStatus<Seq<char>> {
    match skip {
        CycleSkip::NotAnId => WorktreeTaskStatus {
            consecutive_failures: (status.consecutive_failures + 1) as u32,
            last_error: Some(
                "internal error: generation id "@ + generation_id + " is not a UUID"@,
            ),
            ..status
        },
        CycleSkip::ModelMissing => WorktreeTaskStatus {
            last_error: Some(
                "embedding model not installed/opened yet; will retry on the next trigger"@,
            ),
            ..status
        },
    }
}

/// What beginning a cycle at `now_ms` leaves in the status.
pub open spec fn status_after_begin(
    status: WorktreeTaskStatus<Seq<char>>,
    generation_id: Seq<char>,
    is_id: bool,
    models_ready: bool,
    now_ms: i64,
) -> WorktreeTaskStatus<Seq<char>> {
    match cycle_skip(is_id, models_ready) {
        Some(skip) => status_after_skip(status, generation_id, skip),
        None => WorktreeTaskStatus { in_progress_since: Some(now_ms), ..status },
    }
}

/// Starts a cycle, or records why it does not start.
pub fn begin_cycle(
    status: &mut WorktreeTaskStatus,
    generation_id: &str,
    is_id: bool,
    models_ready: bool,
    now_ms: i64,
) -> (r: Option<CycleSkip>)
    requires
        !is_id ==> old(status).consecutive_failures < u32::MAX,
    ensures
        r == cycle_skip(is_id, models_ready),
        final(status)@ == status_after_begin(
            old(status)@,
            generation_id@,
            is_id,
            models_ready,
            now_ms,
        ),
{
    if !is_id {
        status.consecutive_failures = status.consecutive_failures + 1;
        status.last_error = Some(
            concat3("internal error: generation id ", generation_id, " is not a UUID"),
        );
        return Some(CycleSkip::NotAnId);
    }
    if !models_ready {
        status.last_error = Some(
            "embedding model not installed/opened yet; will retry on the next trigger".to_owned(),
        );
        return Some(CycleSkip::ModelMissing);
    }
    status.in_progress_since = Some(now_ms);
    None
}

/// What is stored of a cycle, to survive the daemon.
#[derive(Debug, PartialEq, Eq)]
pub struct IndexingOutcome<S = String> {
    pub attempt_at: i64,
    pub success: Option<S>,
    pub consecutive_failures: u32,
    pub last_error: Option<S>,
}

impl View for IndexingOutcome<String> {
    type V = IndexingOutcome<Seq<char>>;

    open spec fn view(&self) -> IndexingOutcome<Seq<char>> {
        IndexingOutcome {
            attempt_at: self.attempt_at,
            success: self.success.deep_view(),
            consecutive_failures: self.consecutive_failures,
            last_error: self.last_error.deep_view(),
        }
    }
}

/// What a cycle leaves in the status.
pub open spec fn status_after_cycle(
    status: WorktreeTaskStatus<Seq<char>>,
    generation_id: Seq<char>,
    started_ms: i64,
    error: Option<Seq<char>>,
) -> WorktreeTaskStatus<Seq<char>> {
    match error {
        None => WorktreeTaskStatus {
            last_generation_id: Some(generation_id),
            last_success_ms: Some(started_ms),
            consecutive_failures: 0,
            last_error: None,
            in_progress_since: None,
        },
        Some(e) => WorktreeTaskStatus {
            consecutive_failures: (status.consecutive_failures + 1) as u32,
            last_error: Some(e),
            in_progress_since: None,
            ..status
        },
    }
}

/// What is stored of a cycle.
pub open spec fn stored_outcome(
    status: WorktreeTaskStatus<Seq<char>>,
    generation_id: Seq<char>,
    started_ms: i64,
    error: Option<Seq<char>>,
) -> IndexingOutcome<Seq<char>> {
    match error {
        None => IndexingOutcome {
            attempt_at: started_ms,
            success: Some(generation_id),
            consecutive_failures: 0,
            last_error: None,
        },
        Some(e) => IndexingOutcome {
            attempt_at: started_ms,
            success: None,
            consecutive_failures: (status.consecutive_failures + 1) as u32,
            last_error: Some(e),
        },
    }
}

/// How long a cycle took; a clock that went back far enough to leave the range stops at
/// its end.
pub open spec fn duration(started_ms: i64, finished_ms: i64) -> i64 {
    if finished_ms - started_ms > i64::MAX {
        i64::MAX
    } else if finished_ms - started_ms < i64::MIN {
        i64::MIN
    } else {
        (finished_ms - started_ms) as i64
    }
}

/// How long a cycle took.
pub fn cycle_duration(started_ms: i64, finished_ms: i64) -> (r: i64)
    ensures
        r == duration(started_ms, finished_ms),
{
    match finished_ms.checked_sub(started_ms) {
        Some(d) => d,
        None => if finished_ms > started_ms {
            i64::MAX
        } else {
            i64::MIN
        },
    }
}

/// Ends a cycle.
pub fn finish_cycle(
    status: &mut WorktreeTaskStatus,
    generation_id: &str,
    started_ms: i64,
    error: Option<String>,
) -> (r: IndexingOutcome)
    requires
        error is Some ==> old(status).consecutive_failures < u32::MAX,
    ensures
        final(status)@ == status_after_cycle(
            old(status)@,
            generation_id@,
            started_ms,
            error.deep_view(),
        ),
        r@ == stored_outcome(old(status)@, generation_id@, started_ms, error.deep_view()),
{
    status.in_progress_since = None;
    match error {
        None => {
            status.last_generation_id = Some(generation_id.to_owned());
            status.last_success_ms = Some(started_ms);
            status.consecutive_failures = 0;
            status.last_error = None;
            IndexingOutcome {
                attempt_at: started_ms,
                success: Some(generation_id.to_owned()),
                consecutive_failures: 0,
                last_error: None,
            }
        },
        Some(e) => {
            status.consecutive_failures = status.consecutive_failures + 1;
            status.last_error = Some(e.clone());
            IndexingOutcome {
                attempt_at: started_ms,
                success: None,
                consecutive_failures: status.consecutive_failures,
                last_error: Some(e),
            }
        },
    }
}

/// What is reported of a cycle that does not start: never nothing.
pub open spec fn skip_line(
    skip: CycleSkip,
    worktree_id: Seq<char>,
    generation_id: Seq<char>,
) -> Report<Seq<char>> {
    match skip {
        CycleSkip::NotAnId => Report::Error(
            "indexing cycle skipped: generation id is not a UUID worktree_id="@ + worktree_id
                + " generation_id="@ + generation_id,
        ),
        CycleSkip::ModelMissing => Report::Warning(
            "indexing cycle skipped: embedding model not installed or not openable yet worktree_id="@
                + worktree_id + " generation_id="@ + generation_id,
        ),
    }
}

/// What is reported of a cycle that does not start.
pub fn skip_report(skip: CycleSkip, worktree_id: &str, generation_id: &str) -> (r: Report)
    ensures
        r@ == skip_line(skip, worktree_id@, generation_id@),
{
    match skip {
        CycleSkip::NotAnId => Report::Error(
            concat4(
                "indexing cycle skipped: generation id is not a UUID worktree_id=",
                worktree_id,
                " generation_id=",
                generation_id,
            ),
        ),
        CycleSkip::ModelMissing => Report::Warning(
            concat4(
                "indexing cycle skipped: embedding model not installed or not openable yet worktree_id=",
                worktree_id,
                " generation_id=",
                generation_id,
            ),
        ),
    }
}

/// What is reported of a cycle that failed.
pub open spec fn failure_line(
    worktree_id: Seq<char>,
    generation_id: Seq<char>,
    consecutive_failures: u32,
    duration_ms: i64,
    reason: Seq<char>,
) -> Seq<char> {
    "indexing cycle failed worktree_id="@ + worktree_id + " generation_id="@ + generation_id
        + " consecutive_failures="@ + crate::text::decimal(consecutive_failures as int)
        + " duration_ms="@ + crate::text::decimal(duration_ms as int) + " reason="@ + reason
}

/// What is reported of a cycle that failed; one that served its generation is no failure.
pub open spec fn failure_told(
    last_error: Option<Seq<char>>,
    consecutive_failures: u32,
    worktree_id: Seq<char>,
    generation_id: Seq<char>,
    duration_ms: i64,
) -> Option<Report<Seq<char>>> {
    match last_error {
        Some(e) => Some(
            Report::Warning(
                failure_line(worktree_id, generation_id, consecutive_failures, duration_ms, e),
            ),
        ),
        None => None,
    }
}

/// What is reported of a cycle that failed.
pub fn failure_report(
    outcome: &IndexingOutcome,
    worktree_id: &str,
    generation_id: &str,
    duration_ms: i64,
) -> (r: Option<Report>)
    ensures
        (match r {
            Some(report) => Some(report@),
            None => None,
        }) == failure_told(
            outcome@.last_error,
            outcome@.consecutive_failures,
            worktree_id@,
            generation_id@,
            duration_ms,
        ),
{
    match &outcome.last_error {
        Some(e) => {
            let failures = decimal_u64(outcome.consecutive_failures as u64);
            let duration = decimal_i64(duration_ms);
            let cycle = concat4(
                "indexing cycle failed worktree_id=",
                worktree_id,
                " generation_id=",
                generation_id,
            );
            let counted = concat5(
                cycle.as_str(),
                " consecutive_failures=",
                failures.as_str(),
                " duration_ms=",
                duration.as_str(),
            );
            Some(Report::Warning(concat3(counted.as_str(), " reason=", e.as_str())))
        },
        None => None,
    }
}

/// What a cycle is doing.
#[derive(Debug, Clone, Copy, PartialEq, Eq, Structural)]
pub enum CycleStage {
    /// Serving the generation.
    Projecting,
    /// Storing the outcome, to survive the daemon.
    Persisting,
    /// Folding the write-ahead log back, now that nothing reads from it.
    Checkpointing,
    Ended,
}

/// What a cycle does next, however the stage went: an outcome that could not be stored and
/// a log that could not be folded back leave the generation served.
pub open spec fn stage_after(stage: CycleStage) -> CycleStage {
    match stage {
        CycleStage::Projecting => CycleStage::Persisting,
        CycleStage::Persisting => CycleStage::Checkpointing,
        CycleStage::Checkpointing => CycleStage::Ended,
        CycleStage::Ended => CycleStage::Ended,
    }
}

/// What is reported of a stage that failed. How serving the generation went is reported
/// apart, with what is stored of it.
pub open spec fn stage_report(
    stage: CycleStage,
    worktree_id: Seq<char>,
    error: Option<Seq<char>>,
) -> Option<Report<Seq<char>>> {
    match (stage, error) {
        (CycleStage::Persisting, Some(e)) => Some(
            Report::Warning(
                "could not persist the indexing status (the index itself is unaffected) worktree_id="@
                    + worktree_id + " error="@ + e,
            ),
        ),
        (CycleStage::Checkpointing, Some(e)) => Some(
            Report::Warning(
                "wal checkpoint after indexing cycle failed worktree_id="@ + worktree_id
                    + " reason="@ + e,
            ),
        ),
        _ => None,
    }
}

/// The job that a cycle runs in a stage.
pub open spec fn stage_job(stage: CycleStage) -> Option<JobKind> {
    if stage is Ended {
        None
    } else {
        Some(JobKind::Reconcile)
    }
}

impl CycleStage {
    /// Takes a cycle to its next stage, where `error` is how this one failed.
    pub fn next(self, worktree_id: &str, error: &Option<String>) -> (r: (Self, Option<Report>))
        ensures
            r.0 == stage_after(self),
            match r.1 {
                Some(report) => stage_report(self, worktree_id@, error.deep_view()) == Some(report@),
                None => stage_report(self, worktree_id@, error.deep_view()) is None,
            },
    {
        let report = match error {
            None => None,
            Some(e) => match self {
                CycleStage::Projecting => None,
                CycleStage::Persisting => Some(
                    Report::Warning(
                        concat4(
                            "could not persist the indexing status (the index itself is unaffected) worktree_id=",
                            worktree_id,
                            " error=",
                            e.as_str(),
                        ),
                    ),
                ),
                CycleStage::Checkpointing => Some(
                    Report::Warning(
                        concat4(
                            "wal checkpoint after indexing cycle failed worktree_id=",
                            worktree_id,
                            " reason=",
                            e.as_str(),
                        ),
                    ),
                ),
                CycleStage::Ended => None,
            },
        };
        let next = match self {
            CycleStage::Projecting => CycleStage::Persisting,
            CycleStage::Persisting => CycleStage::Checkpointing,
            CycleStage::Checkpointing => CycleStage::Ended,
            CycleStage::Ended => CycleStage::Ended,
        };
        (next, report)
    }

    /// The job that is running: one from the start of a cycle to its end, so that the daemon
    /// does not count as idle in between.
    pub fn job(self) -> (r: Option<JobKind>)
        ensures
            r == stage_job(self),
    {
        match self {
            CycleStage::Ended => None,
            _ => Some(JobKind::Reconcile),
        }
    }
}

/// A cycle ends after its generation was served, its outcome was stored and the log was
/// folded back, each of them tried once.
pub proof fn law_a_cycle_ends(stage: CycleStage)
    ensures
        stage_after(stage_after(stage_after(stage))) is Ended,
        stage_after(stage) is Checkpointing <==> stage is Persisting,
        stage_after(stage) is Persisting <==> stage is Projecting,
{
}

/// A cycle shows as running from its start to its end, and at no other time.
pub proof fn law_a_cycle_shows_while_it_runs(
    status: WorktreeTaskStatus<Seq<char>>,
    generation_id: Seq<char>,
    now_ms: i64,
    error: Option<Seq<char>>,
    skip: CycleSkip,
    event: TaskEvent,
)
    requires
        status.in_progress_since is None,
    ensures
        ({
            let running = WorktreeTaskStatus { in_progress_since: Some(now_ms), ..status };
            status_after_cycle(
                running,
                generation_id,
                now_ms,
                error,
            ).in_progress_since is None
        }),
        status_after_skip(status, generation_id, skip).in_progress_since is None,
        status_on(status, event).in_progress_since is None,
{
}

/// A generation that was served is not served again, however often it is published.
pub proof fn law_a_served_generation_is_not_served_again(
    status: WorktreeTaskStatus<Seq<char>>,
    generation_id: String,
    now_ms: i64,
)
    ensures
        ({
            let served = status_after_cycle(status, generation_id@, now_ms, None);
            &&& action_on(served, TaskEvent::Published { generation_id: Some(generation_id) })
                == TaskAction::NothingNew(generation_id@)
            &&& action_on(served, TaskEvent::Stop { last_published: Some(generation_id) })
                == TaskAction::<Seq<char>>::End
        }),
{
}

/// A failure leaves what was served as it was, so a generation that was not served is tried
/// again when it is published again; a success clears every trace of earlier failures.
pub proof fn law_a_failure_keeps_what_is_served(
    status: WorktreeTaskStatus<Seq<char>>,
    generation_id: String,
    now_ms: i64,
    error: Seq<char>,
)
    ensures
        ({
            let failed = status_after_cycle(status, generation_id@, now_ms, Some(error));
            &&& failed.last_generation_id == status.last_generation_id
            &&& failed.last_success_ms == status.last_success_ms
            &&& status.last_generation_id != Some(generation_id@) ==> action_on(
                failed,
                TaskEvent::Published { generation_id: Some(generation_id) },
            ) == TaskAction::Project(generation_id@)
        }),
        ({
            let served = status_after_cycle(status, generation_id@, now_ms, None);
            served.consecutive_failures == 0 && served.last_error is None
        }),
{
}

/// A generation that is not the one served last is served, whichever that was: at once where it
/// is published, and before the task ends where the task is told to stop. Nothing else is ever
/// served, and what is served is what the event names.
pub proof fn law_a_new_generation_is_served(
    status: WorktreeTaskStatus<Seq<char>>,
    id: String,
    event: TaskEvent,
)
    ensures
        status.last_generation_id != Some(id@) ==> action_on(
            status,
            TaskEvent::Stop { last_published: Some(id) },
        ) == TaskAction::ProjectAndEnd(id@),
        status.last_generation_id != Some(id@) ==> action_on(
            status,
            TaskEvent::Published { generation_id: Some(id) },
        ) == TaskAction::Project(id@),
        action_on(status, event) matches TaskAction::Project(served) ==> {
            &&& event matches TaskEvent::Published { generation_id: Some(named) }
            &&& named@ == served
            &&& status.last_generation_id != Some(served)
        },
        action_on(status, event) matches TaskAction::ProjectAndEnd(served) ==> {
            &&& event matches TaskEvent::Stop { last_published: Some(named) }
            &&& named@ == served
            &&& status.last_generation_id != Some(served)
        },
{
}

/// A task ends when it is told to stop, and at no other event; an event that names no
/// generation has nothing served.
pub proof fn law_a_task_ends_when_told(status: WorktreeTaskStatus<Seq<char>>, event: TaskEvent)
    ensures
        event is Stop <==> (action_on(status, event) is End || action_on(
            status,
            event,
        ) is ProjectAndEnd),
        event is ReconcileFailed || event is ChannelClosed ==> action_on(status, event) is Wait,
        event matches TaskEvent::Published { generation_id: None } ==> action_on(
            status,
            event,
        ) is Wait,
        event matches TaskEvent::Stop { last_published: None } ==> action_on(status, event) is End,
{
}

/// A failed reconcile is told by the status, with its count and its error, and touches nothing
/// else. No other event touches the status at all.
pub proof fn law_a_failed_reconcile_is_told(
    status: WorktreeTaskStatus<Seq<char>>,
    event: TaskEvent,
)
    ensures
        event !is ReconcileFailed ==> status_on(status, event) == status,
        event matches TaskEvent::ReconcileFailed { consecutive_failures, last_error } ==> {
            let after = status_on(status, event);
            &&& after.consecutive_failures == consecutive_failures
            &&& after.last_error == Some(last_error@)
            &&& after.last_generation_id == status.last_generation_id
            &&& after.last_success_ms == status.last_success_ms
            &&& after.in_progress_since == status.in_progress_since
        },
{
}

/// A start that meets no failure builds its runtime, loads its metadata, starts its watcher and
/// runs, in this order and in no fewer stages.
pub proof fn law_a_start_runs_through_its_stages(
    first: StageResult,
    second: StageResult,
    third: StageResult,
)
    requires
        first is Done,
        second is Done,
        third is Done,
    ensures
        after_stage(StartStage::BuildRuntime, first) == Ok::<
            StartStage,
            WorktreeTaskStartError<Seq<char>>,
        >(StartStage::LoadMeta),
        after_stage(StartStage::LoadMeta, second) == Ok::<
            StartStage,
            WorktreeTaskStartError<Seq<char>>,
        >(StartStage::StartWatcher),
        after_stage(StartStage::StartWatcher, third) == Ok::<
            StartStage,
            WorktreeTaskStartError<Seq<char>>,
        >(StartStage::Running),
{
}

/// A stage that fails ends the start, and the error says which stage it was and what went
/// wrong. A worktree that vanished ends it when its metadata is loaded.
pub proof fn law_a_failed_stage_ends_the_start(stage: StartStage, e: String)
    ensures
        stage !is Running ==> (after_stage(stage, StageResult::Failed(e)) matches Err(error) && (
        match error {
            WorktreeTaskStartError::Runtime(cause) => stage is BuildRuntime && cause == e@,
            WorktreeTaskStartError::Meta(cause) => stage is LoadMeta && cause == e@,
            WorktreeTaskStartError::Watcher(cause) => stage is StartWatcher && cause == e@,
            _ => false,
        })),
        after_stage(StartStage::LoadMeta, StageResult::Vanished) matches Err(error)
            && error is WorktreeVanished,
{
}

/// A cycle starts exactly where the generation has an id and the models are there. One that
/// starts shows since when it runs; one that does not says why, and shows nothing new as served
/// or running. An id that is none counts as one more failure, and a missing model as none.
pub proof fn law_a_cycle_starts_or_says_why(
    status: WorktreeTaskStatus<Seq<char>>,
    generation_id: Seq<char>,
    is_id: bool,
    models_ready: bool,
    now_ms: i64,
)
    requires
        status.consecutive_failures < u32::MAX,
    ensures
        ({
            let after = status_after_begin(status, generation_id, is_id, models_ready, now_ms);
            let skip = cycle_skip(is_id, models_ready);
            &&& skip is None <==> is_id && models_ready
            &&& !is_id ==> skip == Some(CycleSkip::NotAnId)
            &&& is_id && !models_ready ==> skip == Some(CycleSkip::ModelMissing)
            &&& after.last_generation_id == status.last_generation_id
            &&& after.last_success_ms == status.last_success_ms
            &&& is_id && models_ready ==> after.in_progress_since == Some(now_ms)
                && after.last_error == status.last_error
            &&& !(is_id && models_ready) ==> after.in_progress_since == status.in_progress_since
                && after.last_error is Some
            &&& after.consecutive_failures == status.consecutive_failures + (if is_id {
                0int
            } else {
                1int
            })
        }),
{
}

/// A cycle that served its generation leaves it as the one served last, with the time at which
/// the cycle started and no trace of failures. One that failed counts one failure more and says
/// what went wrong. What is stored says the same as the status.
pub proof fn law_a_cycle_is_recorded(
    status: WorktreeTaskStatus<Seq<char>>,
    generation_id: Seq<char>,
    started_ms: i64,
    error: Option<Seq<char>>,
)
    requires
        status.consecutive_failures < u32::MAX,
    ensures
        ({
            let after = status_after_cycle(status, generation_id, started_ms, error);
            let stored = stored_outcome(status, generation_id, started_ms, error);
            &&& after.in_progress_since is None
            &&& after.last_error == error
            &&& error is None ==> {
                &&& after.last_generation_id == Some(generation_id)
                &&& after.last_success_ms == Some(started_ms)
                &&& after.consecutive_failures == 0
                &&& stored.success == Some(generation_id)
            }
            &&& error is Some ==> {
                &&& after.last_generation_id == status.last_generation_id
                &&& after.last_success_ms == status.last_success_ms
                &&& after.consecutive_failures == status.consecutive_failures + 1
                &&& stored.success is None
            }
            &&& stored.attempt_at == started_ms
            &&& stored.consecutive_failures == after.consecutive_failures
            &&& stored.last_error == after.last_error
        }),
{
}

/// How long a cycle took is the time between its start and its end, as far as that can be
/// written down, and nothing but the sign is lost where it cannot.
pub proof fn law_a_duration_is_the_time_between(started_ms: i64, finished_ms: i64)
    ensures
        i64::MIN <= finished_ms - started_ms <= i64::MAX ==> duration(started_ms, finished_ms)
            == finished_ms - started_ms,
        finished_ms >= started_ms <==> duration(started_ms, finished_ms) >= 0,
        finished_ms - started_ms > i64::MAX ==> duration(started_ms, finished_ms) == i64::MAX,
        finished_ms - started_ms < i64::MIN ==> duration(started_ms, finished_ms) == i64::MIN,
{
}

/// A skipped cycle is never silent: an id that is none is an error, and a missing model a
/// warning, and either names the generation.
pub proof fn law_a_skipped_cycle_is_reported(
    skip: CycleSkip,
    worktree_id: Seq<char>,
    generation_id: Seq<char>,
)
    ensures
        ({
            let line = skip_line(skip, worktree_id, generation_id);
            &&& line is Error <==> skip is NotAnId
            &&& line is Warning <==> skip is ModelMissing
            &&& line matches Report::Error(text) ==> ends_with(text, generation_id)
            &&& line matches Report::Warning(text) ==> ends_with(text, generation_id)
        }),
{
    let line = skip_line(skip, worktree_id, generation_id);
    let text = match line {
        Report::Error(text) => text,
        Report::Warning(text) => text,
        Report::Info(text) => text,
    };
    assert(text.skip(text.len() - generation_id.len()) =~= generation_id);
}

/// Whether `text` ends with `tail`.
pub open spec fn ends_with(text: Seq<char>, tail: Seq<char>) -> bool {
    text.len() >= tail.len() && text.skip(text.len() - tail.len()) == tail
}

/// A stage of a cycle that went well is not reported. Of one that did not, storing the outcome
/// and folding the log back are warned of, and serving the generation is reported elsewhere.
pub proof fn law_only_a_failed_stage_is_reported(
    stage: CycleStage,
    worktree_id: Seq<char>,
    error: Option<Seq<char>>,
)
    ensures
        stage_report(stage, worktree_id, error) is Some <==> error is Some && (stage is Persisting
            || stage is Checkpointing),
        stage_report(stage, worktree_id, error) matches Some(line) ==> (line matches Report::Warning(
            text,
        ) && ends_with(text, error->Some_0)),
{
    if stage_report(stage, worktree_id, error) is Some {
        let e = error->Some_0;
        let text = stage_report(stage, worktree_id, error)->Some_0->Warning_0;
        assert(text.skip(text.len() - e.len()) =~= e);
    }
}

/// The daemon does not count as idle while a cycle runs: it holds a reconcile job from the first
/// stage to the end, and none after that.
pub proof fn law_a_cycle_holds_a_job(stage: CycleStage)
    ensures
        stage !is Ended ==> stage_job(stage) == Some(JobKind::Reconcile),
        stage is Ended ==> stage_job(stage) is None,
        stage is Ended ==> stage_after(stage) is Ended,
{
}

/// What is said of a start that failed names the stage, and ends with the cause.
pub proof fn law_a_start_error_says_why(cause: Seq<char>)
    ensures
        start_error_text(WorktreeTaskStartError::Meta(cause))
            == "could not load worktree metadata: "@ + cause,
        start_error_text(WorktreeTaskStartError::Watcher(cause))
            == "could not start the filesystem watcher: "@ + cause,
        start_error_text(WorktreeTaskStartError::Runtime(cause))
            == "could not build the worktree task's runtime: "@ + cause,
        start_error_text(WorktreeTaskStartError::WorktreeVanished)
            == "the worktree vanished from the registry"@,
        start_error_text(WorktreeTaskStartError::ThreadPanicked)
            == "the worktree task's background thread panicked during startup"@,
{
}

/// A cycle serves, then stores, then folds the log back, and then it has ended.
pub proof fn law_a_cycle_goes_stage_by_stage(stage: CycleStage)
    ensures
        stage is Projecting ==> stage_after(stage) is Persisting,
        stage is Persisting ==> stage_after(stage) is Checkpointing,
        stage is Checkpointing ==> stage_after(stage) is Ended,
{
}

/// A start is told as its thread reported it, and a thread that reported nothing panicked.
pub proof fn law_a_silent_thread_has_panicked<T>(
    report: Option<Result<T, WorktreeTaskStartError>>,
    r: Result<T, WorktreeTaskStartError>,
)
    requires
        is_told(report, r),
    ensures
        report is Some ==> report == Some(r),
        report is None ==> (r matches Err(e) && e is ThreadPanicked),
{
}

/// A cycle is reported as failed exactly where it left an error, and the report names the worktree
/// and the generation, counts the failures and ends with the reason.
pub proof fn law_a_failed_cycle_says_why(
    last_error: Option<Seq<char>>,
    consecutive_failures: u32,
    worktree_id: Seq<char>,
    generation_id: Seq<char>,
    duration_ms: i64,
)
    ensures
        ({
            let told = failure_told(
                last_error,
                consecutive_failures,
                worktree_id,
                generation_id,
                duration_ms,
            );
            &&& told is Some <==> last_error is Some
            &&& last_error matches Some(e) ==> told == Some(
                Report::Warning(
                    "indexing cycle failed worktree_id="@ + worktree_id + " generation_id="@
                        + generation_id + " consecutive_failures="@ + crate::text::decimal(
                        consecutive_failures as int,
                    ) + " duration_ms="@ + crate::text::decimal(duration_ms as int) + " reason="@
                        + e,
                ),
            )
        }),
{
}

/// A task that has done nothing has served nothing, failed at nothing and is doing nothing, so
/// whatever is published first is new to it.
pub proof fn law_a_fresh_task_serves_whatever_comes(id: String)
    ensures
        fresh_status().last_generation_id is None && fresh_status().last_success_ms is None,
        fresh_status().consecutive_failures == 0 && fresh_status().last_error is None,
        fresh_status().in_progress_since is None,
        action_on(fresh_status(), TaskEvent::Published { generation_id: Some(id) }) == (
        TaskAction::Project(id@)),
{
}

/// Once a task runs no late result of a stage takes it back, and a worktree that vanished is
/// noticed only when its metadata is loaded.
pub proof fn law_a_running_task_keeps_running(result: StageResult)
    ensures
        after_stage(StartStage::Running, result) == Ok::<
            StartStage,
            WorktreeTaskStartError<Seq<char>>,
        >(StartStage::Running),
        after_stage(StartStage::BuildRuntime, StageResult::Vanished) is Ok,
        after_stage(StartStage::StartWatcher, StageResult::Vanished) is Ok,
        after_stage(StartStage::LoadMeta, StageResult::Vanished) matches Err(e)
            && e is WorktreeVanished,
{
}

} // verus!
