//! Starting the daemon, waiting for a reason to stop, and stopping it.

use vstd::prelude::*;

use crate::idle::{idle_eligible, IdleGateInputs};
use crate::lock::StoreLockError;
use crate::mode::{migration_only_reason, DaemonMode, MigrationError};
use crate::report::Report;
use crate::text::{concat2, concat4};

verus! {

/// Why the daemon is not up at all.
#[derive(Debug, PartialEq, Eq)]
#[non_exhaustive]
pub enum DaemonStartupError<S = String> {
    /// The directories of the store could not be prepared.
    Path(S),
    /// The store is not ours.
    Lock(StoreLockError<S>),
    /// The state could not be opened, and not because of its migrations.
    State(S),
    /// The identity of the store could not be seeded.
    StoreInstanceUuid(S),
    /// The cache could not be opened.
    Cache(S),
    /// The endpoint could not be bound.
    Bind(S),
    /// The record could not be marked as ready.
    MarkReady(S),
}

impl View for DaemonStartupError<String> {
    type V = DaemonStartupError<Seq<char>>;

    open spec fn view(&self) -> DaemonStartupError<Seq<char>> {
        match *self {
            DaemonStartupError::Path(e) => DaemonStartupError::Path(e@),
            DaemonStartupError::Lock(e) => DaemonStartupError::Lock(e@),
            DaemonStartupError::State(e) => DaemonStartupError::State(e@),
            DaemonStartupError::StoreInstanceUuid(e) => DaemonStartupError::StoreInstanceUuid(e@),
            DaemonStartupError::Cache(e) => DaemonStartupError::Cache(e@),
            DaemonStartupError::Bind(e) => DaemonStartupError::Bind(e@),
            DaemonStartupError::MarkReady(e) => DaemonStartupError::MarkReady(e@),
        }
    }
}

/// What is said of a [`DaemonStartupError`].
pub open spec fn startup_error_text(e: DaemonStartupError<Seq<char>>) -> Seq<char> {
    match e {
        DaemonStartupError::Path(e) => "could not prepare the store directory tree: "@ + e,
        DaemonStartupError::Lock(e) => crate::lock::lock_error_text(e),
        DaemonStartupError::State(e) => "could not open state.sqlite: "@ + e,
        DaemonStartupError::StoreInstanceUuid(e) => "could not seed store_instance_uuid: "@ + e,
        DaemonStartupError::Cache(e) => "could not open cache.sqlite: "@ + e,
        DaemonStartupError::Bind(e) => "could not bind the daemon socket: "@ + e,
        DaemonStartupError::MarkReady(e) => "could not write the store.lock readiness marker: "@
            + e,
    }
}

impl DaemonStartupError<String> {
    /// What went wrong, in words.
    pub fn message(&self) -> (r: String)
        ensures
            r@ == startup_error_text(self@),
    {
        match self {
            DaemonStartupError::Path(e) => concat2(
                "could not prepare the store directory tree: ",
                e.as_str(),
            ),
            DaemonStartupError::Lock(e) => e.message(),
            DaemonStartupError::State(e) => concat2("could not open state.sqlite: ", e.as_str()),
            DaemonStartupError::StoreInstanceUuid(e) => concat2(
                "could not seed store_instance_uuid: ",
                e.as_str(),
            ),
            DaemonStartupError::Cache(e) => concat2("could not open cache.sqlite: ", e.as_str()),
            DaemonStartupError::Bind(e) => concat2(
                "could not bind the daemon socket: ",
                e.as_str(),
            ),
            DaemonStartupError::MarkReady(e) => concat2(
                "could not write the store.lock readiness marker: ",
                e.as_str(),
            ),
        }
    }
}

/// What is being done to bring the daemon up.
#[derive(Debug, Clone, Copy, PartialEq, Eq, Structural)]
pub enum StartStep {
    /// Prepare the directories of the store.
    Prepare,
    /// Take the store lock.
    Lock,
    /// Open the state, which runs its migrations.
    OpenState,
    /// Seed the identity of the store, or read it.
    SeedStoreUuid,
    /// Open the cache for that identity.
    OpenCache,
    /// Bind the endpoint.
    Bind,
    /// Mark the record of the lock as ready.
    MarkReady,
}

/// Why the state is not open.
#[derive(Debug, PartialEq, Eq)]
pub enum StateOpenError {
    /// Its migrations did not run.
    Migration(MigrationError),
    Other(String),
}

/// How a step went.
#[derive(Debug, PartialEq, Eq)]
pub enum StartEvent {
    Prepared(Result<(), String>),
    Locked(Result<(), StoreLockError>),
    StateOpened(Result<(), StateOpenError>),
    StoreUuidSeeded(Result<(), String>),
    CacheOpened(Result<(), String>),
    Bound(Result<(), String>),
    MarkedReady(Result<(), String>),
}

/// How far the start has come.
#[derive(Debug, PartialEq, Eq)]
pub enum Startup<S = String> {
    /// A step is being done, for the mode that is going to be served.
    Doing { step: StartStep, mode: DaemonMode<S> },
    /// The daemon is up, and serves in a mode.
    Ready { mode: DaemonMode<S> },
    /// The daemon is not up.
    Failed(DaemonStartupError<S>),
}

impl View for Startup<String> {
    type V = Startup<Seq<char>>;

    open spec fn view(&self) -> Startup<Seq<char>> {
        match *self {
            Startup::Doing { step, mode } => Startup::Doing { step, mode: mode@ },
            Startup::Ready { mode } => Startup::Ready { mode: mode@ },
            Startup::Failed(e) => Startup::Failed(e@),
        }
    }
}

/// Whether `event` tells how `step` went.
pub open spec fn tells_of(event: StartEvent, step: StartStep) -> bool {
    match step {
        StartStep::Prepare => event is Prepared,
        StartStep::Lock => event is Locked,
        StartStep::OpenState => event is StateOpened,
        StartStep::SeedStoreUuid => event is StoreUuidSeeded,
        StartStep::OpenCache => event is CacheOpened,
        StartStep::Bind => event is Bound,
        StartStep::MarkReady => event is MarkedReady,
    }
}

/// How far the start is after `event`. A store whose migrations do not run has no state
/// and no cache, and is still served, confined to migrations. Any other failure leaves
/// nothing behind. An event that tells of another step changes nothing.
pub open spec fn startup_step(startup: Startup<Seq<char>>, event: StartEvent) -> Startup<
    Seq<char>,
> {
    match startup {
        Startup::Doing { step, mode } => if !tells_of(event, step) {
            startup
        } else {
            match event {
                StartEvent::Prepared(Ok(_)) => Startup::Doing { step: StartStep::Lock, mode },
                StartEvent::Prepared(Err(e)) => Startup::Failed(DaemonStartupError::Path(e@)),
                StartEvent::Locked(Ok(_)) => Startup::Doing { step: StartStep::OpenState, mode },
                StartEvent::Locked(Err(e)) => Startup::Failed(DaemonStartupError::Lock(e@)),
                StartEvent::StateOpened(Ok(_)) => Startup::Doing {
                    step: StartStep::SeedStoreUuid,
                    mode,
                },
                StartEvent::StateOpened(Err(StateOpenError::Migration(e))) => Startup::Doing {
                    step: StartStep::Bind,
                    mode: DaemonMode::MigrationOnly { reason: crate::mode::reason_of(e) },
                },
                StartEvent::StateOpened(Err(StateOpenError::Other(e))) => Startup::Failed(
                    DaemonStartupError::State(e@),
                ),
                StartEvent::StoreUuidSeeded(Ok(_)) => Startup::Doing {
                    step: StartStep::OpenCache,
                    mode,
                },
                StartEvent::StoreUuidSeeded(Err(e)) => Startup::Failed(
                    DaemonStartupError::StoreInstanceUuid(e@),
                ),
                StartEvent::CacheOpened(Ok(_)) => Startup::Doing { step: StartStep::Bind, mode },
                StartEvent::CacheOpened(Err(e)) => Startup::Failed(DaemonStartupError::Cache(e@)),
                StartEvent::Bound(Ok(_)) => Startup::Doing { step: StartStep::MarkReady, mode },
                StartEvent::Bound(Err(e)) => Startup::Failed(DaemonStartupError::Bind(e@)),
                StartEvent::MarkedReady(Ok(_)) => Startup::Ready { mode },
                StartEvent::MarkedReady(Err(e)) => Startup::Failed(
                    DaemonStartupError::MarkReady(e@),
                ),
            }
        },
        _ => startup,
    }
}

/// How far a start is after `events`.
pub open spec fn startup_after(events: Seq<StartEvent>) -> Startup<Seq<char>>
    decreases events.len(),
{
    if events.len() == 0 {
        Startup::Doing { step: StartStep::Prepare, mode: DaemonMode::Normal }
    } else {
        startup_step(startup_after(events.drop_last()), events.last())
    }
}

impl Startup<String> {
    /// A start of which nothing is done.
    pub fn new() -> (r: Self)
        ensures
            r@ == startup_after(Seq::empty()),
    {
        Startup::Doing { step: StartStep::Prepare, mode: DaemonMode::Normal }
    }

    /// Takes the start one event further.
    pub fn on_event(self, event: StartEvent) -> (r: Self)
        ensures
            r@ == startup_step(self@, event),
    {
        match self {
            Startup::Doing { step, mode } => {
                match (step, event) {
                    (StartStep::Prepare, StartEvent::Prepared(done)) => match done {
                        Ok(_) => Startup::Doing { step: StartStep::Lock, mode },
                        Err(e) => Startup::Failed(DaemonStartupError::Path(e)),
                    },
                    (StartStep::Lock, StartEvent::Locked(done)) => match done {
                        Ok(_) => Startup::Doing { step: StartStep::OpenState, mode },
                        Err(e) => Startup::Failed(DaemonStartupError::Lock(e)),
                    },
                    (StartStep::OpenState, StartEvent::StateOpened(done)) => match done {
                        Ok(_) => Startup::Doing { step: StartStep::SeedStoreUuid, mode },
                        Err(StateOpenError::Migration(e)) => Startup::Doing {
                            step: StartStep::Bind,
                            mode: DaemonMode::MigrationOnly { reason: migration_only_reason(&e) },
                        },
                        Err(StateOpenError::Other(e)) => Startup::Failed(
                            DaemonStartupError::State(e),
                        ),
                    },
                    (StartStep::SeedStoreUuid, StartEvent::StoreUuidSeeded(done)) => match done {
                        Ok(_) => Startup::Doing { step: StartStep::OpenCache, mode },
                        Err(e) => Startup::Failed(DaemonStartupError::StoreInstanceUuid(e)),
                    },
                    (StartStep::OpenCache, StartEvent::CacheOpened(done)) => match done {
                        Ok(_) => Startup::Doing { step: StartStep::Bind, mode },
                        Err(e) => Startup::Failed(DaemonStartupError::Cache(e)),
                    },
                    (StartStep::Bind, StartEvent::Bound(done)) => match done {
                        Ok(_) => Startup::Doing { step: StartStep::MarkReady, mode },
                        Err(e) => Startup::Failed(DaemonStartupError::Bind(e)),
                    },
                    (StartStep::MarkReady, StartEvent::MarkedReady(done)) => match done {
                        Ok(_) => Startup::Ready { mode },
                        Err(e) => Startup::Failed(DaemonStartupError::MarkReady(e)),
                    },
                    (step, _) => Startup::Doing { step, mode },
                }
            },
            done => done,
        }
    }
}

/// The steps in the order in which they are done.
pub open spec fn rank(step: StartStep) -> int {
    match step {
        StartStep::Prepare => 0,
        StartStep::Lock => 1,
        StartStep::OpenState => 2,
        StartStep::SeedStoreUuid => 3,
        StartStep::OpenCache => 4,
        StartStep::Bind => 5,
        StartStep::MarkReady => 6,
    }
}

/// Whether the start has come past `step`.
pub open spec fn past(startup: Startup<Seq<char>>, step: StartStep) -> bool {
    match startup {
        Startup::Doing { step: now, mode } => rank(now) > rank(step),
        Startup::Ready { .. } => true,
        Startup::Failed(_) => false,
    }
}

/// The mode a start is going to serve in, or serves in.
pub open spec fn served_mode(startup: Startup<Seq<char>>) -> DaemonMode<Seq<char>> {
    match startup {
        Startup::Doing { step, mode } => mode,
        Startup::Ready { mode } => mode,
        Startup::Failed(_) => DaemonMode::Normal,
    }
}

/// Whether one of `events` tells that `step` was done.
pub open spec fn was_done(events: Seq<StartEvent>, step: StartStep) -> bool {
    exists|i: int| 0 <= i < events.len() && done(#[trigger] events[i], step)
}

/// Whether `event` tells that `step` was done.
pub open spec fn done(event: StartEvent, step: StartStep) -> bool {
    match event {
        StartEvent::Prepared(r) => step is Prepare && r is Ok,
        StartEvent::Locked(r) => step is Lock && r is Ok,
        StartEvent::StateOpened(r) => step is OpenState && r is Ok,
        StartEvent::StoreUuidSeeded(r) => step is SeedStoreUuid && r is Ok,
        StartEvent::CacheOpened(r) => step is OpenCache && r is Ok,
        StartEvent::Bound(r) => step is Bind && r is Ok,
        StartEvent::MarkedReady(r) => step is MarkReady && r is Ok,
    }
}

/// The steps are done in their order. No step is passed before it was done, so that nothing
/// is opened without the lock and nothing is ready that is not bound. A daemon that is
/// confined to migrations has passed over its state and its cache, and over nothing else.
pub proof fn law_no_step_is_skipped(events: Seq<StartEvent>, step: StartStep)
    requires
        past(startup_after(events), step),
    ensures
        was_done(events, step) || (served_mode(startup_after(events)) is MigrationOnly && (
        step is OpenState || step is SeedStoreUuid || step is OpenCache)),
    decreases events.len(),
{
    if events.len() > 0 {
        let before = events.drop_last();
        let last = events.len() - 1;
        if past(startup_after(before), step) {
            law_no_step_is_skipped(before, step);
            if was_done(before, step) {
                let i = choose|i: int| 0 <= i < before.len() && done(#[trigger] before[i], step);
                assert(done(events[i], step));
            }
        } else {
            assert(events[last] == events.last());
            assert(startup_after(events) == startup_step(startup_after(before), events.last()));
        }
    }
}

/// A daemon that is ready, or has failed, stays so.
pub proof fn law_a_start_ends_once(startup: Startup<Seq<char>>, event: StartEvent)
    ensures
        !(startup is Doing) ==> startup_step(startup, event) == startup,
{
}

/// A store whose migrations do not run is still served: the endpoint is bound and marked as
/// ready, and the mode says why.
pub proof fn law_a_failed_migration_is_served(
    prepared: Result<(), String>,
    locked: Result<(), StoreLockError>,
    e: MigrationError,
    bound: Result<(), String>,
    ready: Result<(), String>,
)
    requires
        prepared is Ok,
        locked is Ok,
        bound is Ok,
        ready is Ok,
    ensures
        startup_after(
            Seq::<StartEvent>::empty().push(StartEvent::Prepared(prepared)).push(
                StartEvent::Locked(locked),
            ).push(StartEvent::StateOpened(Err(StateOpenError::Migration(e)))).push(
                StartEvent::Bound(bound),
            ).push(StartEvent::MarkedReady(ready)),
        ) == (Startup::<Seq<char>>::Ready {
            mode: DaemonMode::MigrationOnly { reason: crate::mode::reason_of(e) },
        }),
{
    let e0 = Seq::<StartEvent>::empty();
    let e1 = e0.push(StartEvent::Prepared(prepared));
    let e2 = e1.push(StartEvent::Locked(locked));
    let e3 = e2.push(StartEvent::StateOpened(Err(StateOpenError::Migration(e))));
    let e4 = e3.push(StartEvent::Bound(bound));
    let e5 = e4.push(StartEvent::MarkedReady(ready));
    assert(e1.drop_last() =~= e0);
    assert(e2.drop_last() =~= e1);
    assert(e3.drop_last() =~= e2);
    assert(e4.drop_last() =~= e3);
    assert(e5.drop_last() =~= e4);
    assert(startup_after(e1) == startup_step(startup_after(e0), e1.last()));
    assert(startup_after(e2) == startup_step(startup_after(e1), e2.last()));
    assert(startup_after(e3) == startup_step(startup_after(e2), e3.last()));
    assert(startup_after(e4) == startup_step(startup_after(e3), e4.last()));
}

/// What runs in the background of a daemon that is ready.
#[derive(Debug, Clone, Copy, PartialEq, Eq, Structural)]
pub struct Background {
    /// Code is searched and memory is read.
    pub tools: bool,
    /// Worktrees are indexed.
    pub indexing_supervisor: bool,
    /// Spooled events are imported once.
    pub spool_resume: bool,
    /// Interrupted consolidation runs are taken up once.
    pub consolidation_resume: bool,
    /// Sessions are consolidated from time to time.
    pub consolidation_trigger: bool,
}

/// What runs in the background in a mode. All of it needs the state and the cache, so
/// nothing does where there are none.
pub open spec fn background_of(mode: DaemonMode<Seq<char>>) -> Background {
    let usable = mode is Normal;
    Background {
        tools: usable,
        indexing_supervisor: usable,
        spool_resume: usable,
        consolidation_resume: usable,
        consolidation_trigger: usable,
    }
}

/// What runs in the background in a mode.
pub fn background(mode: &DaemonMode) -> (r: Background)
    ensures
        r == background_of(mode@),
{
    let usable = match mode {
        DaemonMode::Normal => true,
        DaemonMode::MigrationOnly { .. } => false,
    };
    Background {
        tools: usable,
        indexing_supervisor: usable,
        spool_resume: usable,
        consolidation_resume: usable,
        consolidation_trigger: usable,
    }
}

/// The facts the idle decision looks at. `pending_spool_bytes` is what the store said, if
/// it could be asked: one that could not say counts as having some. Where there is no store
/// nothing is imported, so nothing is pending.
pub open spec fn gate_inputs(
    has_store: bool,
    pending_spool_bytes: Option<bool>,
    live_sessions: usize,
    running_jobs: usize,
) -> IdleGateInputs {
    IdleGateInputs {
        live_sessions,
        pending_spool_bytes: has_store && (pending_spool_bytes matches Some(pending) ==> pending),
        running_jobs,
    }
}

/// The facts the idle decision looks at.
pub fn idle_inputs(
    has_store: bool,
    pending_spool_bytes: Option<bool>,
    live_sessions: usize,
    running_jobs: usize,
) -> (r: IdleGateInputs)
    ensures
        r == gate_inputs(has_store, pending_spool_bytes, live_sessions, running_jobs),
{
    let pending = match pending_spool_bytes {
        Some(pending) => pending,
        None => true,
    };
    IdleGateInputs { live_sessions, pending_spool_bytes: has_store && pending, running_jobs }
}

/// What is done to stop the daemon.
#[derive(Debug, Clone, Copy, PartialEq, Eq, Structural)]
pub enum StopStep {
    /// Wait for one of the passes that were started with the daemon.
    JoinResume(usize),
    /// Tell the consolidation worker to stop.
    StopTrigger,
    /// Wait for the consolidation worker.
    JoinTrigger,
    /// Stop the indexing supervisor, and everything it runs.
    StopSupervisor,
    /// Accept no more connections. The ones that are open stay.
    StopAccepting,
    /// Drain the store, close it, and let go of the lock.
    Drain,
}

/// The passes to wait for, from `from` on.
pub open spec fn joins(from: int, resumes: int) -> Seq<StopStep>
    decreases resumes - from,
{
    if from < resumes {
        seq![StopStep::JoinResume(from as usize)] + joins(from + 1, resumes)
    } else {
        Seq::empty()
    }
}

/// How the daemon is stopped: first whatever still writes, then the door, then the store.
pub open spec fn stopping(resumes: int, trigger: bool, supervisor: bool, accepting: bool) -> Seq<
    StopStep,
> {
    let writers = joins(0, resumes) + (if trigger {
        Seq::empty().push(StopStep::StopTrigger).push(StopStep::JoinTrigger)
    } else {
        Seq::empty()
    }) + (if supervisor {
        Seq::empty().push(StopStep::StopSupervisor)
    } else {
        Seq::empty()
    });
    (if accepting {
        writers.push(StopStep::StopAccepting)
    } else {
        writers
    }).push(StopStep::Drain)
}

proof fn lemma_joins(from: int, resumes: int)
    requires
        0 <= from <= resumes,
        resumes <= usize::MAX,
    ensures
        joins(from, resumes) == Seq::new(
            (resumes - from) as nat,
            |i: int| StopStep::JoinResume((from + i) as usize),
        ),
    decreases resumes - from,
{
    if from < resumes {
        lemma_joins(from + 1, resumes);
    }
    assert(joins(from, resumes) =~= Seq::new(
        (resumes - from) as nat,
        |i: int| StopStep::JoinResume((from + i) as usize),
    ));
}

/// How the daemon is stopped, from what it runs.
pub fn shutdown(resumes: usize, trigger: bool, supervisor: bool, accepting: bool) -> (r: Vec<
    StopStep,
>)
    ensures
        r@ == stopping(resumes as int, trigger, supervisor, accepting),
{
    let mut steps: Vec<StopStep> = Vec::new();
    let mut i: usize = 0;
    while i < resumes
        invariant
            i <= resumes,
            steps@ == Seq::new(i as nat, |j: int| StopStep::JoinResume(j as usize)),
        decreases resumes - i,
    {
        steps.push(StopStep::JoinResume(i));
        i = i + 1;
        proof {
            assert(steps@ =~= Seq::new(i as nat, |j: int| StopStep::JoinResume(j as usize)));
        }
    }
    proof {
        lemma_joins(0, resumes as int);
        assert(steps@ =~= joins(0, resumes as int));
    }
    if trigger {
        steps.push(StopStep::StopTrigger);
        steps.push(StopStep::JoinTrigger);
    }
    if supervisor {
        steps.push(StopStep::StopSupervisor);
    }
    if accepting {
        steps.push(StopStep::StopAccepting);
    }
    steps.push(StopStep::Drain);
    proof {
        assert(steps@ =~= stopping(resumes as int, trigger, supervisor, accepting));
    }
    steps
}

/// The store is drained last, and once: whatever the daemon ran has stopped by then.
pub proof fn law_the_store_is_drained_last(
    resumes: int,
    trigger: bool,
    supervisor: bool,
    accepting: bool,
)
    requires
        0 <= resumes <= usize::MAX,
    ensures
        ({
            let steps = stopping(resumes, trigger, supervisor, accepting);
            &&& steps.last() is Drain
            &&& forall|i: int| 0 <= i < steps.len() - 1 ==> !(#[trigger] steps[i] is Drain)
            &&& forall|n: usize| n < resumes ==> steps.contains(StopStep::JoinResume(n))
            &&& trigger ==> steps.contains(StopStep::JoinTrigger)
            &&& supervisor ==> steps.contains(StopStep::StopSupervisor)
            &&& accepting ==> steps.contains(StopStep::StopAccepting)
        }),
{
    let steps = stopping(resumes, trigger, supervisor, accepting);
    lemma_joins(0, resumes);
    assert forall|n: usize| n < resumes implies steps.contains(StopStep::JoinResume(n)) by {
        assert(joins(0, resumes)[n as int] == StopStep::JoinResume(n));
        assert(steps[n as int] == StopStep::JoinResume(n));
    }
    let a = resumes;
    let b = if trigger {
        a + 2
    } else {
        a
    };
    let c = if supervisor {
        b + 1
    } else {
        b
    };
    if trigger {
        assert(steps[a + 1] == StopStep::JoinTrigger);
    }
    if supervisor {
        assert(steps[b] == StopStep::StopSupervisor);
    }
    if accepting {
        assert(steps[c] == StopStep::StopAccepting);
    }
}

/// How a task in the background ended.
#[derive(Debug, PartialEq, Eq)]
pub enum TaskEnd {
    Finished,
    Cancelled,
    Panicked { message: String },
}

/// What is reported of a task that ended: only that it panicked.
pub open spec fn panic_line(label: Seq<char>, end: TaskEnd) -> Option<Seq<char>> {
    match end {
        TaskEnd::Panicked { message } => Some(
            "local-rag: "@ + label + " panicked: "@ + message@,
        ),
        _ => None,
    }
}

/// What is reported of a task that ended: only that it panicked.
pub fn log_if_task_panicked(label: &str, end: &TaskEnd) -> (r: Option<String>)
    ensures
        r.deep_view() == panic_line(label@, *end),
{
    match end {
        TaskEnd::Panicked { message } => Some(
            concat4("local-rag: ", label, " panicked: ", message.as_str()),
        ),
        _ => None,
    }
}

/// How the import of a spooled session ended.
#[derive(Debug, PartialEq, Eq)]
pub enum SpoolImport {
    /// The import ended, held up by what `stalled_on` says, if anything.
    Imported { stalled_on: Option<String> },
    Failed { message: String },
}

/// What is reported of a spooled session: that it stalled, or that its import failed.
pub open spec fn spool_report_line(session_id: Seq<char>, import: SpoolImport) -> Option<
    Report<Seq<char>>,
> {
    match import {
        SpoolImport::Imported { stalled_on: None } => None,
        SpoolImport::Imported { stalled_on: Some(reason) } => Some(
            Report::Warning(
                "local-rag: spool session "@ + session_id + " stalled on import: "@ + reason@,
            ),
        ),
        SpoolImport::Failed { message } => Some(
            Report::Error(
                "local-rag: spool session "@ + session_id + " failed to import: "@ + message@,
            ),
        ),
    }
}

/// What is reported of a spooled session.
pub fn spool_report(session_id: &str, import: &SpoolImport) -> (r: Option<Report>)
    ensures
        match r {
            Some(report) => spool_report_line(session_id@, *import) == Some(report@),
            None => spool_report_line(session_id@, *import) is None,
        },
{
    match import {
        SpoolImport::Imported { stalled_on } => match stalled_on {
            None => None,
            Some(reason) => Some(
                Report::Warning(
                    concat4(
                        "local-rag: spool session ",
                        session_id,
                        " stalled on import: ",
                        reason.as_str(),
                    ),
                ),
            ),
        },
        SpoolImport::Failed { message } => Some(
            Report::Error(
                concat4(
                    "local-rag: spool session ",
                    session_id,
                    " failed to import: ",
                    message.as_str(),
                ),
            ),
        ),
    }
}

/// Why the daemon stops.
#[derive(Debug, Clone, Copy, PartialEq, Eq, Structural)]
pub enum ShutdownReason {
    /// It was told to by the operating system.
    Signal,
    /// It was idle without a break for as long as it should be.
    Idle,
    /// A client asked it to make way for another version.
    UpgradeRequested,
}

/// What happens while the daemon waits for a reason to stop.
#[derive(Debug, Clone, Copy, PartialEq, Eq, Structural)]
pub enum WaitEvent {
    Signalled,
    ShutdownRequested,
    /// A look at whether it is idle now, at a time in milliseconds.
    Tick { inputs: IdleGateInputs, now_ms: u64 },
}

/// Since when the daemon has been idle without a break, in milliseconds.
#[derive(Debug, Clone, Copy, PartialEq, Eq, Structural)]
pub struct IdleWatch {
    pub since: Option<u64>,
}

/// Whether these facts allow the daemon to be idle.
pub open spec fn idle_now(inputs: IdleGateInputs) -> bool {
    inputs.live_sessions == 0 && !inputs.pending_spool_bytes && inputs.running_jobs == 0
}

/// The watch after an event.
pub open spec fn watch_step(watch: IdleWatch, event: WaitEvent) -> IdleWatch {
    match event {
        WaitEvent::Tick { inputs, now_ms } => if idle_now(inputs) {
            IdleWatch {
                since: match watch.since {
                    Some(since) => Some(since),
                    None => Some(now_ms),
                },
            }
        } else {
            IdleWatch { since: None }
        },
        _ => watch,
    }
}

/// The reason to stop that an event gives, if it gives one.
pub open spec fn stop_reason(
    watch: IdleWatch,
    event: WaitEvent,
    idle_shutdown_secs: u64,
) -> Option<ShutdownReason> {
    match event {
        WaitEvent::Signalled => Some(ShutdownReason::Signal),
        WaitEvent::ShutdownRequested => Some(ShutdownReason::UpgradeRequested),
        WaitEvent::Tick { inputs, now_ms } => match watch_step(watch, event).since {
            Some(since) => if elapsed(since, now_ms) >= idle_shutdown_secs * 1000 {
                Some(ShutdownReason::Idle)
            } else {
                None
            },
            None => None,
        },
    }
}

/// The time from `since` to `now`, none if the clock went back.
pub open spec fn elapsed(since: u64, now: u64) -> int {
    if now > since {
        now - since
    } else {
        0
    }
}

impl IdleWatch {
    /// A watch that has seen nothing.
    pub fn new() -> (r: Self)
        ensures
            r.since is None,
    {
        IdleWatch { since: None }
    }

    /// Takes the wait one event further. `Some` ends it.
    pub fn on_event(&mut self, event: WaitEvent, idle_shutdown_secs: u64) -> (r: Option<
        ShutdownReason,
    >)
        ensures
            *final(self) == watch_step(*old(self), event),
            r == stop_reason(*old(self), event, idle_shutdown_secs),
    {
        match event {
            WaitEvent::Signalled => Some(ShutdownReason::Signal),
            WaitEvent::ShutdownRequested => Some(ShutdownReason::UpgradeRequested),
            WaitEvent::Tick { inputs, now_ms } => {
                if !idle_eligible(&inputs) {
                    self.since = None;
                    return None;
                }
                let since: u64 = match self.since {
                    Some(since) => since,
                    None => now_ms,
                };
                self.since = Some(since);
                let elapsed: u64 = if now_ms > since {
                    now_ms - since
                } else {
                    0
                };
                if elapsed as u128 >= idle_shutdown_secs as u128 * 1000 {
                    Some(ShutdownReason::Idle)
                } else {
                    None
                }
            },
        }
    }
}

/// The watch after `events`.
pub open spec fn watch_after(events: Seq<WaitEvent>) -> IdleWatch
    decreases events.len(),
{
    if events.len() == 0 {
        IdleWatch { since: None }
    } else {
        watch_step(watch_after(events.drop_last()), events.last())
    }
}

/// Whether `event` is no look that found the daemon busy.
pub open spec fn not_busy(event: WaitEvent) -> bool {
    event matches WaitEvent::Tick { inputs, now_ms } ==> idle_now(inputs)
}

/// Since when the daemon has been idle is the time of a look after which no look found it
/// busy.
pub proof fn law_idle_is_unbroken(events: Seq<WaitEvent>)
    ensures
        watch_after(events).since matches Some(since) ==> exists|k: int|
            {
                &&& 0 <= k < events.len()
                &&& #[trigger] events[k] matches WaitEvent::Tick { inputs, now_ms } && now_ms
                    == since
                &&& forall|j: int| k <= j < events.len() ==> not_busy(#[trigger] events[j])
            },
    decreases events.len(),
{
    if events.len() > 0 {
        let before = events.drop_last();
        let last = events.len() - 1;
        law_idle_is_unbroken(before);
        assert(events[last] == events.last());
        assert forall|j: int| 0 <= j < last implies #[trigger] before[j] == events[j] by {}
        if watch_after(events).since is Some && watch_after(before).since is Some {
            let since = watch_after(before).since->Some_0;
            let k = choose|k: int|
                {
                    &&& 0 <= k < before.len()
                    &&& #[trigger] before[k] matches WaitEvent::Tick { inputs, now_ms } && now_ms
                        == since
                    &&& forall|j: int| k <= j < before.len() ==> not_busy(#[trigger] before[j])
                };
            assert(before[k] == events[k]);
            assert forall|j: int| k <= j < events.len() implies not_busy(#[trigger] events[j]) by {
                if j < last {
                    assert(not_busy(before[j]));
                }
            }
        }
    }
}

/// A daemon that stops for being idle was found idle for as long as it should be.
pub proof fn law_idle_lasts_long_enough(
    events: Seq<WaitEvent>,
    event: WaitEvent,
    idle_shutdown_secs: u64,
)
    requires
        stop_reason(watch_after(events), event, idle_shutdown_secs) == Some(ShutdownReason::Idle),
    ensures
        event is Tick,
        idle_now(event->inputs),
        watch_after(events.push(event)).since matches Some(since) && elapsed(since, event->now_ms)
            >= idle_shutdown_secs * 1000,
{
    assert(events.push(event).drop_last() =~= events);
}

/// A start in which everything goes well does its seven steps in their order, and the daemon
/// then serves as it normally does.
pub proof fn law_a_good_start_serves_normally(
    mode: DaemonMode<Seq<char>>,
    locked: Result<(), StoreLockError>,
    opened: Result<(), StateOpenError>,
    good: Result<(), String>,
)
    requires
        locked is Ok,
        opened is Ok,
        good is Ok,
    ensures
        startup_after(Seq::empty()) == (Startup::Doing {
            step: StartStep::Prepare,
            mode: DaemonMode::<Seq<char>>::Normal,
        }),
        startup_step(
            Startup::Doing { step: StartStep::Prepare, mode },
            StartEvent::Prepared(good),
        ) == (Startup::Doing { step: StartStep::Lock, mode }),
        startup_step(
            Startup::Doing { step: StartStep::Lock, mode },
            StartEvent::Locked(locked),
        ) == (Startup::Doing { step: StartStep::OpenState, mode }),
        startup_step(
            Startup::Doing { step: StartStep::OpenState, mode },
            StartEvent::StateOpened(opened),
        ) == (Startup::Doing { step: StartStep::SeedStoreUuid, mode }),
        startup_step(
            Startup::Doing { step: StartStep::SeedStoreUuid, mode },
            StartEvent::StoreUuidSeeded(good),
        ) == (Startup::Doing { step: StartStep::OpenCache, mode }),
        startup_step(
            Startup::Doing { step: StartStep::OpenCache, mode },
            StartEvent::CacheOpened(good),
        ) == (Startup::Doing { step: StartStep::Bind, mode }),
        startup_step(
            Startup::Doing { step: StartStep::Bind, mode },
            StartEvent::Bound(good),
        ) == (Startup::Doing { step: StartStep::MarkReady, mode }),
        startup_step(
            Startup::Doing { step: StartStep::MarkReady, mode },
            StartEvent::MarkedReady(good),
        ) == (Startup::Ready { mode }),
{
}

/// A step that fails ends the start, and the error says which step it was, with the cause. The
/// one exception is a migration that does not run: the daemon is then bound, to say so.
pub proof fn law_a_failed_step_ends_the_start(
    mode: DaemonMode<Seq<char>>,
    e: String,
    lock: StoreLockError,
    migration: MigrationError,
)
    ensures
        startup_step(
            Startup::Doing { step: StartStep::Prepare, mode },
            StartEvent::Prepared(Err(e)),
        ) == (Startup::Failed(DaemonStartupError::Path(e@))),
        startup_step(
            Startup::Doing { step: StartStep::Lock, mode },
            StartEvent::Locked(Err(lock)),
        ) == (Startup::Failed(DaemonStartupError::Lock(lock@))),
        startup_step(
            Startup::Doing { step: StartStep::OpenState, mode },
            StartEvent::StateOpened(Err(StateOpenError::Other(e))),
        ) == (Startup::Failed(DaemonStartupError::State(e@))),
        startup_step(
            Startup::Doing { step: StartStep::OpenState, mode },
            StartEvent::StateOpened(Err(StateOpenError::Migration(migration))),
        ) == (Startup::Doing {
            step: StartStep::Bind,
            mode: DaemonMode::MigrationOnly { reason: crate::mode::reason_of(migration) },
        }),
        startup_step(
            Startup::Doing { step: StartStep::SeedStoreUuid, mode },
            StartEvent::StoreUuidSeeded(Err(e)),
        ) == (Startup::Failed(DaemonStartupError::StoreInstanceUuid(e@))),
        startup_step(
            Startup::Doing { step: StartStep::OpenCache, mode },
            StartEvent::CacheOpened(Err(e)),
        ) == (Startup::Failed(DaemonStartupError::Cache(e@))),
        startup_step(
            Startup::Doing { step: StartStep::Bind, mode },
            StartEvent::Bound(Err(e)),
        ) == (Startup::Failed(DaemonStartupError::Bind(e@))),
        startup_step(
            Startup::Doing { step: StartStep::MarkReady, mode },
            StartEvent::MarkedReady(Err(e)),
        ) == (Startup::Failed(DaemonStartupError::MarkReady(e@))),
{
}

/// What is said of a start that failed names the step, and ends with the cause.
pub proof fn law_a_startup_error_says_why(e: Seq<char>, lock: StoreLockError<Seq<char>>)
    ensures
        startup_error_text(DaemonStartupError::Path(e))
            == "could not prepare the store directory tree: "@ + e,
        startup_error_text(DaemonStartupError::Lock(lock)) == crate::lock::lock_error_text(lock),
        startup_error_text(DaemonStartupError::State(e)) == "could not open state.sqlite: "@ + e,
        startup_error_text(DaemonStartupError::StoreInstanceUuid(e))
            == "could not seed store_instance_uuid: "@ + e,
        startup_error_text(DaemonStartupError::Cache(e)) == "could not open cache.sqlite: "@ + e,
        startup_error_text(DaemonStartupError::Bind(e)) == "could not bind the daemon socket: "@
            + e,
        startup_error_text(DaemonStartupError::MarkReady(e))
            == "could not write the store.lock readiness marker: "@ + e,
{
}

/// Everything runs in the background of a daemon that serves normally, and nothing in that of
/// one that is confined to migrations.
pub proof fn law_everything_runs_or_nothing(mode: DaemonMode<Seq<char>>)
    ensures
        ({
            let runs = background_of(mode);
            &&& runs.tools <==> mode is Normal
            &&& runs.indexing_supervisor <==> mode is Normal
            &&& runs.spool_resume <==> mode is Normal
            &&& runs.consolidation_resume <==> mode is Normal
            &&& runs.consolidation_trigger <==> mode is Normal
        }),
{
}

/// A store that cannot say whether something is pending counts as having it, and no store has
/// nothing. The other facts are what was counted.
pub proof fn law_what_is_unknown_keeps_the_daemon_up(
    pending: Option<bool>,
    live_sessions: usize,
    running_jobs: usize,
)
    ensures
        gate_inputs(true, None, live_sessions, running_jobs).pending_spool_bytes,
        gate_inputs(true, Some(true), live_sessions, running_jobs).pending_spool_bytes,
        !gate_inputs(true, Some(false), live_sessions, running_jobs).pending_spool_bytes,
        !gate_inputs(false, pending, live_sessions, running_jobs).pending_spool_bytes,
        gate_inputs(true, pending, live_sessions, running_jobs).live_sessions == live_sessions,
        gate_inputs(false, pending, live_sessions, running_jobs).live_sessions == live_sessions,
        gate_inputs(true, pending, live_sessions, running_jobs).running_jobs == running_jobs,
        gate_inputs(false, pending, live_sessions, running_jobs).running_jobs == running_jobs,
{
}

/// The daemon is stopped in one order: first the passes that were started with it, from the
/// first to the last, then the consolidation worker, which is told before it is waited for, then
/// the supervisor, then the door, and last the store. Nothing is stopped that does not run.
pub proof fn law_the_daemon_stops_in_order(
    resumes: int,
    trigger: bool,
    supervisor: bool,
    accepting: bool,
)
    requires
        0 <= resumes <= usize::MAX,
    ensures
        ({
            let steps = stopping(resumes, trigger, supervisor, accepting);
            let worker = if trigger {
                2int
            } else {
                0
            };
            let indexing = if supervisor {
                1int
            } else {
                0
            };
            let door = if accepting {
                1int
            } else {
                0
            };
            &&& steps.len() == resumes + worker + indexing + door + 1
            &&& forall|i: int|
                0 <= i < resumes ==> #[trigger] steps[i] == StopStep::JoinResume(i as usize)
            &&& trigger ==> steps[resumes] is StopTrigger && steps[resumes + 1] is JoinTrigger
            &&& supervisor ==> steps[resumes + worker] is StopSupervisor
            &&& accepting ==> steps[resumes + worker + indexing] is StopAccepting
            &&& steps[resumes + worker + indexing + door] is Drain
        }),
{
    lemma_joins(0, resumes);
    let steps = stopping(resumes, trigger, supervisor, accepting);
    assert forall|i: int| 0 <= i < resumes implies #[trigger] steps[i] == StopStep::JoinResume(
        i as usize,
    ) by {
        assert(joins(0, resumes)[i] == StopStep::JoinResume(i as usize));
    }
}

/// Only a panic is reported of a task that ended, with what it said. Of a spooled session it is
/// warned where it stalled, and an error where it failed, with the reason, and nothing otherwise.
pub proof fn law_only_trouble_is_reported(
    label: Seq<char>,
    end: TaskEnd,
    session_id: Seq<char>,
    import: SpoolImport,
)
    ensures
        end is Panicked <==> panic_line(label, end) is Some,
        end matches TaskEnd::Panicked { message } ==> (panic_line(label, end)->Some_0).skip(
            (panic_line(label, end)->Some_0).len() - message@.len(),
        ) == message@,
        import matches SpoolImport::Imported { stalled_on } ==> (stalled_on is None
            <==> spool_report_line(session_id, import) is None),
        import matches SpoolImport::Imported { stalled_on } ==> (stalled_on matches Some(reason)
            ==> spool_report_line(session_id, import) == Some(
            Report::Warning(
                "local-rag: spool session "@ + session_id + " stalled on import: "@ + reason@,
            ),
        )),
        import matches SpoolImport::Failed { message } ==> spool_report_line(session_id, import)
            == Some(
            Report::Error(
                "local-rag: spool session "@ + session_id + " failed to import: "@ + message@,
            ),
        ),
{
    if let TaskEnd::Panicked { message } = end {
        let line = panic_line(label, end)->Some_0;
        assert(line.skip(line.len() - message@.len()) =~= message@);
    }
}

/// The daemon stops at once where it is told to, and where a client asks it to make way. It
/// stops for being idle exactly at a look that finds nobody connected, nothing pending and
/// nothing running, where the first such look after the last other one is long enough ago.
pub proof fn law_why_the_daemon_stops(
    watch: IdleWatch,
    inputs: IdleGateInputs,
    now_ms: u64,
    idle_shutdown_secs: u64,
)
    ensures
        stop_reason(watch, WaitEvent::Signalled, idle_shutdown_secs) == Some(
            ShutdownReason::Signal,
        ),
        stop_reason(watch, WaitEvent::ShutdownRequested, idle_shutdown_secs) == Some(
            ShutdownReason::UpgradeRequested,
        ),
        ({
            let look = WaitEvent::Tick { inputs, now_ms };
            let idle = inputs.live_sessions == 0 && !inputs.pending_spool_bytes
                && inputs.running_jobs == 0;
            let stop = stop_reason(watch, look, idle_shutdown_secs);
            &&& !idle ==> stop is None && watch_step(watch, look).since is None
            &&& idle ==> (watch.since matches Some(since) ==> {
                &&& watch_step(watch, look).since == Some(since)
                &&& now_ms - since >= idle_shutdown_secs * 1000 ==> stop == Some(
                    ShutdownReason::Idle,
                )
                &&& now_ms - since < idle_shutdown_secs * 1000 && idle_shutdown_secs > 0 ==> stop
                    is None
            })
            &&& idle && watch.since is None ==> watch_step(watch, look).since == Some(now_ms) && (
            stop == Some(ShutdownReason::Idle) <==> idle_shutdown_secs == 0)
            &&& stop is None || stop == Some(ShutdownReason::Idle)
        }),
{
}

/// The steps of a start are ranked one after the other.
pub proof fn law_the_steps_of_a_start_follow_one_another()
    ensures
        rank(StartStep::Prepare) == 0,
        rank(StartStep::Prepare) < rank(StartStep::Lock),
        rank(StartStep::Lock) < rank(StartStep::OpenState),
        rank(StartStep::OpenState) < rank(StartStep::SeedStoreUuid),
        rank(StartStep::SeedStoreUuid) < rank(StartStep::OpenCache),
        rank(StartStep::OpenCache) < rank(StartStep::Bind),
        rank(StartStep::Bind) < rank(StartStep::MarkReady),
{
}

/// No time passes while the clock stands or goes back; otherwise as much as it went on.
pub proof fn law_time_does_not_run_back(since: u64, now: u64)
    ensures
        now <= since ==> elapsed(since, now) == 0,
        now >= since ==> since + elapsed(since, now) == now,
{
}

} // verus!
