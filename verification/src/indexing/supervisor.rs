//! Which worktrees have a task: the registry says, and the running tasks are brought to it.

use vstd::prelude::*;

use crate::indexing::worktree_task::WorktreeTaskStatus;
use crate::json::{Json, JsonMap, JsonView};
use crate::report::Report;
use crate::text::{concat2, concat3, concat4, debug_quoted, same};

verus! {

/// How many tasks are started at a time.
pub const MAX_CONCURRENT_STARTUP_RECONCILES: usize = 2;

/// How long a shutdown waits for the tasks that it has cancelled, in milliseconds.
pub const SHUTDOWN_JOIN_BUDGET_MS: u64 = 3_000;

/// How many tasks a reload started and stopped.
#[derive(Debug, Clone, Copy, PartialEq, Eq, Structural)]
pub struct ReloadOutcome {
    pub started: usize,
    pub stopped: usize,
}

impl Default for ReloadOutcome {
    fn default() -> (r: Self)
        ensures
            r == (ReloadOutcome { started: 0, stopped: 0 }),
    {
        ReloadOutcome { started: 0, stopped: 0 }
    }
}

/// A worktree of the registry.
#[derive(Debug, PartialEq, Eq)]
pub struct ManagedWorktree {
    pub worktree_id: String,
    pub enabled: bool,
    pub registered_at: i64,
    pub updated_at: i64,
}

/// A worktree of the registry with the status of its task, where one runs.
#[derive(Debug, Clone, PartialEq, Eq)]
pub struct ProjectStatus {
    pub worktree_id: String,
    pub enabled: bool,
    pub registered_at: i64,
    pub updated_at: i64,
    pub task: Option<WorktreeTaskStatus>,
}

/// Why a worktree cannot be reconciled on demand.
#[derive(Debug, Clone, Copy, PartialEq, Eq, Structural)]
pub enum ReconcileNowError {
    NotManaged,
}

impl ReconcileNowError {
    /// The error in words.
    pub fn message(&self) -> (r: &'static str)
        ensures
            r@ == "worktree is not managed (or has no task running)"@,
    {
        "worktree is not managed (or has no task running)"
    }
}

/// Whether `ids` holds `id`.
pub open spec fn holds(ids: Seq<String>, id: Seq<char>) -> bool {
    exists|i: int| 0 <= i < ids.len() && (#[trigger] ids[i])@ == id
}

/// Whether the registry wants a task for `id`.
pub open spec fn wants(rows: Seq<ManagedWorktree>, id: Seq<char>) -> bool {
    exists|i: int|
        0 <= i < rows.len() && (#[trigger] rows[i]).enabled && rows[i].worktree_id@ == id
}

fn contains_id(ids: &Vec<String>, id: &str) -> (r: bool)
    ensures
        r == holds(ids@, id@),
{
    let mut i: usize = 0;
    while i < ids.len()
        invariant
            i <= ids.len(),
            forall|j: int| 0 <= j < i ==> (#[trigger] ids@[j])@ != id@,
        decreases ids.len() - i,
    {
        if same(ids[i].as_str(), id) {
            proof {
                assert(ids@[i as int]@ == id@);
            }
            return true;
        }
        i = i + 1;
    }
    false
}

fn wants_id(rows: &Vec<ManagedWorktree>, id: &str) -> (r: bool)
    ensures
        r == wants(rows@, id@),
{
    let mut i: usize = 0;
    while i < rows.len()
        invariant
            i <= rows.len(),
            forall|j: int|
                0 <= j < i ==> !((#[trigger] rows@[j]).enabled && rows@[j].worktree_id@ == id@),
        decreases rows.len() - i,
    {
        if rows[i].enabled && same(rows[i].worktree_id.as_str(), id) {
            proof {
                assert(rows@[i as int].enabled && rows@[i as int].worktree_id@ == id@);
            }
            return true;
        }
        i = i + 1;
    }
    false
}

/// Which tasks to stop and which to start.
#[derive(Debug, PartialEq, Eq)]
pub struct ReloadPlan {
    pub stale: Vec<String>,
    pub missing: Vec<String>,
}

/// `plan` brings the running tasks to what the registry wants: it stops exactly the running
/// tasks that are not wanted, and starts exactly the wanted ones that do not run, each once.
pub open spec fn plans(
    rows: Seq<ManagedWorktree>,
    live: Seq<String>,
    stale: Seq<String>,
    missing: Seq<String>,
) -> bool {
    &&& forall|id: Seq<char>|
        #![trigger holds(stale, id)]
        holds(stale, id) <==> holds(live, id) && !wants(rows, id)
    &&& forall|id: Seq<char>|
        #![trigger holds(missing, id)]
        holds(missing, id) <==> wants(rows, id) && !holds(live, id)
    &&& distinct(missing)
    &&& distinct(live) ==> distinct(stale)
}

/// No id stands twice.
pub open spec fn distinct(ids: Seq<String>) -> bool {
    forall|i: int, j: int|
        0 <= i < j < ids.len() ==> (#[trigger] ids[i])@ != (#[trigger] ids[j])@
}

proof fn lemma_holds_push(ids: Seq<String>, new: String, id: Seq<char>)
    ensures
        holds(ids.push(new), id) <==> holds(ids, id) || new@ == id,
{
    if holds(ids, id) {
        let i = choose|i: int| 0 <= i < ids.len() && (#[trigger] ids[i])@ == id;
        assert(ids.push(new)[i]@ == id);
    }
    if new@ == id {
        assert(ids.push(new)[ids.len() as int]@ == id);
    }
    if holds(ids.push(new), id) {
        let i = choose|i: int|
            0 <= i < ids.push(new).len() && (#[trigger] ids.push(new)[i])@ == id;
        if i < ids.len() {
            assert(ids[i]@ == id);
        }
    }
}

fn find_stale(rows: &Vec<ManagedWorktree>, live: &Vec<String>) -> (stale: Vec<String>)
    ensures
        forall|id: Seq<char>|
            #![trigger holds(stale@, id)]
            holds(stale@, id) <==> holds(live@, id) && !wants(rows@, id),
        distinct(live@) ==> distinct(stale@),
{
    let mut stale: Vec<String> = Vec::new();
    let mut i: usize = 0;
    while i < live.len()
        invariant
            i <= live.len(),
            distinct(live@) ==> distinct(stale@),
            forall|id: Seq<char>|
                #![trigger holds(stale@, id)]
                holds(stale@, id) <==> holds(live@.take(i as int), id) && !wants(rows@, id),
        decreases live.len() - i,
    {
        let ghost before = stale@;
        if !wants_id(rows, live[i].as_str()) {
            stale.push(live[i].clone());
            proof {
                if distinct(live@) {
                    assert forall|a: int, b: int| 0 <= a < b < stale@.len() implies (
                    #[trigger] stale@[a])@ != (#[trigger] stale@[b])@ by {
                        assert(before[a]@ == stale@[a]@);
                        if b == before.len() {
                            let id = before[a]@;
                            assert(holds(before, id));
                            let k = choose|k: int|
                                0 <= k < i && (#[trigger] live@.take(i as int)[k])@ == id;
                            assert(live@[k]@ != live@[i as int]@);
                        } else {
                            assert(before[b]@ == stale@[b]@);
                        }
                    }
                }
            }
        }
        proof {
            assert(live@.take(i + 1) =~= live@.take(i as int).push(live@[i as int]));
            assert forall|id: Seq<char>| #![trigger holds(stale@, id)] holds(stale@, id)
                <==> holds(live@.take(i + 1), id) && !wants(rows@, id) by {
                lemma_holds_push(live@.take(i as int), live@[i as int], id);
                lemma_holds_push(before, live@[i as int], id);
                assert(holds(before, id) <==> holds(live@.take(i as int), id) && !wants(rows@, id));
            }
        }
        i = i + 1;
    }
    proof {
        assert(live@.take(i as int) =~= live@);
    }
    stale
}

fn find_missing(rows: &Vec<ManagedWorktree>, live: &Vec<String>) -> (missing: Vec<String>)
    ensures
        forall|id: Seq<char>|
            #![trigger holds(missing@, id)]
            holds(missing@, id) <==> wants(rows@, id) && !holds(live@, id),
        distinct(missing@),
{
    let mut missing: Vec<String> = Vec::new();
    let mut i: usize = 0;
    while i < rows.len()
        invariant
            i <= rows.len(),
            distinct(missing@),
            forall|id: Seq<char>|
                #![trigger holds(missing@, id)]
                holds(missing@, id) <==> wants(rows@.take(i as int), id) && !holds(live@, id),
        decreases rows.len() - i,
    {
        let ghost before = missing@;
        let ghost row = rows@[i as int];
        if rows[i].enabled && !contains_id(live, rows[i].worktree_id.as_str()) && !contains_id(
            &missing,
            rows[i].worktree_id.as_str(),
        ) {
            missing.push(rows[i].worktree_id.clone());
            proof {
                assert forall|a: int, b: int| 0 <= a < b < missing@.len() implies (
                #[trigger] missing@[a])@ != (#[trigger] missing@[b])@ by {
                    if b == before.len() {
                        assert(before[a]@ == missing@[a]@);
                    }
                }
            }
        }
        proof {
            let seen = rows@.take(i as int);
            let next = rows@.take(i + 1);
            assert forall|id: Seq<char>| #![trigger holds(missing@, id)] holds(missing@, id)
                <==> wants(next, id) && !holds(live@, id) by {
                lemma_holds_push(before, row.worktree_id, id);
                assert(holds(before, id) <==> wants(seen, id) && !holds(live@, id));
                if wants(seen, id) {
                    let k = choose|k: int|
                        0 <= k < seen.len() && (#[trigger] seen[k]).enabled
                            && seen[k].worktree_id@ == id;
                    assert(next[k].enabled && next[k].worktree_id@ == id);
                }
                if row.enabled && row.worktree_id@ == id {
                    assert(next[i as int].enabled && next[i as int].worktree_id@ == id);
                }
                if wants(next, id) {
                    let k = choose|k: int|
                        0 <= k < next.len() && (#[trigger] next[k]).enabled
                            && next[k].worktree_id@ == id;
                    if k < i {
                        assert(seen[k].enabled && seen[k].worktree_id@ == id);
                    }
                }
            }
        }
        i = i + 1;
    }
    proof {
        assert(rows@.take(i as int) =~= rows@);
    }
    missing
}

/// Plans a reload.
pub fn plan_reload(rows: &Vec<ManagedWorktree>, live: &Vec<String>) -> (r: ReloadPlan)
    ensures
        plans(rows@, live@, r.stale@, r.missing@),
{
    ReloadPlan { stale: find_stale(rows, live), missing: find_missing(rows, live) }
}

/// Once the running tasks are those that the registry wants, a reload does nothing.
pub proof fn law_a_second_reload_does_nothing(
    rows: Seq<ManagedWorktree>,
    live: Seq<String>,
    stale: Seq<String>,
    missing: Seq<String>,
)
    requires
        plans(rows, live, stale, missing),
        forall|id: Seq<char>| #![trigger wants(rows, id)] holds(live, id) <==> wants(rows, id),
    ensures
        stale.len() == 0,
        missing.len() == 0,
{
    if stale.len() > 0 {
        let id = stale[0]@;
        assert(holds(stale, id));
        assert(wants(rows, id) <==> holds(live, id));
    }
    if missing.len() > 0 {
        let id = missing[0]@;
        assert(holds(missing, id));
        assert(wants(rows, id) <==> holds(live, id));
    }
}

/// Stopping what is stale and starting what is missing leaves exactly what is wanted.
pub proof fn law_a_reload_reaches_the_registry(
    rows: Seq<ManagedWorktree>,
    live: Seq<String>,
    stale: Seq<String>,
    missing: Seq<String>,
    id: Seq<char>,
)
    requires
        plans(rows, live, stale, missing),
    ensures
        (holds(live, id) && !holds(stale, id)) || holds(missing, id) <==> wants(rows, id),
{
    assert(holds(stale, id) <==> holds(live, id) && !wants(rows, id));
    assert(holds(missing, id) <==> wants(rows, id) && !holds(live, id));
}

/// The ids to start next, of those from `from` on: as many as are started at a time.
pub open spec fn batch(missing: Seq<String>, from: int) -> Seq<String> {
    if from + MAX_CONCURRENT_STARTUP_RECONCILES <= missing.len() {
        missing.subrange(from, from + MAX_CONCURRENT_STARTUP_RECONCILES)
    } else {
        missing.skip(from)
    }
}

/// Where the batch after the one at `from` starts.
pub fn batch_end(missing: &Vec<String>, from: usize) -> (r: usize)
    requires
        from <= missing.len(),
    ensures
        r == from + batch(missing@, from as int).len(),
        r <= missing.len(),
        from < missing.len() ==> from < r <= from + MAX_CONCURRENT_STARTUP_RECONCILES,
{
    if missing.len() - from >= MAX_CONCURRENT_STARTUP_RECONCILES {
        from + MAX_CONCURRENT_STARTUP_RECONCILES
    } else {
        missing.len()
    }
}

/// How starting a task went.
#[derive(Debug, PartialEq, Eq)]
pub enum StartResult {
    Started,
    /// The registry's id is none.
    NotAnId,
    /// The task could not start.
    Failed(String),
    /// The call that starts it panicked.
    Panicked(String),
}

/// A worktree whose task was to be started, and how that went.
#[derive(Debug, PartialEq, Eq)]
pub struct Start {
    pub worktree_id: String,
    pub result: StartResult,
}

/// What is reported of a start: that it failed, and how.
pub open spec fn start_report(start: Start) -> Option<Report<Seq<char>>> {
    match start.result {
        StartResult::Started => None,
        StartResult::NotAnId => Some(
            Report::Error(
                "local-rag: indexing supervisor: managed_worktree row "@ + crate::text::debug_text(
                    start.worktree_id@,
                ) + " is not a valid worktree id"@,
            ),
        ),
        StartResult::Failed(e) => Some(
            Report::Error(
                "local-rag: indexing supervisor could not start task for worktree "@
                    + start.worktree_id@ + ": "@ + e@,
            ),
        ),
        StartResult::Panicked(e) => Some(
            Report::Error(
                "local-rag: indexing supervisor's start call for worktree "@ + start.worktree_id@
                    + " panicked: "@ + e@,
            ),
        ),
    }
}

/// How many of `starts` went well.
pub open spec fn started_count(starts: Seq<Start>) -> nat
    decreases starts.len(),
{
    if starts.len() == 0 {
        0
    } else {
        started_count(starts.drop_last()) + if starts.last().result is Started {
            1nat
        } else {
            0
        }
    }
}

/// What is reported of `starts`, in their order.
pub open spec fn start_reports(starts: Seq<Start>) -> Seq<Report<Seq<char>>>
    decreases starts.len(),
{
    if starts.len() == 0 {
        Seq::empty()
    } else {
        let before = start_reports(starts.drop_last());
        match start_report(starts.last()) {
            Some(line) => before.push(line),
            None => before,
        }
    }
}

fn report_start(start: &Start) -> (r: Option<Report>)
    ensures
        match r {
            Some(report) => start_report(*start) == Some(report@),
            None => start_report(*start) is None,
        },
{
    match &start.result {
        StartResult::Started => None,
        StartResult::NotAnId => Some(
            Report::Error(
                concat3(
                    "local-rag: indexing supervisor: managed_worktree row ",
                    debug_quoted(start.worktree_id.as_str()).as_str(),
                    " is not a valid worktree id",
                ),
            ),
        ),
        StartResult::Failed(e) => Some(
            Report::Error(
                concat4(
                    "local-rag: indexing supervisor could not start task for worktree ",
                    start.worktree_id.as_str(),
                    ": ",
                    e.as_str(),
                ),
            ),
        ),
        StartResult::Panicked(e) => Some(
            Report::Error(
                concat4(
                    "local-rag: indexing supervisor's start call for worktree ",
                    start.worktree_id.as_str(),
                    " panicked: ",
                    e.as_str(),
                ),
            ),
        ),
    }
}

/// The outcome of a reload that stopped `stopped` tasks and tried `starts`, and what is
/// reported of it. A task that could not start does not count, and keeps no other from
/// starting.
pub fn reload_outcome(stopped: usize, starts: &Vec<Start>) -> (r: (ReloadOutcome, Vec<Report>))
    ensures
        r.0.stopped == stopped,
        r.0.started == started_count(starts@),
        crate::report::report_lines(r.1@) == start_reports(starts@),
{
    let mut started: usize = 0;
    let mut lines: Vec<Report> = Vec::new();
    let mut i: usize = 0;
    proof {
        assert(crate::report::report_lines(lines@) =~= Seq::empty());
    }
    while i < starts.len()
        invariant
            i <= starts@.len(),
            started <= i,
            started == started_count(starts@.take(i as int)),
            crate::report::report_lines(lines@) == start_reports(starts@.take(i as int)),
        decreases starts@.len() - i,
    {
        proof {
            assert(starts@.take(i + 1).drop_last() =~= starts@.take(i as int));
            assert(starts@.take(i + 1).last() == starts@[i as int]);
        }
        let ghost before = crate::report::report_lines(lines@);
        if let StartResult::Started = &starts[i].result {
            started = started + 1;
        }
        if let Some(line) = report_start(&starts[i]) {
            lines.push(line);
            proof {
                assert(crate::report::report_lines(lines@) =~= before.push(line@));
            }
        }
        i = i + 1;
    }
    proof {
        assert(starts@.take(i as int) =~= starts@);
    }
    (ReloadOutcome { started, stopped }, lines)
}

/// The outcome of a reload whose registry could not be read, and what is reported of it:
/// every task stays as it is.
pub open spec fn registry_fault(error: Seq<char>) -> (ReloadOutcome, Report<Seq<char>>) {
    (
        ReloadOutcome { started: 0, stopped: 0 },
        Report::Error("local-rag: indexing supervisor could not read managed_worktree: "@ + error),
    )
}

/// The outcome of a reload whose registry could not be read, and what is reported of it.
pub fn unreadable_registry(error: &str) -> (r: (ReloadOutcome, Report))
    ensures
        (r.0, r.1@) == registry_fault(error@),
{
    (
        ReloadOutcome { started: 0, stopped: 0 },
        Report::Error(
            concat2("local-rag: indexing supervisor could not read managed_worktree: ", error),
        ),
    )
}

/// A running task.
#[derive(Debug, PartialEq, Eq)]
pub struct LiveTask {
    pub worktree_id: String,
    pub status: WorktreeTaskStatus,
}

/// The status of the first task of a worktree.
pub open spec fn status_of(live: Seq<LiveTask>, id: Seq<char>) -> Option<
    WorktreeTaskStatus<Seq<char>>,
>
    decreases live.len(),
{
    if live.len() == 0 {
        None
    } else if live[0].worktree_id@ == id {
        Some(live[0].status@)
    } else {
        status_of(live.drop_first(), id)
    }
}

proof fn lemma_status_skip(live: Seq<LiveTask>, id: Seq<char>, i: int)
    requires
        0 <= i <= live.len(),
        forall|j: int| 0 <= j < i ==> (#[trigger] live[j]).worktree_id@ != id,
    ensures
        status_of(live, id) == status_of(live.subrange(i, live.len() as int), id),
    decreases i,
{
    if i == 0 {
        assert(live.subrange(0, live.len() as int) =~= live);
    } else {
        let rest = live.drop_first();
        assert forall|j: int| 0 <= j < i - 1 implies (#[trigger] rest[j]).worktree_id@ != id by {
            assert(rest[j] == live[j + 1]);
        }
        assert(live[0].worktree_id@ != id);
        lemma_status_skip(rest, id, i - 1);
        assert(rest.subrange(i - 1, rest.len() as int) =~= live.subrange(i, live.len() as int));
    }
}

fn task_status(live: &Vec<LiveTask>, id: &str) -> (r: Option<WorktreeTaskStatus>)
    ensures
        status_of(live@, id@) == (match r {
            Some(status) => Some(status@),
            None => None,
        }),
{
    let mut i: usize = 0;
    while i < live.len()
        invariant
            i <= live.len(),
            forall|j: int| 0 <= j < i ==> (#[trigger] live@[j]).worktree_id@ != id@,
        decreases live.len() - i,
    {
        if same(live[i].worktree_id.as_str(), id) {
            proof {
                lemma_status_skip(live@, id@, i as int);
                assert(live@.subrange(i as int, live@.len() as int)[0] == live@[i as int]);
            }
            return Some(live[i].status.clone());
        }
        i = i + 1;
    }
    proof {
        lemma_status_skip(live@, id@, i as int);
    }
    None
}

/// `project` is the row with the status of its task.
pub open spec fn joins(row: ManagedWorktree, live: Seq<LiveTask>, project: ProjectStatus) -> bool {
    &&& project.worktree_id@ == row.worktree_id@
    &&& project.enabled == row.enabled
    &&& project.registered_at == row.registered_at
    &&& project.updated_at == row.updated_at
    &&& status_of(live, row.worktree_id@) == (match project.task {
        Some(status) => Some(status@),
        None => None,
    })
}

/// Every worktree of the registry, in its order, with the status of its task. A registry
/// that cannot be read lists nothing.
pub fn list_projects(rows: Result<Vec<ManagedWorktree>, String>, live: &Vec<LiveTask>) -> (r: Vec<
    ProjectStatus,
>)
    ensures
        match rows {
            Err(_) => r.len() == 0,
            Ok(all) => r.len() == all.len() && forall|i: int|
                0 <= i < all.len() ==> joins(all@[i], live@, #[trigger] r@[i]),
        },
{
    let all = match rows {
        Ok(all) => all,
        Err(_) => {
            return Vec::new();
        },
    };
    let mut out: Vec<ProjectStatus> = Vec::new();
    let mut i: usize = 0;
    while i < all.len()
        invariant
            i <= all.len(),
            out.len() == i,
            forall|j: int| 0 <= j < i ==> joins(all@[j], live@, #[trigger] out@[j]),
        decreases all.len() - i,
    {
        let task = task_status(live, all[i].worktree_id.as_str());
        out.push(
            ProjectStatus {
                worktree_id: all[i].worktree_id.clone(),
                enabled: all[i].enabled,
                registered_at: all[i].registered_at,
                updated_at: all[i].updated_at,
                task,
            },
        );
        i = i + 1;
    }
    out
}

/// Whether a worktree can be reconciled on demand: only where its task runs.
pub open spec fn may_reconcile(live: Seq<LiveTask>, id: Seq<char>) -> bool {
    status_of(live, id) is Some
}

/// Whether a worktree can be reconciled on demand.
pub fn reconcile_now(live: &Vec<LiveTask>, worktree_id: &str) -> (r: Result<(), ReconcileNowError>)
    ensures
        r is Ok <==> may_reconcile(live@, worktree_id@),
{
    match task_status(live, worktree_id) {
        Some(_) => Ok(()),
        None => Err(ReconcileNowError::NotManaged),
    }
}

/// What the supervisor waits for.
#[derive(Debug, PartialEq, Eq)]
pub enum SupervisorEvent {
    Reload,
    ListProjects,
    TriggerNow { worktree_id: String },
    Shutdown,
    /// Nobody can send a command any more.
    CommandsClosed,
    /// It is time to look at the registry again.
    Backstop,
}

/// What the supervisor does.
#[derive(Debug, Clone, Copy, PartialEq, Eq, Structural)]
pub enum SupervisorAction {
    /// Bring the tasks to the registry, and report the outcome where someone asked.
    Reconcile { report: bool },
    /// Report the projects.
    List,
    /// Ask the worktree's task for a reconcile, and report that.
    Trigger,
    /// Report that the worktree is not managed.
    RefuseTrigger,
    /// Stop every task and end, reporting it where someone asked.
    StopAll { report: bool },
}

/// What the supervisor does on an event.
pub open spec fn supervisor_action(event: SupervisorEvent, live: Seq<LiveTask>) -> SupervisorAction {
    match event {
        SupervisorEvent::Reload => SupervisorAction::Reconcile { report: true },
        SupervisorEvent::ListProjects => SupervisorAction::List,
        SupervisorEvent::TriggerNow { worktree_id } => if status_of(live, worktree_id@) is Some {
            SupervisorAction::Trigger
        } else {
            SupervisorAction::RefuseTrigger
        },
        SupervisorEvent::Shutdown => SupervisorAction::StopAll { report: true },
        SupervisorEvent::CommandsClosed => SupervisorAction::StopAll { report: false },
        SupervisorEvent::Backstop => SupervisorAction::Reconcile { report: false },
    }
}

/// What the supervisor does on an event.
pub fn on_event(event: &SupervisorEvent, live: &Vec<LiveTask>) -> (r: SupervisorAction)
    ensures
        r == supervisor_action(*event, live@),
{
    match event {
        SupervisorEvent::Reload => SupervisorAction::Reconcile { report: true },
        SupervisorEvent::ListProjects => SupervisorAction::List,
        SupervisorEvent::TriggerNow { worktree_id } => match reconcile_now(
            live,
            worktree_id.as_str(),
        ) {
            Ok(_) => SupervisorAction::Trigger,
            Err(_) => SupervisorAction::RefuseTrigger,
        },
        SupervisorEvent::Shutdown => SupervisorAction::StopAll { report: true },
        SupervisorEvent::CommandsClosed => SupervisorAction::StopAll { report: false },
        SupervisorEvent::Backstop => SupervisorAction::Reconcile { report: false },
    }
}

/// Whether every task had ended when shutdown stopped waiting.
#[derive(Debug, Clone, Copy, PartialEq, Eq, Structural)]
pub enum WorkersDrained {
    Yes,
    No,
}

/// Whether every task had ended: exactly when the wait did not run out.
pub open spec fn drained_by(wait_ran_out: bool) -> WorkersDrained {
    if wait_ran_out {
        WorkersDrained::No
    } else {
        WorkersDrained::Yes
    }
}

/// Whether every task had ended.
pub fn drained(wait_ran_out: bool) -> (r: WorkersDrained)
    ensures
        r == drained_by(wait_ran_out),
{
    if wait_ran_out {
        WorkersDrained::No
    } else {
        WorkersDrained::Yes
    }
}

/// The status of a task as a value.
pub open spec fn status_value(status: WorktreeTaskStatus<Seq<char>>) -> JsonView {
    JsonView::Obj(
        crate::json::nothing().push(
            (
                "consecutive_failures"@,
                JsonView::integer(status.consecutive_failures as int),
            ),
        ).push(("in_progress_since"@, JsonView::opt_int(status.in_progress_since))).push(
            ("last_error"@, JsonView::opt_text(status.last_error)),
        ).push(("last_generation_id"@, JsonView::opt_text(status.last_generation_id))).push(
            ("last_success_ms"@, JsonView::opt_int(status.last_success_ms)),
        ),
    )
}

fn status_json(status: &WorktreeTaskStatus) -> (r: Json)
    ensures
        r@ == status_value(status@),
{
    JsonMap::new().with(
        "consecutive_failures",
        Json::integer(status.consecutive_failures as i64),
    ).with("in_progress_since", Json::opt_int(status.in_progress_since)).with(
        "last_error",
        Json::opt_string(&status.last_error),
    ).with("last_generation_id", Json::opt_string(&status.last_generation_id)).with(
        "last_success_ms",
        Json::opt_int(status.last_success_ms),
    ).json()
}

/// A project as a value.
pub open spec fn project_value(project: ProjectStatus) -> JsonView {
    JsonView::Obj(
        crate::json::nothing().push(("enabled"@, JsonView::Bool(project.enabled))).push(
            ("registered_at"@, JsonView::integer(project.registered_at as int)),
        ).push(
            (
                "task"@,
                match project.task {
                    Some(status) => status_value(status@),
                    None => JsonView::Null,
                },
            ),
        ).push(("updated_at"@, JsonView::integer(project.updated_at as int))).push(
            ("worktree_id"@, JsonView::Str(project.worktree_id@)),
        ),
    )
}

/// A project as a value.
pub fn project_json(project: &ProjectStatus) -> (r: Json)
    ensures
        r@ == project_value(*project),
{
    broadcast use crate::json::lemma_view;

    let task = match &project.task {
        Some(status) => status_json(status),
        None => Json::Null,
    };
    JsonMap::new().with("enabled", Json::boolean(project.enabled)).with(
        "registered_at",
        Json::integer(project.registered_at),
    ).with("task", task).with("updated_at", Json::integer(project.updated_at)).with(
        "worktree_id",
        Json::string(project.worktree_id.as_str()),
    ).json()
}

/// Every worktree that is registered and switched on gets a task, and keeps the one it has.
pub proof fn law_every_enabled_worktree_has_a_task(
    rows: Seq<ManagedWorktree>,
    live: Seq<String>,
    stale: Seq<String>,
    missing: Seq<String>,
    i: int,
)
    requires
        plans(rows, live, stale, missing),
        0 <= i < rows.len(),
        rows[i].enabled,
    ensures
        forall|k: int| 0 <= k < stale.len() ==> (#[trigger] stale[k])@ != rows[i].worktree_id@,
        (exists|k: int| 0 <= k < live.len() && (#[trigger] live[k])@ == rows[i].worktree_id@) || (
        exists|k: int| 0 <= k < missing.len() && (#[trigger] missing[k])@ == rows[i].worktree_id@),
{
    let id = rows[i].worktree_id@;
    assert(wants(rows, id));
    assert(holds(stale, id) <==> holds(live, id) && !wants(rows, id));
    assert(holds(missing, id) <==> wants(rows, id) && !holds(live, id));
    assert forall|k: int| 0 <= k < stale.len() implies (#[trigger] stale[k])@ != id by {
        if stale[k]@ == id {
            assert(holds(stale, id));
        }
    }
}

/// A worktree that is not registered, or switched off in every row, gets no task, and the task
/// that it has is stopped.
pub proof fn law_no_other_worktree_has_a_task(
    rows: Seq<ManagedWorktree>,
    live: Seq<String>,
    stale: Seq<String>,
    missing: Seq<String>,
    id: Seq<char>,
)
    requires
        plans(rows, live, stale, missing),
        forall|i: int|
            0 <= i < rows.len() && (#[trigger] rows[i]).enabled ==> rows[i].worktree_id@ != id,
    ensures
        forall|k: int| 0 <= k < missing.len() ==> (#[trigger] missing[k])@ != id,
        (exists|k: int| 0 <= k < live.len() && (#[trigger] live[k])@ == id) ==> (exists|k: int|
            0 <= k < stale.len() && (#[trigger] stale[k])@ == id),
{
    assert(!wants(rows, id));
    assert(holds(stale, id) <==> holds(live, id) && !wants(rows, id));
    assert(holds(missing, id) <==> wants(rows, id) && !holds(live, id));
    assert forall|k: int| 0 <= k < missing.len() implies (#[trigger] missing[k])@ != id by {
        if missing[k]@ == id {
            assert(holds(missing, id));
        }
    }
}

/// A reload starts nothing that runs, stops nothing that does not, and starts nothing twice.
pub proof fn law_a_reload_touches_only_what_differs(
    rows: Seq<ManagedWorktree>,
    live: Seq<String>,
    stale: Seq<String>,
    missing: Seq<String>,
    k: int,
)
    requires
        plans(rows, live, stale, missing),
    ensures
        0 <= k < missing.len() ==> forall|j: int|
            0 <= j < live.len() ==> (#[trigger] live[j])@ != missing[k]@,
        0 <= k < missing.len() ==> forall|j: int|
            0 <= j < missing.len() && j != k ==> (#[trigger] missing[j])@ != missing[k]@,
        0 <= k < stale.len() ==> exists|j: int|
            0 <= j < live.len() && (#[trigger] live[j])@ == stale[k]@,
{
    if 0 <= k < missing.len() {
        let id = missing[k]@;
        assert(holds(missing, id));
        assert forall|j: int| 0 <= j < live.len() implies (#[trigger] live[j])@ != id by {
            if live[j]@ == id {
                assert(holds(live, id));
            }
        }
        assert forall|j: int| 0 <= j < missing.len() && j != k implies (#[trigger] missing[j])@
            != id by {
            if j < k {
                assert(missing[j]@ != missing[k]@);
            } else {
                assert(missing[k]@ != missing[j]@);
            }
        }
    }
    if 0 <= k < stale.len() {
        assert(holds(stale, stale[k]@));
    }
}

/// The worktrees to start are started from the first to the last, each in one batch, and never
/// more than two at a time.
pub proof fn law_batches_cover_what_is_missing(missing: Seq<String>, from: int)
    requires
        0 <= from <= missing.len(),
    ensures
        batch(missing, from).len() <= 2,
        from < missing.len() ==> batch(missing, from).len() >= 1,
        missing.take(from) + batch(missing, from) + missing.skip(
            from + batch(missing, from).len(),
        ) == missing,
{
    assert(missing.take(from) + batch(missing, from) + missing.skip(
        from + batch(missing, from).len(),
    ) =~= missing);
}

/// Every task that was to be started counts as started or is reported as an error, and never
/// both.
pub proof fn law_a_start_counts_or_is_reported(starts: Seq<Start>, next: Start)
    ensures
        started_count(starts) + start_reports(starts).len() == starts.len(),
        started_count(starts.push(next)) == started_count(starts) + (if next.result is Started {
            1nat
        } else {
            0nat
        }),
        start_report(next) is None <==> next.result is Started,
        start_report(next) matches Some(line) ==> line is Error,
    decreases starts.len(),
{
    assert(starts.push(next).drop_last() =~= starts);
    if starts.len() > 0 {
        law_a_start_counts_or_is_reported(starts.drop_last(), starts.last());
    }
}

/// A project is its row of the registry as it stands there, with the status of the first task
/// that runs for it, and without one where none does.
pub proof fn law_a_project_is_its_row(
    row: ManagedWorktree,
    live: Seq<LiveTask>,
    project: ProjectStatus,
    k: int,
)
    requires
        joins(row, live, project),
    ensures
        project.worktree_id@ == row.worktree_id@,
        project.enabled == row.enabled,
        project.registered_at == row.registered_at,
        project.updated_at == row.updated_at,
        0 <= k < live.len() && live[k].worktree_id@ == row.worktree_id@ && (forall|j: int|
            0 <= j < k ==> (#[trigger] live[j]).worktree_id@ != row.worktree_id@) ==> (
        project.task matches Some(status) && status@ == live[k].status@),
        (forall|j: int|
            0 <= j < live.len() ==> (#[trigger] live[j]).worktree_id@ != row.worktree_id@)
            ==> project.task is None,
{
    let id = row.worktree_id@;
    if 0 <= k < live.len() && live[k].worktree_id@ == id && (forall|j: int|
        0 <= j < k ==> (#[trigger] live[j]).worktree_id@ != id) {
        lemma_status_skip(live, id, k);
        assert(live.subrange(k, live.len() as int)[0] == live[k]);
    }
    if forall|j: int| 0 <= j < live.len() ==> (#[trigger] live[j]).worktree_id@ != id {
        lemma_status_skip(live, id, live.len() as int);
    }
}

/// A worktree is reconciled on demand exactly where a task runs for it, and refused otherwise.
pub proof fn law_a_trigger_needs_a_task(worktree_id: String, live: Seq<LiveTask>)
    ensures
        ({
            let action = supervisor_action(SupervisorEvent::TriggerNow { worktree_id }, live);
            let runs = exists|i: int|
                0 <= i < live.len() && (#[trigger] live[i]).worktree_id@ == worktree_id@;
            &&& runs ==> action == SupervisorAction::Trigger
            &&& !runs ==> action == SupervisorAction::RefuseTrigger
        }),
{
    lemma_status_found(live, worktree_id@);
}

proof fn lemma_status_found(live: Seq<LiveTask>, id: Seq<char>)
    ensures
        status_of(live, id) is Some <==> exists|i: int|
            0 <= i < live.len() && (#[trigger] live[i]).worktree_id@ == id,
    decreases live.len(),
{
    if live.len() > 0 {
        let rest = live.drop_first();
        lemma_status_found(rest, id);
        if exists|i: int| 0 <= i < rest.len() && (#[trigger] rest[i]).worktree_id@ == id {
            let i = choose|i: int| 0 <= i < rest.len() && (#[trigger] rest[i]).worktree_id@ == id;
            assert(live[i + 1].worktree_id@ == id);
        }
        if exists|i: int| 0 <= i < live.len() && (#[trigger] live[i]).worktree_id@ == id {
            let i = choose|i: int| 0 <= i < live.len() && (#[trigger] live[i]).worktree_id@ == id;
            if i > 0 {
                assert(rest[i - 1].worktree_id@ == id);
            }
        }
    }
}

/// The registry is looked at when someone asks for it and when it is time to, and nothing but a
/// shutdown, or the loss of everyone who could ask for one, stops the tasks. What nobody asked
/// for is reported to nobody.
pub proof fn law_only_a_shutdown_stops_the_tasks(event: SupervisorEvent, live: Seq<LiveTask>)
    ensures
        supervisor_action(event, live) is StopAll <==> event is Shutdown || event is CommandsClosed,
        supervisor_action(event, live) is Reconcile <==> event is Reload || event is Backstop,
        supervisor_action(event, live) is List <==> event is ListProjects,
        supervisor_action(event, live) matches SupervisorAction::Reconcile { report } ==> (report
            <==> event is Reload),
        supervisor_action(event, live) matches SupervisorAction::StopAll { report } ==> (report
            <==> event is Shutdown),
{
}

/// The tasks count as drained only where the wait for them did not run out.
pub proof fn law_drained_means_waited_out(wait_ran_out: bool)
    ensures
        drained_by(wait_ran_out) is Yes <==> !wait_ran_out,
{
}

/// The status of a task is shown with every field it has.
pub proof fn law_a_status_is_shown_whole(status: WorktreeTaskStatus<Seq<char>>)
    ensures
        ({
            let value = status_value(status);
            &&& crate::json::has_member(value, "consecutive_failures"@, JsonView::integer(status.consecutive_failures as int))
            &&& crate::json::has_member(value, "in_progress_since"@, JsonView::opt_int(status.in_progress_since))
            &&& crate::json::has_member(value, "last_error"@, JsonView::opt_text(status.last_error))
            &&& crate::json::has_member(value, "last_generation_id"@, JsonView::opt_text(status.last_generation_id))
            &&& crate::json::has_member(value, "last_success_ms"@, JsonView::opt_int(status.last_success_ms))
            &&& (value->Obj_0).len() == 5
        }),
{
    let o = status_value(status)->Obj_0;
    crate::json::lemma_member(o, 0);
    crate::json::lemma_member(o, 1);
    crate::json::lemma_member(o, 2);
    crate::json::lemma_member(o, 3);
    crate::json::lemma_member(o, 4);
}

/// A project is shown with every field it has, and with the status of its task, or null where
/// none runs.
pub proof fn law_a_project_is_shown_whole(project: ProjectStatus)
    ensures
        ({
            let value = project_value(project);
            &&& crate::json::has_member(value, "enabled"@, JsonView::Bool(project.enabled))
            &&& crate::json::has_member(
                value,
                "registered_at"@,
                JsonView::integer(project.registered_at as int),
            )
            &&& project.task is None ==> crate::json::has_member(value, "task"@, JsonView::Null)
            &&& project.task matches Some(status) ==> crate::json::has_member(
                value,
                "task"@,
                status_value(status@),
            )
            &&& crate::json::has_member(
                value,
                "updated_at"@,
                JsonView::integer(project.updated_at as int),
            )
            &&& crate::json::has_member(
                value,
                "worktree_id"@,
                JsonView::Str(project.worktree_id@),
            )
            &&& (value->Obj_0).len() == 5
        }),
{
    let o = project_value(project)->Obj_0;
    crate::json::lemma_member(o, 0);
    crate::json::lemma_member(o, 1);
    crate::json::lemma_member(o, 2);
    crate::json::lemma_member(o, 3);
    crate::json::lemma_member(o, 4);
}

/// What is reported of a start that failed names the worktree, and ends with what went wrong.
pub proof fn law_a_failed_start_says_why(worktree_id: String, e: String)
    ensures
        start_report(Start { worktree_id, result: StartResult::Failed(e) }) == Some(
            Report::Error(
                "local-rag: indexing supervisor could not start task for worktree "@
                    + worktree_id@ + ": "@ + e@,
            ),
        ),
        start_report(Start { worktree_id, result: StartResult::Panicked(e) }) == Some(
            Report::Error(
                "local-rag: indexing supervisor's start call for worktree "@ + worktree_id@
                    + " panicked: "@ + e@,
            ),
        ),
{
}

/// The status of a worktree is that of its task, the first where there are more, and a worktree
/// can be reconciled on demand exactly where it has one.
pub proof fn law_a_status_is_of_the_worktrees_task(live: Seq<LiveTask>, id: Seq<char>, i: int)
    ensures
        may_reconcile(live, id) <==> exists|k: int|
            0 <= k < live.len() && (#[trigger] live[k]).worktree_id@ == id,
        0 <= i < live.len() && live[i].worktree_id@ == id && (forall|k: int|
            0 <= k < i ==> (#[trigger] live[k]).worktree_id@ != id) ==> status_of(live, id) == Some(
            live[i].status@,
        ),
    decreases live.len(),
{
    if live.len() > 0 {
        let rest = live.drop_first();
        law_a_status_is_of_the_worktrees_task(rest, id, i - 1);
        assert forall|k: int| 0 <= k < rest.len() implies #[trigger] rest[k] == live[k + 1] by {}
        if live[0].worktree_id@ != id {
            if exists|k: int| 0 <= k < live.len() && (#[trigger] live[k]).worktree_id@ == id {
                let k = choose|k: int| 0 <= k < live.len() && (#[trigger] live[k]).worktree_id@
                    == id;
                assert(rest[k - 1] == live[k]);
            }
            if exists|k: int| 0 <= k < rest.len() && (#[trigger] rest[k]).worktree_id@ == id {
                let k = choose|k: int| 0 <= k < rest.len() && (#[trigger] rest[k]).worktree_id@
                    == id;
                assert(live[k + 1].worktree_id@ == id);
            }
        }
    }
}

/// Where the registry cannot be read no task is started or stopped, and the error says why.
pub proof fn law_an_unreadable_registry_changes_nothing(error: Seq<char>)
    ensures
        registry_fault(error).0.started == 0 && registry_fault(error).0.stopped == 0,
        registry_fault(error).1 matches Report::Error(line) && line
            == "local-rag: indexing supervisor could not read managed_worktree: "@ + error,
{
}

} // verus!
