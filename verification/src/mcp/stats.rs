//! `stats`: what the store holds, how consolidation is doing, and how busy the daemon is.

use vstd::prelude::*;

use crate::json::{Json, JsonMap, JsonView, Number};
use crate::mcp::reply::{infra_err, ToolReply};
use crate::scope::Resolution;
use crate::vocabulary::{CandidateState, MemoryKind, MemoryState};

verus! {

/// How far back throughput looks, in milliseconds.
pub const CONSOLIDATION_THROUGHPUT_WINDOW_MS: i64 = 300_000;

/// How many memory entries are of one kind and in one state.
#[derive(Debug, PartialEq, Eq)]
pub struct MemoryCount {
    pub kind: MemoryKind,
    pub state: MemoryState,
    pub count: i64,
}

/// How many candidates are in one review state.
#[derive(Debug, PartialEq, Eq)]
pub struct CandidateCount {
    pub state: CandidateState,
    pub count: i64,
}

/// How many consolidation runs are in one state.
#[derive(Debug, PartialEq, Eq)]
pub struct RunCount {
    pub state: String,
    pub count: i64,
}

/// A consolidation run that no waiting will fix.
#[derive(Debug, PartialEq, Eq)]
pub struct StuckRun {
    pub run_id: String,
    pub session_id: String,
    pub attempt_count: i64,
    pub dead_lettered: bool,
    pub last_failure_kind: Option<String>,
    pub last_failure_reason: Option<String>,
    pub from_received_seq: i64,
    pub to_received_seq: i64,
}

/// How often one tool was called.
#[derive(Debug, PartialEq, Eq)]
pub struct ToolCallCount {
    pub name: String,
    pub count: u64,
}

/// How full a write queue is.
#[derive(Debug, Clone, Copy, PartialEq, Eq)]
pub struct WriteQueue {
    pub capacity: u64,
    pub available: u64,
}

/// What the store knows of the projection of one worktree.
#[derive(Debug, PartialEq, Eq)]
pub struct Projection {
    pub active_generation_id: Option<String>,
    pub active_model_space_id: Option<String>,
    pub status: String,
    pub last_error: Option<String>,
}

/// A count of entries as a value.
pub open spec fn memory_count_value(e: MemoryCount) -> JsonView {
    JsonView::Obj(
        crate::json::nothing()
            .push(("kind"@, JsonView::Str(e.kind.name())))
            .push(("state"@, JsonView::Str(e.state.name())))
            .push(("count"@, JsonView::integer(e.count as int))),
    )
}

fn memory_count_json(e: &MemoryCount) -> (r: Json)
    ensures
        r@ == memory_count_value(*e),
{
    JsonMap::new()
        .with("kind", Json::string(e.kind.as_str()))
        .with("state", Json::string(e.state.as_str()))
        .with("count", Json::integer(e.count))
        .json()
}

/// Each of `items` as a value.
pub open spec fn memory_count_values(items: Seq<MemoryCount>) -> JsonView {
    JsonView::Arr(Seq::new(items.len(), |i: int| memory_count_value(items[i])))
}

fn memory_count_list(items: &Vec<MemoryCount>) -> (r: Json)
    ensures
        r@ == memory_count_values(items@),
{
    let mut out: Vec<Json> = Vec::new();
    let mut i: usize = 0;
    while i < items.len()
        invariant
            i <= items.len(),
            out.len() == i,
            forall|j: int| 0 <= j < i ==> (#[trigger] out@[j])@ == memory_count_value(items@[j]),
        decreases items.len() - i,
    {
        out.push(memory_count_json(&items[i]));
        i = i + 1;
    }
    proof {
        assert(crate::json::values(out@) =~= memory_count_values(items@)->Arr_0);
    }
    Json::array(out)
}

/// A count of candidates as a value.
pub open spec fn candidate_count_value(e: CandidateCount) -> JsonView {
    JsonView::Obj(
        crate::json::nothing()
            .push(("state"@, JsonView::Str(e.state.name())))
            .push(("count"@, JsonView::integer(e.count as int))),
    )
}

fn candidate_count_json(e: &CandidateCount) -> (r: Json)
    ensures
        r@ == candidate_count_value(*e),
{
    JsonMap::new()
        .with("state", Json::string(e.state.as_str()))
        .with("count", Json::integer(e.count))
        .json()
}

/// Each of `items` as a value.
pub open spec fn candidate_count_values(items: Seq<CandidateCount>) -> JsonView {
    JsonView::Arr(Seq::new(items.len(), |i: int| candidate_count_value(items[i])))
}

fn candidate_count_list(items: &Vec<CandidateCount>) -> (r: Json)
    ensures
        r@ == candidate_count_values(items@),
{
    let mut out: Vec<Json> = Vec::new();
    let mut i: usize = 0;
    while i < items.len()
        invariant
            i <= items.len(),
            out.len() == i,
            forall|j: int| 0 <= j < i ==> (#[trigger] out@[j])@ == candidate_count_value(items@[j]),
        decreases items.len() - i,
    {
        out.push(candidate_count_json(&items[i]));
        i = i + 1;
    }
    proof {
        assert(crate::json::values(out@) =~= candidate_count_values(items@)->Arr_0);
    }
    Json::array(out)
}

/// A count of runs as a value.
pub open spec fn run_count_value(e: RunCount) -> JsonView {
    JsonView::Obj(
        crate::json::nothing()
            .push(("state"@, JsonView::Str(e.state@)))
            .push(("count"@, JsonView::integer(e.count as int))),
    )
}

fn run_count_json(e: &RunCount) -> (r: Json)
    ensures
        r@ == run_count_value(*e),
{
    JsonMap::new()
        .with("state", Json::string(e.state.as_str()))
        .with("count", Json::integer(e.count))
        .json()
}

/// Each of `items` as a value.
pub open spec fn run_count_values(items: Seq<RunCount>) -> JsonView {
    JsonView::Arr(Seq::new(items.len(), |i: int| run_count_value(items[i])))
}

fn run_count_list(items: &Vec<RunCount>) -> (r: Json)
    ensures
        r@ == run_count_values(items@),
{
    let mut out: Vec<Json> = Vec::new();
    let mut i: usize = 0;
    while i < items.len()
        invariant
            i <= items.len(),
            out.len() == i,
            forall|j: int| 0 <= j < i ==> (#[trigger] out@[j])@ == run_count_value(items@[j]),
        decreases items.len() - i,
    {
        out.push(run_count_json(&items[i]));
        i = i + 1;
    }
    proof {
        assert(crate::json::values(out@) =~= run_count_values(items@)->Arr_0);
    }
    Json::array(out)
}

/// A stuck run as a value.
pub open spec fn stuck_run_value(e: StuckRun) -> JsonView {
    JsonView::Obj(
        crate::json::nothing()
            .push(("run_id"@, JsonView::Str(e.run_id@)))
            .push(("session_id"@, JsonView::Str(e.session_id@)))
            .push(("attempt_count"@, JsonView::integer(e.attempt_count as int)))
            .push(("dead_lettered"@, JsonView::Bool(e.dead_lettered)))
            .push(("last_failure_kind"@, JsonView::opt_text(e.last_failure_kind.deep_view())))
            .push(("last_failure_reason"@, JsonView::opt_text(e.last_failure_reason.deep_view())))
            .push(("from_received_seq"@, JsonView::integer(e.from_received_seq as int)))
            .push(("to_received_seq"@, JsonView::integer(e.to_received_seq as int))),
    )
}

fn stuck_run_json(e: &StuckRun) -> (r: Json)
    ensures
        r@ == stuck_run_value(*e),
{
    JsonMap::new()
        .with("run_id", Json::string(e.run_id.as_str()))
        .with("session_id", Json::string(e.session_id.as_str()))
        .with("attempt_count", Json::integer(e.attempt_count))
        .with("dead_lettered", Json::boolean(e.dead_lettered))
        .with("last_failure_kind", Json::opt_string(&e.last_failure_kind))
        .with("last_failure_reason", Json::opt_string(&e.last_failure_reason))
        .with("from_received_seq", Json::integer(e.from_received_seq))
        .with("to_received_seq", Json::integer(e.to_received_seq))
        .json()
}

/// Each of `items` as a value.
pub open spec fn stuck_run_values(items: Seq<StuckRun>) -> JsonView {
    JsonView::Arr(Seq::new(items.len(), |i: int| stuck_run_value(items[i])))
}

fn stuck_run_list(items: &Vec<StuckRun>) -> (r: Json)
    ensures
        r@ == stuck_run_values(items@),
{
    let mut out: Vec<Json> = Vec::new();
    let mut i: usize = 0;
    while i < items.len()
        invariant
            i <= items.len(),
            out.len() == i,
            forall|j: int| 0 <= j < i ==> (#[trigger] out@[j])@ == stuck_run_value(items@[j]),
        decreases items.len() - i,
    {
        out.push(stuck_run_json(&items[i]));
        i = i + 1;
    }
    proof {
        assert(crate::json::values(out@) =~= stuck_run_values(items@)->Arr_0);
    }
    Json::array(out)
}

/// A count of calls as a value.
pub open spec fn tool_call_value(e: ToolCallCount) -> JsonView {
    JsonView::Obj(
        crate::json::nothing()
            .push(("name"@, JsonView::Str(e.name@)))
            .push(("count"@, JsonView::integer(e.count as int))),
    )
}

fn tool_call_json(e: &ToolCallCount) -> (r: Json)
    ensures
        r@ == tool_call_value(*e),
{
    JsonMap::new()
        .with("name", Json::string(e.name.as_str()))
        .with("count", Json::unsigned(e.count))
        .json()
}

/// Each of `items` as a value.
pub open spec fn tool_call_values(items: Seq<ToolCallCount>) -> JsonView {
    JsonView::Arr(Seq::new(items.len(), |i: int| tool_call_value(items[i])))
}

fn tool_call_list(items: &Vec<ToolCallCount>) -> (r: Json)
    ensures
        r@ == tool_call_values(items@),
{
    let mut out: Vec<Json> = Vec::new();
    let mut i: usize = 0;
    while i < items.len()
        invariant
            i <= items.len(),
            out.len() == i,
            forall|j: int| 0 <= j < i ==> (#[trigger] out@[j])@ == tool_call_value(items@[j]),
        decreases items.len() - i,
    {
        out.push(tool_call_json(&items[i]));
        i = i + 1;
    }
    proof {
        assert(crate::json::values(out@) =~= tool_call_values(items@)->Arr_0);
    }
    Json::array(out)
}

/// A write queue as a value.
pub open spec fn queue_value(queue: WriteQueue) -> JsonView {
    JsonView::Obj(
        crate::json::nothing().push(("capacity"@, JsonView::integer(queue.capacity as int))).push(
            ("available"@, JsonView::integer(queue.available as int)),
        ),
    )
}

fn queue_json(queue: WriteQueue) -> (r: Json)
    ensures
        r@ == queue_value(queue),
{
    JsonMap::new().with("capacity", Json::unsigned(queue.capacity)).with(
        "available",
        Json::unsigned(queue.available),
    ).json()
}

/// The reads behind `stats`, in the order in which they are made. Each may fail; the
/// projection is read only where the request resolves to a worktree.
#[derive(Debug, PartialEq, Eq)]
pub struct StatsReads {
    pub entry_counts: Result<Vec<MemoryCount>, String>,
    pub candidate_counts: Result<Vec<CandidateCount>, String>,
    pub observations: Result<i64, String>,
    pub run_counts: Result<Vec<RunCount>, String>,
    pub backlog: Result<i64, String>,
    pub applied_recently: Result<i64, String>,
    pub oldest_open_run: Result<Option<i64>, String>,
    pub stuck_runs: Result<Vec<StuckRun>, String>,
    pub resolution: Result<Resolution, String>,
    pub projection: Result<Option<Projection>, String>,
    pub store_instance_uuid: Result<Option<String>, String>,
}

/// The numbers that are estimated rather than counted.
#[derive(Debug, PartialEq, Eq)]
pub struct Estimates {
    pub progress_pct: Number,
    pub throughput_observations_per_min: Number,
    pub eta_seconds: i64,
}

/// What else `stats` reports.
#[derive(Debug, PartialEq, Eq)]
pub struct StatsContext {
    pub scope_label: String,
    pub state_queue: WriteQueue,
    pub cache_queue: WriteQueue,
    pub session_calls: Vec<ToolCallCount>,
    pub all_calls: Vec<ToolCallCount>,
}

/// From when on applied observations count towards throughput.
pub open spec fn window_start(now_ms: i64) -> int {
    now_ms - CONSOLIDATION_THROUGHPUT_WINDOW_MS
}

/// From when on applied observations count towards throughput.
pub fn throughput_since(now_ms: i64) -> (r: i64)
    requires
        now_ms >= i64::MIN + CONSOLIDATION_THROUGHPUT_WINDOW_MS,
    ensures
        r == window_start(now_ms),
{
    now_ms - CONSOLIDATION_THROUGHPUT_WINDOW_MS
}

/// Whether progress can be measured: only where something was observed at all.
pub open spec fn has_progress(observations: i64) -> bool {
    observations > 0
}

/// Whether progress can be measured.
pub fn progress_is_known(observations: i64) -> (r: bool)
    ensures
        r <==> has_progress(observations),
{
    observations > 0
}

/// Whether an end can be foreseen: only where something is pending and something moved.
pub open spec fn has_end(applied_recently: i64, backlog: i64) -> bool {
    applied_recently > 0 && backlog > 0
}

/// Whether an end can be foreseen.
pub fn eta_is_known(applied_recently: i64, backlog: i64) -> (r: bool)
    ensures
        r <==> has_end(applied_recently, backlog),
{
    applied_recently > 0 && backlog > 0
}

/// What the first read that failed says of itself.
pub open spec fn first_fault(reads: StatsReads) -> Option<Seq<char>> {
    if reads.entry_counts is Err {
        Some(reads.entry_counts->Err_0@)
    } else if reads.candidate_counts is Err {
        Some(reads.candidate_counts->Err_0@)
    } else if reads.observations is Err {
        Some(reads.observations->Err_0@)
    } else if reads.run_counts is Err {
        Some(reads.run_counts->Err_0@)
    } else if reads.backlog is Err {
        Some(reads.backlog->Err_0@)
    } else if reads.applied_recently is Err {
        Some(reads.applied_recently->Err_0@)
    } else if reads.oldest_open_run is Err {
        Some(reads.oldest_open_run->Err_0@)
    } else if reads.stuck_runs is Err {
        Some(reads.stuck_runs->Err_0@)
    } else if reads.resolution is Err {
        Some(reads.resolution->Err_0@)
    } else if reads.resolution->Ok_0 is Resolved && reads.projection is Err {
        Some(reads.projection->Err_0@)
    } else if reads.store_instance_uuid is Err {
        Some(reads.store_instance_uuid->Err_0@)
    } else {
        None
    }
}

/// The worktree of the request as a value, or null where it resolves to none.
pub open spec fn worktree_value(
    resolution: Resolution<Seq<char>>,
    projection: Option<Projection>,
) -> JsonView {
    match resolution {
        Resolution::Resolved { repo_id, worktree_id } => JsonView::Obj(
            crate::json::nothing().push(("repo_id"@, JsonView::Str(repo_id))).push(
                ("worktree_id"@, JsonView::Str(worktree_id)),
            ).push(
                (
                    "active_generation_id"@,
                    match projection {
                        Some(p) => JsonView::opt_text(p.active_generation_id.deep_view()),
                        None => JsonView::Null,
                    },
                ),
            ).push(
                (
                    "active_model_space_id"@,
                    match projection {
                        Some(p) => JsonView::opt_text(p.active_model_space_id.deep_view()),
                        None => JsonView::Null,
                    },
                ),
            ).push(
                (
                    "projection_status"@,
                    match projection {
                        Some(p) => JsonView::Str(p.status@),
                        None => JsonView::Null,
                    },
                ),
            ).push(
                (
                    "projection_last_error"@,
                    match projection {
                        Some(p) => JsonView::opt_text(p.last_error.deep_view()),
                        None => JsonView::Null,
                    },
                ),
            ),
        ),
        _ => JsonView::Null,
    }
}

fn worktree_json(resolution: &Resolution, projection: &Option<Projection>) -> (r: Json)
    ensures
        r@ == worktree_value(resolution@, *projection),
{
    broadcast use crate::json::lemma_view;

    match resolution {
        Resolution::Resolved { repo_id, worktree_id } => {
            let map = JsonMap::new().with("repo_id", Json::string(repo_id.as_str())).with(
                "worktree_id",
                Json::string(worktree_id.as_str()),
            );
            match projection {
                Some(p) => map.with(
                    "active_generation_id",
                    Json::opt_string(&p.active_generation_id),
                ).with(
                    "active_model_space_id",
                    Json::opt_string(&p.active_model_space_id),
                ).with("projection_status", Json::string(p.status.as_str())).with(
                    "projection_last_error",
                    Json::opt_string(&p.last_error),
                ).json(),
                None => map.with("active_generation_id", Json::Null).with(
                    "active_model_space_id",
                    Json::Null,
                ).with("projection_status", Json::Null).with(
                    "projection_last_error",
                    Json::Null,
                ).json(),
            }
        },
        _ => Json::Null,
    }
}

/// What `stats` reports of memory.
pub open spec fn memory_value(reads: StatsReads) -> JsonView {
    JsonView::Obj(
        crate::json::nothing().push(
            ("entries_by_kind_state"@, memory_count_values(reads.entry_counts->Ok_0@)),
        ).push(
            (
                "pending_candidates_by_state"@,
                candidate_count_values(reads.candidate_counts->Ok_0@),
            ),
        ),
    )
}

/// What `stats` reports of consolidation. An estimate that cannot be made is null.
pub open spec fn consolidation_value(reads: StatsReads, estimates: Estimates) -> JsonView {
    JsonView::Obj(
        crate::json::nothing().push(
            ("runs_by_state"@, run_count_values(reads.run_counts->Ok_0@)),
        ).push(
            ("pending_backlog_total"@, JsonView::integer(reads.backlog->Ok_0 as int)),
        ).push(
            (
                "progress_pct"@,
                if reads.observations->Ok_0 > 0 {
                    JsonView::Num(estimates.progress_pct@)
                } else {
                    JsonView::Null
                },
            ),
        ).push(
            (
                "throughput_observations_per_min"@,
                JsonView::Num(estimates.throughput_observations_per_min@),
            ),
        ).push(
            (
                "eta_seconds"@,
                if reads.applied_recently->Ok_0 > 0 && reads.backlog->Ok_0 > 0 {
                    JsonView::integer(estimates.eta_seconds as int)
                } else {
                    JsonView::Null
                },
            ),
        ).push(
            (
                "oldest_pending_run_created_at"@,
                JsonView::opt_int(reads.oldest_open_run->Ok_0),
            ),
        ).push(("stuck_runs"@, stuck_run_values(reads.stuck_runs->Ok_0@))),
    )
}

/// What `stats` reports, where every read succeeded.
pub open spec fn stats_value(
    reads: StatsReads,
    estimates: Estimates,
    context: StatsContext,
) -> JsonView {
    JsonView::Obj(
        crate::json::nothing().push(("memory"@, memory_value(reads))).push(
            (
                "observations"@,
                JsonView::Obj(
                    crate::json::nothing().push(
                        ("total"@, JsonView::integer(reads.observations->Ok_0 as int)),
                    ),
                ),
            ),
        ).push(("consolidation"@, consolidation_value(reads, estimates))).push(
            ("scope"@, JsonView::Str(context.scope_label@)),
        ).push(
            (
                "worktree"@,
                worktree_value(
                    reads.resolution->Ok_0@,
                    match reads.projection {
                        Ok(p) => p,
                        Err(_) => None,
                    },
                ),
            ),
        ).push(
            (
                "store_instance_uuid"@,
                JsonView::opt_text(reads.store_instance_uuid->Ok_0.deep_view()),
            ),
        ).push(
            (
                "write_queues"@,
                JsonView::Obj(
                    crate::json::nothing().push(
                        ("state"@, queue_value(context.state_queue)),
                    ).push(("cache"@, queue_value(context.cache_queue))),
                ),
            ),
        ).push(
            (
                "tool_calls"@,
                JsonView::Obj(
                    crate::json::nothing().push(
                        ("session"@, tool_call_values(context.session_calls@)),
                    ).push(("since_daemon_start"@, tool_call_values(context.all_calls@))),
                ),
            ),
        ),
    )
}

/// What `stats` answers: the report, or the first read that failed.
pub open spec fn stats_reply(
    reads: StatsReads,
    estimates: Estimates,
    context: StatsContext,
) -> ToolReply<Seq<char>, JsonView> {
    match first_fault(reads) {
        Some(message) => crate::mcp::reply::unreadable(message),
        None => ToolReply::Success(stats_value(reads, estimates, context)),
    }
}

fn consolidation_json(reads: &StatsReads, estimates: &Estimates) -> (r: Json)
    requires
        first_fault(*reads) is None,
    ensures
        r@ == consolidation_value(*reads, *estimates),
{
    broadcast use crate::json::lemma_view;

    match (
        &reads.run_counts,
        &reads.backlog,
        &reads.observations,
        &reads.applied_recently,
        &reads.oldest_open_run,
        &reads.stuck_runs,
    ) {
        (Ok(runs), Ok(backlog), Ok(observations), Ok(applied), Ok(oldest), Ok(stuck)) => {
            let progress = if progress_is_known(*observations) {
                Json::number(&estimates.progress_pct)
            } else {
                Json::Null
            };
            let eta = if eta_is_known(*applied, *backlog) {
                Json::integer(estimates.eta_seconds)
            } else {
                Json::Null
            };
            JsonMap::new().with("runs_by_state", run_count_list(runs)).with(
                "pending_backlog_total",
                Json::integer(*backlog),
            ).with("progress_pct", progress).with(
                "throughput_observations_per_min",
                Json::number(&estimates.throughput_observations_per_min),
            ).with("eta_seconds", eta).with(
                "oldest_pending_run_created_at",
                Json::opt_int(*oldest),
            ).with("stuck_runs", stuck_run_list(stuck)).json()
        },
        _ => Json::Null,
    }
}

/// What `stats` answers.
pub fn stats_result(reads: &StatsReads, estimates: &Estimates, context: &StatsContext) -> (r:
    ToolReply)
    ensures
        r@ == stats_reply(*reads, *estimates, *context),
{
    let entries = match &reads.entry_counts {
        Ok(v) => v,
        Err(e) => {
            return infra_err(e.as_str());
        },
    };
    let candidates = match &reads.candidate_counts {
        Ok(v) => v,
        Err(e) => {
            return infra_err(e.as_str());
        },
    };
    let observations: i64 = match &reads.observations {
        Ok(v) => *v,
        Err(e) => {
            return infra_err(e.as_str());
        },
    };
    if let Err(e) = &reads.run_counts {
        return infra_err(e.as_str());
    }
    if let Err(e) = &reads.backlog {
        return infra_err(e.as_str());
    }
    if let Err(e) = &reads.applied_recently {
        return infra_err(e.as_str());
    }
    if let Err(e) = &reads.oldest_open_run {
        return infra_err(e.as_str());
    }
    if let Err(e) = &reads.stuck_runs {
        return infra_err(e.as_str());
    }
    let resolution = match &reads.resolution {
        Ok(v) => v,
        Err(e) => {
            return infra_err(e.as_str());
        },
    };
    let nothing: Option<Projection> = None;
    let projection = match &reads.projection {
        Ok(p) => p,
        Err(e) => {
            if let Resolution::Resolved { .. } = resolution {
                return infra_err(e.as_str());
            }
            &nothing
        },
    };
    let uuid = match &reads.store_instance_uuid {
        Ok(v) => v,
        Err(e) => {
            return infra_err(e.as_str());
        },
    };
    let memory = JsonMap::new().with("entries_by_kind_state", memory_count_list(entries)).with(
        "pending_candidates_by_state",
        candidate_count_list(candidates),
    ).json();
    let observed = JsonMap::new().with("total", Json::integer(observations)).json();
    let consolidation = consolidation_json(reads, estimates);
    let queues = JsonMap::new().with("state", queue_json(context.state_queue)).with(
        "cache",
        queue_json(context.cache_queue),
    ).json();
    let calls = JsonMap::new().with("session", tool_call_list(&context.session_calls)).with(
        "since_daemon_start",
        tool_call_list(&context.all_calls),
    ).json();
    ToolReply::Success(
        JsonMap::new().with("memory", memory).with("observations", observed).with(
            "consolidation",
            consolidation,
        ).with("scope", Json::string(context.scope_label.as_str())).with(
            "worktree",
            worktree_json(resolution, projection),
        ).with("store_instance_uuid", Json::opt_string(uuid)).with("write_queues", queues).with(
            "tool_calls",
            calls,
        ).json(),
    )
}

/// Throughput looks back five minutes.
pub proof fn law_throughput_looks_back_five_minutes(now_ms: i64)
    ensures
        now_ms - window_start(now_ms) == 5 * 60 * 1000,
{
}

/// Statistics fail where a read failed that they need, by what the first of those says of
/// itself, and only there. The projection is needed where the request resolves to a worktree.
pub proof fn law_the_first_failed_read_answers(
    reads: StatsReads,
    estimates: Estimates,
    context: StatsContext,
)
    ensures
        ({
            let needed = reads.resolution matches Ok(r) && r is Resolved;
            let faulty = reads.entry_counts is Err || reads.candidate_counts is Err
                || reads.observations is Err || reads.run_counts is Err || reads.backlog is Err
                || reads.applied_recently is Err || reads.oldest_open_run is Err
                || reads.stuck_runs is Err || reads.resolution is Err || (needed
                && reads.projection is Err) || reads.store_instance_uuid is Err;
            &&& faulty <==> first_fault(reads) is Some
            &&& faulty ==> (stats_reply(reads, estimates, context) matches ToolReply::Failed(f)
                && (f matches crate::failure::Failure::IndexUnavailable { details } && details
                == first_fault(reads)->Some_0))
            &&& !faulty ==> stats_reply(reads, estimates, context) == (ToolReply::<
                Seq<char>,
                JsonView,
            >::Success(stats_value(reads, estimates, context)))
        }),
        reads.entry_counts matches Err(e) ==> first_fault(reads) == Some(e@),
        reads.entry_counts is Ok ==> (reads.candidate_counts matches Err(e) ==> first_fault(reads)
            == Some(e@)),
        reads.entry_counts is Ok && reads.candidate_counts is Ok ==> (
        reads.observations matches Err(e) ==> first_fault(reads) == Some(e@)),
        reads.entry_counts is Ok && reads.candidate_counts is Ok && reads.observations is Ok ==> (
        reads.run_counts matches Err(e) ==> first_fault(reads) == Some(e@)),
{
}

/// An estimate is shown only where it can be made: progress where something was observed, and an
/// end where something is pending and something moved. What is counted is shown as it was.
pub proof fn law_only_what_is_known_is_estimated(reads: StatsReads, estimates: Estimates)
    requires
        first_fault(reads) is None,
    ensures
        ({
            let value = consolidation_value(reads, estimates);
            &&& crate::json::has_member(
                value,
                "runs_by_state"@,
                run_count_values(reads.run_counts->Ok_0@),
            )
            &&& crate::json::has_member(
                value,
                "pending_backlog_total"@,
                JsonView::integer(reads.backlog->Ok_0 as int),
            )
            &&& reads.observations->Ok_0 > 0 ==> crate::json::has_member(
                value,
                "progress_pct"@,
                JsonView::Num(estimates.progress_pct@),
            )
            &&& reads.observations->Ok_0 <= 0 ==> crate::json::has_member(
                value,
                "progress_pct"@,
                JsonView::Null,
            )
            &&& crate::json::has_member(
                value,
                "throughput_observations_per_min"@,
                JsonView::Num(estimates.throughput_observations_per_min@),
            )
            &&& reads.applied_recently->Ok_0 > 0 && reads.backlog->Ok_0 > 0
                ==> crate::json::has_member(
                value,
                "eta_seconds"@,
                JsonView::integer(estimates.eta_seconds as int),
            )
            &&& reads.applied_recently->Ok_0 <= 0 || reads.backlog->Ok_0 <= 0
                ==> crate::json::has_member(value, "eta_seconds"@, JsonView::Null)
            &&& crate::json::has_member(
                value,
                "oldest_pending_run_created_at"@,
                JsonView::opt_int(reads.oldest_open_run->Ok_0),
            )
            &&& crate::json::has_member(
                value,
                "stuck_runs"@,
                stuck_run_values(reads.stuck_runs->Ok_0@),
            )
            &&& (value->Obj_0).len() == 7
        }),
{
    let o = consolidation_value(reads, estimates)->Obj_0;
    crate::json::lemma_member(o, 0);
    crate::json::lemma_member(o, 1);
    crate::json::lemma_member(o, 2);
    crate::json::lemma_member(o, 3);
    crate::json::lemma_member(o, 4);
    crate::json::lemma_member(o, 5);
    crate::json::lemma_member(o, 6);
}

/// A request that resolves to a worktree is told of its projection, as far as there is one, and
/// any other is told of no worktree.
pub proof fn law_a_worktree_is_shown_where_there_is_one(
    resolution: Resolution<Seq<char>>,
    projection: Option<Projection>,
)
    ensures
        ({
            let value = worktree_value(resolution, projection);
            &&& !(resolution is Resolved) <==> value is Null
            &&& resolution matches Resolution::Resolved { repo_id, worktree_id } ==> {
                &&& crate::json::has_member(value, "repo_id"@, JsonView::Str(repo_id))
                &&& crate::json::has_member(value, "worktree_id"@, JsonView::Str(worktree_id))
                &&& projection is None ==> crate::json::has_member(
                    value,
                    "projection_status"@,
                    JsonView::Null,
                )
                &&& projection matches Some(p) ==> {
                    &&& crate::json::has_member(
                        value,
                        "active_generation_id"@,
                        JsonView::opt_text(p.active_generation_id.deep_view()),
                    )
                    &&& crate::json::has_member(
                        value,
                        "active_model_space_id"@,
                        JsonView::opt_text(p.active_model_space_id.deep_view()),
                    )
                    &&& crate::json::has_member(
                        value,
                        "projection_status"@,
                        JsonView::Str(p.status@),
                    )
                    &&& crate::json::has_member(
                        value,
                        "projection_last_error"@,
                        JsonView::opt_text(p.last_error.deep_view()),
                    )
                }
                &&& (value->Obj_0).len() == 6
            }
        }),
{
    if resolution is Resolved {
        let o = worktree_value(resolution, projection)->Obj_0;
        crate::json::lemma_member(o, 0);
        crate::json::lemma_member(o, 1);
        crate::json::lemma_member(o, 2);
        crate::json::lemma_member(o, 3);
        crate::json::lemma_member(o, 4);
        crate::json::lemma_member(o, 5);
    }
}

/// A report has its eight parts, each under its name.
pub proof fn law_a_report_has_its_parts(
    reads: StatsReads,
    estimates: Estimates,
    context: StatsContext,
)
    requires
        first_fault(reads) is None,
    ensures
        ({
            let value = stats_value(reads, estimates, context);
            &&& crate::json::has_member(value, "memory"@, memory_value(reads))
            &&& crate::json::has_member(
                value,
                "observations"@,
                JsonView::Obj(
                    seq![("total"@, JsonView::integer(reads.observations->Ok_0 as int))],
                ),
            )
            &&& crate::json::has_member(
                value,
                "consolidation"@,
                consolidation_value(reads, estimates),
            )
            &&& crate::json::has_member(value, "scope"@, JsonView::Str(context.scope_label@))
            &&& reads.projection matches Ok(p) ==> crate::json::has_member(
                value,
                "worktree"@,
                worktree_value(reads.resolution->Ok_0@, p),
            )
            &&& crate::json::has_member(
                value,
                "store_instance_uuid"@,
                JsonView::opt_text(reads.store_instance_uuid->Ok_0.deep_view()),
            )
            &&& crate::json::has_member(
                value,
                "write_queues"@,
                JsonView::Obj(
                    seq![
                        ("state"@, queue_value(context.state_queue)),
                        ("cache"@, queue_value(context.cache_queue)),
                    ],
                ),
            )
            &&& crate::json::has_member(
                value,
                "tool_calls"@,
                JsonView::Obj(
                    seq![
                        ("session"@, tool_call_values(context.session_calls@)),
                        ("since_daemon_start"@, tool_call_values(context.all_calls@)),
                    ],
                ),
            )
            &&& (value->Obj_0).len() == 8
        }),
{
    let o = stats_value(reads, estimates, context)->Obj_0;
    assert(o[1].1->Obj_0 =~= seq![
        ("total"@, JsonView::integer(reads.observations->Ok_0 as int)),
    ]);
    assert(o[6].1->Obj_0 =~= seq![
        ("state"@, queue_value(context.state_queue)),
        ("cache"@, queue_value(context.cache_queue)),
    ]);
    assert(o[7].1->Obj_0 =~= seq![
        ("session"@, tool_call_values(context.session_calls@)),
        ("since_daemon_start"@, tool_call_values(context.all_calls@)),
    ]);
    crate::json::lemma_member(o, 0);
    crate::json::lemma_member(o, 1);
    crate::json::lemma_member(o, 2);
    crate::json::lemma_member(o, 3);
    crate::json::lemma_member(o, 4);
    crate::json::lemma_member(o, 5);
    crate::json::lemma_member(o, 6);
    crate::json::lemma_member(o, 7);
}

/// A count of entries names its kind and its state.
pub proof fn law_a_memory_count_is_shown_whole(e: MemoryCount)
    ensures
        ({
            let value = memory_count_value(e);
            &&& crate::json::has_member(value, "kind"@, JsonView::Str(e.kind.name()))
            &&& crate::json::has_member(value, "state"@, JsonView::Str(e.state.name()))
            &&& crate::json::has_member(value, "count"@, JsonView::integer(e.count as int))
            &&& (value->Obj_0).len() == 3
        }),
{
    let o = memory_count_value(e)->Obj_0;
    crate::json::lemma_member(o, 0);
    crate::json::lemma_member(o, 1);
    crate::json::lemma_member(o, 2);
}

/// A count of candidates names its state.
pub proof fn law_a_candidate_count_is_shown_whole(e: CandidateCount)
    ensures
        ({
            let value = candidate_count_value(e);
            &&& crate::json::has_member(value, "state"@, JsonView::Str(e.state.name()))
            &&& crate::json::has_member(value, "count"@, JsonView::integer(e.count as int))
            &&& (value->Obj_0).len() == 2
        }),
{
    let o = candidate_count_value(e)->Obj_0;
    crate::json::lemma_member(o, 0);
    crate::json::lemma_member(o, 1);
}

/// A count of runs names its state.
pub proof fn law_a_run_count_is_shown_whole(e: RunCount)
    ensures
        ({
            let value = run_count_value(e);
            &&& crate::json::has_member(value, "state"@, JsonView::Str(e.state@))
            &&& crate::json::has_member(value, "count"@, JsonView::integer(e.count as int))
            &&& (value->Obj_0).len() == 2
        }),
{
    let o = run_count_value(e)->Obj_0;
    crate::json::lemma_member(o, 0);
    crate::json::lemma_member(o, 1);
}

/// A stuck run is shown with every field it has.
pub proof fn law_a_stuck_run_is_shown_whole(e: StuckRun)
    ensures
        ({
            let value = stuck_run_value(e);
            &&& crate::json::has_member(value, "run_id"@, JsonView::Str(e.run_id@))
            &&& crate::json::has_member(value, "session_id"@, JsonView::Str(e.session_id@))
            &&& crate::json::has_member(value, "attempt_count"@, JsonView::integer(e.attempt_count as int))
            &&& crate::json::has_member(value, "dead_lettered"@, JsonView::Bool(e.dead_lettered))
            &&& crate::json::has_member(value, "last_failure_kind"@, JsonView::opt_text(e.last_failure_kind.deep_view()))
            &&& crate::json::has_member(value, "last_failure_reason"@, JsonView::opt_text(e.last_failure_reason.deep_view()))
            &&& crate::json::has_member(value, "from_received_seq"@, JsonView::integer(e.from_received_seq as int))
            &&& crate::json::has_member(value, "to_received_seq"@, JsonView::integer(e.to_received_seq as int))
            &&& (value->Obj_0).len() == 8
        }),
{
    let o = stuck_run_value(e)->Obj_0;
    crate::json::lemma_member(o, 0);
    crate::json::lemma_member(o, 1);
    crate::json::lemma_member(o, 2);
    crate::json::lemma_member(o, 3);
    crate::json::lemma_member(o, 4);
    crate::json::lemma_member(o, 5);
    crate::json::lemma_member(o, 6);
    crate::json::lemma_member(o, 7);
}

/// A count of calls names its tool.
pub proof fn law_a_call_count_is_shown_whole(e: ToolCallCount)
    ensures
        ({
            let value = tool_call_value(e);
            &&& crate::json::has_member(value, "name"@, JsonView::Str(e.name@))
            &&& crate::json::has_member(value, "count"@, JsonView::integer(e.count as int))
            &&& (value->Obj_0).len() == 2
        }),
{
    let o = tool_call_value(e)->Obj_0;
    crate::json::lemma_member(o, 0);
    crate::json::lemma_member(o, 1);
}

/// A queue is shown by how much it holds and how much of that is free.
pub proof fn law_a_queue_is_shown_whole(queue: WriteQueue)
    ensures
        ({
            let value = queue_value(queue);
            &&& crate::json::has_member(value, "capacity"@, JsonView::integer(queue.capacity as int))
            &&& crate::json::has_member(value, "available"@, JsonView::integer(queue.available as int))
            &&& (value->Obj_0).len() == 2
        }),
{
    let o = queue_value(queue)->Obj_0;
    crate::json::lemma_member(o, 0);
    crate::json::lemma_member(o, 1);
}

/// What is told of memory are the counts of its entries and of its candidates.
pub proof fn law_memory_is_told_by_its_counts(reads: StatsReads)
    ensures
        ({
            let value = memory_value(reads);
            &&& crate::json::has_member(value, "entries_by_kind_state"@, memory_count_values(reads.entry_counts->Ok_0@))
            &&& crate::json::has_member(value, "pending_candidates_by_state"@, candidate_count_values(reads.candidate_counts->Ok_0@))
            &&& (value->Obj_0).len() == 2
        }),
{
    let o = memory_value(reads)->Obj_0;
    crate::json::lemma_member(o, 0);
    crate::json::lemma_member(o, 1);
}

/// Each list shows every item it has, in its place.
pub proof fn law_lists_are_shown_whole(
    entries: Seq<MemoryCount>,
    candidates: Seq<CandidateCount>,
    runs: Seq<RunCount>,
    stuck: Seq<StuckRun>,
    calls: Seq<ToolCallCount>,
)
    ensures
        (memory_count_values(entries)->Arr_0).len() == entries.len(),
        forall|i: int|
            0 <= i < entries.len() ==> #[trigger] (memory_count_values(entries)->Arr_0)[i]
                == memory_count_value(entries[i]),
        (candidate_count_values(candidates)->Arr_0).len() == candidates.len(),
        forall|i: int|
            0 <= i < candidates.len() ==> #[trigger] (candidate_count_values(
                candidates,
            )->Arr_0)[i] == candidate_count_value(candidates[i]),
        (run_count_values(runs)->Arr_0).len() == runs.len(),
        forall|i: int|
            0 <= i < runs.len() ==> #[trigger] (run_count_values(runs)->Arr_0)[i]
                == run_count_value(runs[i]),
        (stuck_run_values(stuck)->Arr_0).len() == stuck.len(),
        forall|i: int|
            0 <= i < stuck.len() ==> #[trigger] (stuck_run_values(stuck)->Arr_0)[i]
                == stuck_run_value(stuck[i]),
        (tool_call_values(calls)->Arr_0).len() == calls.len(),
        forall|i: int|
            0 <= i < calls.len() ==> #[trigger] (tool_call_values(calls)->Arr_0)[i]
                == tool_call_value(calls[i]),
{
}

/// Nothing observed means no progress to measure; nothing pending, or nothing that moved, means
/// no end to foresee.
pub proof fn law_when_estimates_can_be_made(observations: i64, applied_recently: i64, backlog: i64)
    ensures
        observations <= 0 ==> !has_progress(observations),
        observations >= 1 ==> has_progress(observations),
        applied_recently <= 0 || backlog <= 0 ==> !has_end(applied_recently, backlog),
        applied_recently >= 1 && backlog >= 1 ==> has_end(applied_recently, backlog),
{
}

} // verus!
