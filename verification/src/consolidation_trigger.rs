//! When sessions are consolidated: one tick recovers what was interrupted, then looks at
//! every session and opens a run where one is due.

use vstd::prelude::*;

use crate::jobs::{JobKind, JobRegistry};
use crate::order::is_text_before;
use crate::report::Report;
use crate::text::{concat4, concat5, decimal_i64, same};

verus! {

/// The version of the router that every run is opened for.
pub const ROUTER_VERSION: &'static str = "v1";

/// What the consolidation worker goes by.
#[derive(Debug, Clone, Copy, PartialEq, Eq, Structural)]
pub struct ConsolidationTriggerParams {
    pub lease_ms: i64,
    pub renew_interval_ms: i64,
    /// How many observations one run takes.
    pub batch_size: i64,
    /// How many characters one run takes.
    pub window_chars: i64,
    /// From how many observations on a session is due without a checkpoint.
    pub queue_threshold: i64,
    pub payload_ttl_hours: u64,
    /// How old the last observation of a session is when the session counts as stopped.
    pub idle_checkpoint_hours: u64,
    /// Above which size the write-ahead log is cut back.
    pub wal_truncate_threshold_bytes: u64,
}

/// How a run ended.
#[derive(Debug, Clone, PartialEq, Eq)]
pub enum RunOutcome<S = String> {
    Applied,
    Failed(S),
}

/// What a tick did for a session.
#[derive(Debug, Clone, PartialEq, Eq)]
pub enum SessionTickOutcome<S = String> {
    /// Nothing is due.
    NoCheckpoint,
    /// A run is open already.
    SkippedExisting,
    /// Everything is consolidated.
    NothingPending,
    /// A run was opened, and ended.
    Ran(RunOutcome<S>),
    /// The session's events could not be imported.
    ImportFailed(S),
    /// A run could not be opened.
    OpenFailed(S),
    /// Even one observation is too much for the model. This stays so until somebody acts.
    Unconsolidatable { from_received_seq: i64, to_received_seq: i64, dead_letter_run_id: S },
}

impl View for RunOutcome<String> {
    type V = RunOutcome<Seq<char>>;

    open spec fn view(&self) -> RunOutcome<Seq<char>> {
        match *self {
            RunOutcome::Applied => RunOutcome::Applied,
            RunOutcome::Failed(reason) => RunOutcome::Failed(reason@),
        }
    }
}

impl View for SessionTickOutcome<String> {
    type V = SessionTickOutcome<Seq<char>>;

    open spec fn view(&self) -> SessionTickOutcome<Seq<char>> {
        match *self {
            SessionTickOutcome::NoCheckpoint => SessionTickOutcome::NoCheckpoint,
            SessionTickOutcome::SkippedExisting => SessionTickOutcome::SkippedExisting,
            SessionTickOutcome::NothingPending => SessionTickOutcome::NothingPending,
            SessionTickOutcome::Ran(outcome) => SessionTickOutcome::Ran(outcome@),
            SessionTickOutcome::ImportFailed(e) => SessionTickOutcome::ImportFailed(e@),
            SessionTickOutcome::OpenFailed(e) => SessionTickOutcome::OpenFailed(e@),
            SessionTickOutcome::Unconsolidatable {
                from_received_seq,
                to_received_seq,
                dead_letter_run_id,
            } => SessionTickOutcome::Unconsolidatable {
                from_received_seq,
                to_received_seq,
                dead_letter_run_id: dead_letter_run_id@,
            },
        }
    }
}

/// Texts in strictly ascending order, so that none occurs twice.
pub open spec fn ascending(texts: Seq<Seq<char>>) -> bool {
    forall|i: int, j: int|
        0 <= i < j < texts.len() ==> crate::order::text_before(
            #[trigger] texts[i],
            #[trigger] texts[j],
        )
}

/// The sessions a source names. A source that could not be read names none.
pub open spec fn named_by(source: Option<Vec<String>>) -> Seq<Seq<char>> {
    match source {
        Some(sessions) => crate::paths::chars(sessions@),
        None => Seq::empty(),
    }
}

fn note_session(sessions: &mut Vec<String>, session: &String)
    requires
        ascending(crate::paths::chars(old(sessions)@)),
    ensures
        ascending(crate::paths::chars(final(sessions)@)),
        forall|s: Seq<char>| #[trigger]
            crate::paths::chars(final(sessions)@).contains(s) <==> (crate::paths::chars(
                old(sessions)@,
            ).contains(s) || s == session@),
{
    let ghost before = crate::paths::chars(sessions@);
    let mut at: usize = 0;
    while at < sessions.len() && is_text_before(sessions[at].as_str(), session.as_str())
        invariant
            at <= sessions@.len(),
            before == crate::paths::chars(sessions@),
            forall|i: int|
                0 <= i < at ==> crate::order::text_before(#[trigger] before[i], session@),
        decreases sessions@.len() - at,
    {
        proof {
            assert(before[at as int] == sessions@[at as int]@);
        }
        at = at + 1;
    }
    proof {
        if at < before.len() {
            assert(before[at as int] == sessions@[at as int]@);
        }
    }
    if at < sessions.len() && same(sessions[at].as_str(), session.as_str()) {
        proof {
            assert(before.contains(session@)) by {
                assert(before[at as int] == session@);
            }
            assert forall|s: Seq<char>| #[trigger] before.contains(s) <==> (before.contains(s) || s
                == session@) by {}
        }
        return ;
    }
    sessions.insert(at, session.clone());
    proof {
        let after = crate::paths::chars(sessions@);
        assert(after =~= before.insert(at as int, session@));
        assert forall|i: int| at <= i < before.len() implies crate::order::text_before(
            session@,
            #[trigger] before[i],
        ) by {
            crate::order::law_text_order_is_total(before[at as int], session@);
            if i > at {
                crate::order::law_text_order_is_transitive(session@, before[at as int], before[i]);
            }
        }
        assert forall|i: int, j: int| 0 <= i < j < after.len() implies crate::order::text_before(
            #[trigger] after[i],
            #[trigger] after[j],
        ) by {
            let a = if i < at {
                before[i]
            } else if i == at {
                session@
            } else {
                before[i - 1]
            };
            let b = if j < at {
                before[j]
            } else if j == at {
                session@
            } else {
                before[j - 1]
            };
            assert(after[i] == a && after[j] == b);
        }
        assert forall|s: Seq<char>| #[trigger] after.contains(s) <==> (before.contains(s) || s
            == session@) by {
            if before.contains(s) {
                let i = choose|i: int| 0 <= i < before.len() && before[i] == s;
                if i < at {
                    assert(after[i] == s);
                } else {
                    assert(after[i + 1] == s);
                }
            }
            if s == session@ {
                assert(after[at as int] == s);
            }
            if after.contains(s) {
                let i = choose|i: int| 0 <= i < after.len() && after[i] == s;
                if i < at {
                    assert(before[i] == s);
                } else if i > at {
                    assert(before[i - 1] == s);
                }
            }
        }
    }
}

fn note_sessions(sessions: &mut Vec<String>, source: &Option<Vec<String>>)
    requires
        ascending(crate::paths::chars(old(sessions)@)),
    ensures
        ascending(crate::paths::chars(final(sessions)@)),
        forall|s: Seq<char>| #[trigger]
            crate::paths::chars(final(sessions)@).contains(s) <==> (crate::paths::chars(
                old(sessions)@,
            ).contains(s) || named_by(*source).contains(s)),
{
    if let Some(list) = source {
        let ghost named = named_by(*source);
        let ghost before = crate::paths::chars(sessions@);
        let mut i: usize = 0;
        while i < list.len()
            invariant
                i <= list@.len(),
                named == crate::paths::chars(list@),
                ascending(crate::paths::chars(sessions@)),
                forall|s: Seq<char>| #[trigger]
                    crate::paths::chars(sessions@).contains(s) <==> (before.contains(s)
                        || named.take(i as int).contains(s)),
            decreases list@.len() - i,
        {
            let ghost so_far = crate::paths::chars(sessions@);
            note_session(sessions, &list[i]);
            proof {
                let more = named.take(i + 1);
                let less = named.take(i as int);
                assert(named[i as int] == list@[i as int]@);
                assert forall|s: Seq<char>| #[trigger]
                    crate::paths::chars(sessions@).contains(s) <==> (before.contains(s)
                        || more.contains(s)) by {
                    if less.contains(s) {
                        let k = choose|k: int| 0 <= k < less.len() && less[k] == s;
                        assert(more[k] == s);
                    }
                    if s == list@[i as int]@ {
                        assert(more[i as int] == s);
                    }
                    if more.contains(s) {
                        let k = choose|k: int| 0 <= k < more.len() && more[k] == s;
                        if k < i {
                            assert(less[k] == s);
                        }
                    }
                    assert(crate::paths::chars(sessions@).contains(s) <==> (so_far.contains(s) || s
                        == list@[i as int]@));
                }
            }
            i = i + 1;
        }
        proof {
            assert(named.take(i as int) =~= named);
        }
    }
}

/// The sessions to look at: those that have spooled events and those that have a backlog,
/// each of them once, in order.
pub fn sessions_to_visit(spool: &Option<Vec<String>>, backlog: &Option<Vec<String>>) -> (r: Vec<
    String,
>)
    ensures
        ascending(crate::paths::chars(r@)),
        forall|s: Seq<char>| #[trigger]
            crate::paths::chars(r@).contains(s) <==> (named_by(*spool).contains(s) || named_by(
                *backlog,
            ).contains(s)),
{
    let mut sessions: Vec<String> = Vec::new();
    proof {
        assert(crate::paths::chars(sessions@) =~= Seq::empty());
    }
    note_sessions(&mut sessions, spool);
    note_sessions(&mut sessions, backlog);
    sessions
}

/// The list of the sessions to look at is settled by which sessions there are.
pub proof fn law_one_order_of_sessions(a: Seq<Seq<char>>, b: Seq<Seq<char>>)
    requires
        ascending(a),
        ascending(b),
        forall|s: Seq<char>| a.contains(s) <==> b.contains(s),
    ensures
        a == b,
    decreases a.len(),
{
    if a.len() == 0 {
        if b.len() > 0 {
            assert(b.contains(b[0]));
            assert(a.contains(b[0]));
        }
        assert(a =~= b);
    } else {
        assert(a.contains(a[0]));
        assert(b.contains(a[0]));
        assert(b.contains(b[0]));
        assert(a.contains(b[0]));
        let i = choose|i: int| 0 <= i < a.len() && a[i] == b[0];
        let j = choose|j: int| 0 <= j < b.len() && b[j] == a[0];
        crate::order::law_text_order_is_total(a[0], b[0]);
        assert(a[0] == b[0]);
        let x = a.drop_first();
        let y = b.drop_first();
        assert forall|s: Seq<char>| x.contains(s) implies y.contains(s) by {
            lemma_rest(a, b, s);
        }
        assert forall|s: Seq<char>| y.contains(s) implies x.contains(s) by {
            lemma_rest(b, a, s);
        }
        law_one_order_of_sessions(x, y);
        assert(a =~= seq![a[0]] + x);
        assert(b =~= seq![b[0]] + y);
    }
}

proof fn lemma_rest(a: Seq<Seq<char>>, b: Seq<Seq<char>>, s: Seq<char>)
    requires
        a.len() > 0,
        b.len() > 0,
        ascending(a),
        a[0] == b[0],
        a.contains(s) ==> b.contains(s),
        a.drop_first().contains(s),
    ensures
        b.drop_first().contains(s),
{
    let i = choose|i: int| 0 <= i < a.drop_first().len() && a.drop_first()[i] == s;
    assert(a[i + 1] == s);
    assert(crate::order::text_before(a[0], a[i + 1]));
    crate::order::law_text_order_is_total(a[0], s);
    let j = choose|j: int| 0 <= j < b.len() && b[j] == s;
    assert(b.drop_first()[j - 1] == s);
}

/// What an import of a session's events saw.
#[derive(Debug, Clone, Copy, PartialEq, Eq, Structural)]
pub struct ImportReport {
    pub saw_stop: bool,
    pub saw_session_end: bool,
}

/// What the store says of a session. What could not be read is missing.
#[derive(Debug, Clone, Copy, PartialEq, Eq, Structural)]
pub struct SessionFacts {
    /// How many observations are waiting.
    pub backlog: Option<i64>,
    /// Whether a stop or an end of the session is waiting.
    pub unconsolidated_checkpoint: Option<bool>,
    /// Whether the session has been idle for too long, with observations waiting.
    pub idle: Option<bool>,
}

/// Whether an import saw the session stop or end. One that failed saw nothing.
pub open spec fn saw_checkpoint(import: Result<ImportReport, String>) -> bool {
    import matches Ok(report) && (report.saw_stop || report.saw_session_end)
}

/// What went wrong with an import, if anything did.
pub open spec fn import_fault(import: Result<ImportReport, String>) -> Option<Seq<char>> {
    match import {
        Ok(_) => None,
        Err(e) => Some(e@),
    }
}

/// What it means for a session that no run is due. That it has no checkpoint is known only
/// where its events could be imported.
pub open spec fn nothing_due(import_error: Option<Seq<char>>) -> SessionTickOutcome<Seq<char>> {
    match import_error {
        Some(e) => SessionTickOutcome::ImportFailed(e),
        None => SessionTickOutcome::NoCheckpoint,
    }
}

/// Whether a run is due: the session stopped or ended, by this import or an earlier one, or
/// its backlog is large, or it has been idle for too long.
pub open spec fn checkpoint_due(
    saw: bool,
    facts: Option<SessionFacts>,
    params: ConsolidationTriggerParams,
) -> bool {
    saw || (facts matches Some(f) && {
        ||| (match f.backlog {
            Some(n) => n as int,
            None => 0,
        }) >= params.queue_threshold
        ||| f.unconsolidated_checkpoint == Some(true)
        ||| f.idle == Some(true)
    })
}

fn is_due(saw: bool, facts: &Option<SessionFacts>, params: &ConsolidationTriggerParams) -> (r: bool)
    ensures
        r == checkpoint_due(saw, *facts, *params),
{
    match facts {
        None => saw,
        Some(f) => {
            let backlog: i64 = match f.backlog {
                Some(n) => n,
                None => 0,
            };
            let persisted = match f.unconsolidated_checkpoint {
                Some(b) => b,
                None => false,
            };
            let idle = match f.idle {
                Some(b) => b,
                None => false,
            };
            saw || backlog >= params.queue_threshold || persisted || idle
        },
    }
}

/// A product that stays within the range of its type.
pub open spec fn saturated(n: int) -> i64 {
    if n > i64::MAX {
        i64::MAX
    } else if n < i64::MIN {
        i64::MIN
    } else {
        n as i64
    }
}

/// How long a session may be idle, in milliseconds.
pub open spec fn idle_timeout(params: ConsolidationTriggerParams) -> i64 {
    saturated((params.idle_checkpoint_hours as i64) * 3_600_000)
}

/// How long a session may be idle, in milliseconds.
pub fn idle_timeout_ms(params: &ConsolidationTriggerParams) -> (r: i64)
    ensures
        r == idle_timeout(*params),
{
    let hours: i64 = params.idle_checkpoint_hours as i64;
    let product: i128 = hours as i128 * 3_600_000;
    if product > i64::MAX as i128 {
        i64::MAX
    } else if product < i64::MIN as i128 {
        i64::MIN
    } else {
        product as i64
    }
}

/// When the lease of a run ends that is opened at `now_ms`.
pub open spec fn lease_end(now_ms: i64, params: ConsolidationTriggerParams) -> int {
    now_ms + params.lease_ms
}

/// Until when a run that is opened now holds its lease.
pub fn lease_until(now_ms: i64, params: &ConsolidationTriggerParams) -> (r: i64)
    requires
        i64::MIN <= now_ms + params.lease_ms <= i64::MAX,
    ensures
        r == lease_end(now_ms, *params),
{
    now_ms + params.lease_ms
}

/// What opening a run gave.
#[derive(Debug, PartialEq, Eq)]
pub enum Snapshot<S = String> {
    Opened,
    Existing,
    NothingPending,
    Unconsolidatable { from_received_seq: i64, to_received_seq: i64, dead_letter_run_id: S },
    Failed(S),
}

impl View for Snapshot<String> {
    type V = Snapshot<Seq<char>>;

    open spec fn view(&self) -> Snapshot<Seq<char>> {
        match *self {
            Snapshot::Opened => Snapshot::Opened,
            Snapshot::Existing => Snapshot::Existing,
            Snapshot::NothingPending => Snapshot::NothingPending,
            Snapshot::Unconsolidatable {
                from_received_seq,
                to_received_seq,
                dead_letter_run_id,
            } => Snapshot::Unconsolidatable {
                from_received_seq,
                to_received_seq,
                dead_letter_run_id: dead_letter_run_id@,
            },
            Snapshot::Failed(e) => Snapshot::Failed(e@),
        }
    }
}

/// What not opening a run means for the session; nothing yet where one was opened.
pub open spec fn without_a_run(snapshot: Snapshot<Seq<char>>) -> Option<
    SessionTickOutcome<Seq<char>>,
> {
    match snapshot {
        Snapshot::Opened => None,
        Snapshot::Existing => Some(SessionTickOutcome::SkippedExisting),
        Snapshot::NothingPending => Some(SessionTickOutcome::NothingPending),
        Snapshot::Unconsolidatable { from_received_seq, to_received_seq, dead_letter_run_id } =>
        Some(
            SessionTickOutcome::Unconsolidatable {
                from_received_seq,
                to_received_seq,
                dead_letter_run_id,
            },
        ),
        Snapshot::Failed(e) => Some(SessionTickOutcome::OpenFailed(e)),
    }
}

/// How a run ended, or why it could not be driven to its end.
#[derive(Debug, PartialEq, Eq)]
pub enum RunEnd<S = String> {
    Ended(RunOutcome<S>),
    Broke(S),
}

impl View for RunEnd<String> {
    type V = RunEnd<Seq<char>>;

    open spec fn view(&self) -> RunEnd<Seq<char>> {
        match *self {
            RunEnd::Ended(outcome) => RunEnd::Ended(outcome@),
            RunEnd::Broke(e) => RunEnd::Broke(e@),
        }
    }
}

/// What the end of a run means for the session: one that broke counts as failed.
pub open spec fn after_the_run(end: RunEnd<Seq<char>>) -> SessionTickOutcome<Seq<char>> {
    match end {
        RunEnd::Ended(outcome) => SessionTickOutcome::Ran(outcome),
        RunEnd::Broke(e) => SessionTickOutcome::Ran(RunOutcome::Failed(e)),
    }
}

/// What a tick is doing.
#[derive(Debug, Clone, PartialEq, Eq)]
pub enum TickStage<S = String> {
    /// Taking up the runs that were interrupted.
    Recovering,
    /// Asking which sessions there are.
    Listing,
    /// Importing the events of a session.
    Importing,
    /// Asking the store about a session. Where its import failed, the store may know enough
    /// all the same.
    Reading { saw_checkpoint: bool, import_error: Option<S> },
    /// Opening a run for a session.
    Opening,
    /// Driving a run to its end.
    Running,
    /// Everything is done.
    Finished,
}

impl View for TickStage<String> {
    type V = TickStage<Seq<char>>;

    open spec fn view(&self) -> TickStage<Seq<char>> {
        match *self {
            TickStage::Recovering => TickStage::Recovering,
            TickStage::Listing => TickStage::Listing,
            TickStage::Importing => TickStage::Importing,
            TickStage::Reading { saw_checkpoint, import_error } => TickStage::Reading {
                saw_checkpoint,
                import_error: import_error.deep_view(),
            },
            TickStage::Opening => TickStage::Opening,
            TickStage::Running => TickStage::Running,
            TickStage::Finished => TickStage::Finished,
        }
    }
}

/// What happened in a tick.
#[derive(Debug, PartialEq, Eq)]
pub enum TickEvent {
    Recovered,
    /// The sessions with spooled events and those with a backlog, where they could be read.
    Listed { spool: Option<Vec<String>>, backlog: Option<Vec<String>> },
    /// The report of an import, or what went wrong with it.
    Imported(Result<ImportReport, String>),
    /// What the store says of the session, if it could be asked.
    FactsRead(Option<SessionFacts>),
    Opened(Snapshot),
    RunEnded(RunEnd),
}

/// One tick: what it is doing, the sessions it looks at, and what it did for them so far.
#[derive(Debug)]
pub struct Tick {
    pub stage: TickStage,
    pub sessions: Vec<String>,
    pub results: Vec<(String, SessionTickOutcome)>,
}

/// What a [`Tick`] stands for.
pub struct TickView {
    pub stage: TickStage<Seq<char>>,
    pub sessions: Seq<Seq<char>>,
    pub results: Seq<(Seq<char>, SessionTickOutcome<Seq<char>>)>,
}

/// The results `results` stand for.
pub open spec fn outcomes(results: Seq<(String, SessionTickOutcome)>) -> Seq<
    (Seq<char>, SessionTickOutcome<Seq<char>>),
> {
    Seq::new(results.len(), |i: int| (results[i].0@, results[i].1@))
}

impl View for Tick {
    type V = TickView;

    open spec fn view(&self) -> TickView {
        TickView {
            stage: self.stage@,
            sessions: crate::paths::chars(self.sessions@),
            results: outcomes(self.results@),
        }
    }
}

impl TickView {
    /// Every session that was looked at has one outcome, in the order of the sessions, and
    /// every session was looked at once the tick is finished.
    pub open spec fn well_formed(self) -> bool {
        &&& self.results.len() <= self.sessions.len()
        &&& forall|i: int|
            0 <= i < self.results.len() ==> (#[trigger] self.results[i]).0 == self.sessions[i]
        &&& (match self.stage {
            TickStage::Recovering | TickStage::Listing => self.sessions.len() == 0,
            TickStage::Finished => self.results.len() == self.sessions.len(),
            _ => self.results.len() < self.sessions.len(),
        })
    }

    /// The session that is being looked at is done.
    pub open spec fn conclude(self, outcome: SessionTickOutcome<Seq<char>>) -> TickView {
        let results = self.results.push((self.sessions[self.results.len() as int], outcome));
        TickView {
            stage: if results.len() < self.sessions.len() {
                TickStage::Importing
            } else {
                TickStage::Finished
            },
            results,
            ..self
        }
    }
}

/// Whether `after` is what an event makes of `before`. An event that does not belong to
/// what is being done changes nothing.
pub open spec fn tick_step(
    before: TickView,
    event: TickEvent,
    params: ConsolidationTriggerParams,
    after: TickView,
) -> bool {
    match (before.stage, event) {
        (TickStage::Recovering, TickEvent::Recovered) => after == (TickView {
            stage: TickStage::Listing,
            ..before
        }),
        (TickStage::Listing, TickEvent::Listed { spool, backlog }) => {
            &&& ascending(after.sessions)
            &&& forall|s: Seq<char>| #[trigger]
                after.sessions.contains(s) <==> (named_by(spool).contains(s) || named_by(
                    backlog,
                ).contains(s))
            &&& after.results == before.results
            &&& after.stage == if after.sessions.len() == 0 {
                TickStage::<Seq<char>>::Finished
            } else {
                TickStage::<Seq<char>>::Importing
            }
        },
        (TickStage::Importing, TickEvent::Imported(report)) => after == (TickView {
            stage: TickStage::Reading {
                saw_checkpoint: saw_checkpoint(report),
                import_error: import_fault(report),
            },
            ..before
        }),
        (TickStage::Reading { saw_checkpoint, import_error }, TickEvent::FactsRead(facts)) => after
            == if checkpoint_due(saw_checkpoint, facts, params) {
            TickView { stage: TickStage::Opening, ..before }
        } else {
            before.conclude(nothing_due(import_error))
        },
        (TickStage::Opening, TickEvent::Opened(snapshot)) => after
            == match without_a_run(snapshot@) {
            None => TickView { stage: TickStage::Running, ..before },
            Some(outcome) => before.conclude(outcome),
        },
        (TickStage::Running, TickEvent::RunEnded(end)) => after == before.conclude(
            after_the_run(end@),
        ),
        _ => after == before,
    }
}

/// The kind of job that runs in a stage of a tick, if one does.
pub open spec fn tick_job(stage: TickStage<Seq<char>>) -> Option<JobKind> {
    match stage {
        TickStage::Importing => Some(JobKind::SpoolImport),
        TickStage::Opening | TickStage::Running => Some(JobKind::ConsolidationTrigger),
        _ => None,
    }
}

/// Whether `session` is the one that is being looked at once `done` of them were.
pub open spec fn is_in_hand(
    sessions: Seq<Seq<char>>,
    done: nat,
    session: Option<Seq<char>>,
) -> bool {
    match session {
        Some(s) => done < sessions.len() && s == sessions[done as int],
        None => done >= sessions.len(),
    }
}

impl Tick {
    /// A tick of which nothing is done.
    pub fn new() -> (r: Self)
        ensures
            r@.well_formed(),
            r@ == (TickView {
                stage: TickStage::Recovering,
                sessions: Seq::empty(),
                results: Seq::empty(),
            }),
    {
        let r = Tick { stage: TickStage::Recovering, sessions: Vec::new(), results: Vec::new() };
        proof {
            assert(r@.sessions =~= Seq::empty());
            assert(r@.results =~= Seq::empty());
        }
        r
    }

    /// The session that is being looked at, if one is.
    pub fn session(&self) -> (r: Option<&String>)
        ensures
            is_in_hand(
                self@.sessions,
                self@.results.len(),
                match r {
                    Some(s) => Some(s@),
                    None => None,
                },
            ),
    {
        if self.results.len() < self.sessions.len() {
            Some(&self.sessions[self.results.len()])
        } else {
            None
        }
    }

    /// The kind of job that is running, if one is. A job is never held while a tick waits
    /// for the next, and an import is over before a run is opened.
    pub fn job(&self) -> (r: Option<JobKind>)
        ensures
            r == tick_job(self@.stage),
    {
        match &self.stage {
            TickStage::Importing => Some(JobKind::SpoolImport),
            TickStage::Opening | TickStage::Running => Some(JobKind::ConsolidationTrigger),
            _ => None,
        }
    }

    fn conclude(&mut self, outcome: SessionTickOutcome)
        requires
            old(self)@.well_formed(),
            old(self)@.results.len() < old(self)@.sessions.len(),
        ensures
            final(self)@.well_formed(),
            final(self)@ == old(self)@.conclude(outcome@),
    {
        let ghost before = self@;
        let session = self.sessions[self.results.len()].clone();
        self.results.push((session, outcome));
        self.stage = if self.results.len() < self.sessions.len() {
            TickStage::Importing
        } else {
            TickStage::Finished
        };
        proof {
            assert(self@.results =~= before.conclude(outcome@).results);
            assert(self@.sessions =~= before.sessions);
        }
    }

    /// Takes the tick one event further.
    pub fn on_event(&mut self, event: TickEvent, params: &ConsolidationTriggerParams)
        requires
            old(self)@.well_formed(),
        ensures
            final(self)@.well_formed(),
            tick_step(old(self)@, event, *params, final(self)@),
    {
        match (&self.stage, event) {
            (TickStage::Recovering, TickEvent::Recovered) => {
                self.stage = TickStage::Listing;
            },
            (TickStage::Listing, TickEvent::Listed { spool, backlog }) => {
                self.sessions = sessions_to_visit(&spool, &backlog);
                self.stage = if self.sessions.len() == 0 {
                    TickStage::Finished
                } else {
                    TickStage::Importing
                };
            },
            (TickStage::Importing, TickEvent::Imported(report)) => {
                self.stage = match report {
                    Ok(report) => TickStage::Reading {
                        saw_checkpoint: report.saw_stop || report.saw_session_end,
                        import_error: None,
                    },
                    Err(e) => TickStage::Reading { saw_checkpoint: false, import_error: Some(e) },
                };
            },
            (
                TickStage::Reading { saw_checkpoint, import_error },
                TickEvent::FactsRead(facts),
            ) => {
                if is_due(*saw_checkpoint, &facts, params) {
                    self.stage = TickStage::Opening;
                } else {
                    let outcome = match import_error {
                        Some(e) => SessionTickOutcome::ImportFailed(e.clone()),
                        None => SessionTickOutcome::NoCheckpoint,
                    };
                    self.conclude(outcome);
                }
            },
            (TickStage::Opening, TickEvent::Opened(snapshot)) => {
                match snapshot {
                    Snapshot::Opened => {
                        self.stage = TickStage::Running;
                    },
                    Snapshot::Existing => self.conclude(SessionTickOutcome::SkippedExisting),
                    Snapshot::NothingPending => self.conclude(SessionTickOutcome::NothingPending),
                    Snapshot::Unconsolidatable {
                        from_received_seq,
                        to_received_seq,
                        dead_letter_run_id,
                    } => self.conclude(
                        SessionTickOutcome::Unconsolidatable {
                            from_received_seq,
                            to_received_seq,
                            dead_letter_run_id,
                        },
                    ),
                    Snapshot::Failed(e) => self.conclude(SessionTickOutcome::OpenFailed(e)),
                }
            },
            (TickStage::Running, TickEvent::RunEnded(end)) => {
                match end {
                    RunEnd::Ended(outcome) => self.conclude(SessionTickOutcome::Ran(outcome)),
                    RunEnd::Broke(e) => self.conclude(
                        SessionTickOutcome::Ran(RunOutcome::Failed(e)),
                    ),
                }
            },
            _ => {},
        }
    }
}

/// What a tick does for a session, from the answers it gets. An answer that is not needed
/// does not count.
pub open spec fn session_outcome(
    report: Result<ImportReport, String>,
    facts: Option<SessionFacts>,
    snapshot: Snapshot<Seq<char>>,
    end: RunEnd<Seq<char>>,
    params: ConsolidationTriggerParams,
) -> SessionTickOutcome<Seq<char>> {
    if !checkpoint_due(saw_checkpoint(report), facts, params) {
        nothing_due(import_fault(report))
    } else {
        match without_a_run(snapshot) {
            Some(outcome) => outcome,
            None => after_the_run(end),
        }
    }
}

/// What becomes of a session depends on what was learnt about it, and on no other session:
/// `imported`, `read`, `opened` and `ran` are the tick after each of its events, as far as
/// it gets.
pub proof fn law_a_session_is_judged_by_its_own_facts(
    before: TickView,
    report: Result<ImportReport, String>,
    facts: Option<SessionFacts>,
    snapshot: Snapshot,
    end: RunEnd,
    params: ConsolidationTriggerParams,
    imported: TickView,
    read: TickView,
    opened: TickView,
    ran: TickView,
)
    requires
        before.stage is Importing,
        tick_step(before, TickEvent::Imported(report), params, imported),
        tick_step(imported, TickEvent::FactsRead(facts), params, read),
        tick_step(read, TickEvent::Opened(snapshot), params, opened),
        tick_step(opened, TickEvent::RunEnded(end), params, ran),
    ensures
        ran == before.conclude(session_outcome(report, facts, snapshot@, end@, params)),
{
}

/// A session whose import failed is never said to have no checkpoint: where the store knows
/// of nothing that is due, what went wrong is told, and the tick goes on with the next
/// session.
pub proof fn law_a_failed_import_is_told(
    before: TickView,
    e: String,
    facts: Option<SessionFacts>,
    params: ConsolidationTriggerParams,
    imported: TickView,
    read: TickView,
)
    requires
        before.well_formed(),
        before.stage is Importing,
        tick_step(before, TickEvent::Imported(Err(e)), params, imported),
        tick_step(imported, TickEvent::FactsRead(facts), params, read),
    ensures
        if checkpoint_due(false, facts, params) {
            read == (TickView { stage: TickStage::Opening, ..before })
        } else {
            &&& read.results == before.results.push(
                (
                    before.sessions[before.results.len() as int],
                    SessionTickOutcome::ImportFailed(e@),
                ),
            )
            &&& read.sessions == before.sessions
            &&& read.stage == if read.results.len() < read.sessions.len() {
                TickStage::<Seq<char>>::Importing
            } else {
                TickStage::<Seq<char>>::Finished
            }
        },
{
}

/// Which runs that need somebody to act were reported.
#[derive(Debug)]
pub struct ReportedRuns {
    ids: Vec<String>,
}

impl View for ReportedRuns {
    type V = Set<Seq<char>>;

    closed spec fn view(&self) -> Set<Seq<char>> {
        crate::paths::chars(self.ids@).to_set()
    }
}

impl ReportedRuns {
    /// No run was reported.
    pub fn new() -> (r: Self)
        ensures
            r@ == Set::<Seq<char>>::empty(),
    {
        let r = ReportedRuns { ids: Vec::new() };
        proof {
            assert(r@ =~= Set::empty());
        }
        r
    }

    /// Notes a run, and says whether it was not noted before.
    fn note(&mut self, id: &String) -> (r: bool)
        ensures
            r == !old(self)@.contains(id@),
            final(self)@ == old(self)@.insert(id@),
    {
        let ghost before = crate::paths::chars(self.ids@);
        let mut i: usize = 0;
        while i < self.ids.len()
            invariant
                i <= self.ids@.len(),
                before == crate::paths::chars(self.ids@),
                *self == *old(self),
                forall|j: int| 0 <= j < i ==> #[trigger] before[j] != id@,
            decreases self.ids@.len() - i,
        {
            proof {
                assert(before[i as int] == self.ids@[i as int]@);
            }
            if same(self.ids[i].as_str(), id.as_str()) {
                proof {
                    assert(before.contains(id@));
                    assert(self@ =~= self@.insert(id@));
                }
                return false;
            }
            i = i + 1;
        }
        self.ids.push(id.clone());
        proof {
            let after = crate::paths::chars(self.ids@);
            assert(after =~= before.push(id@));
            assert(!before.contains(id@));
            assert forall|s: Seq<char>| #[trigger] after.to_set().contains(s)
                <==> before.to_set().insert(id@).contains(s) by {
                if after.contains(s) {
                    let k = choose|k: int| 0 <= k < after.len() && after[k] == s;
                    if k < before.len() {
                        assert(before[k] == s);
                    }
                }
                if before.contains(s) {
                    let k = choose|k: int| 0 <= k < before.len() && before[k] == s;
                    assert(after[k] == s);
                }
                if s == id@ {
                    assert(after[before.len() as int] == s);
                }
            }
            assert(self@ =~= old(self)@.insert(id@));
        }
        true
    }
}

/// What is reported of a session after a tick, where `reported` are the runs that were
/// reported. What is routine is not reported.
pub open spec fn tick_report(
    session: Seq<char>,
    outcome: SessionTickOutcome<Seq<char>>,
    reported: Set<Seq<char>>,
) -> Option<Report<Seq<char>>> {
    match outcome {
        SessionTickOutcome::Ran(RunOutcome::Failed(reason)) => Some(
            Report::Error(
                "local-rag: consolidation run failed for session "@ + session + ": "@ + reason,
            ),
        ),
        SessionTickOutcome::OpenFailed(e) => Some(
            Report::Error(
                "local-rag: consolidation run-open failed for session "@ + session + ": "@ + e,
            ),
        ),
        SessionTickOutcome::ImportFailed(e) => Some(
            Report::Warning(
                "local-rag: consolidation tail-import failed for session "@ + session + ": "@ + e,
            ),
        ),
        SessionTickOutcome::Unconsolidatable {
            from_received_seq,
            to_received_seq,
            dead_letter_run_id,
        } => if reported.contains(dead_letter_run_id) {
            None
        } else {
            Some(
                Report::Error(
                    "local-rag: consolidation unconsolidatable for session "@ + session
                        + ", received_seq "@ + crate::text::decimal(from_received_seq as int)
                        + "..="@ + crate::text::decimal(to_received_seq as int)
                        + " (D-058 floor case, needs manual review — dead-letter run "@
                        + dead_letter_run_id + ")"@,
                ),
            )
        },
        _ => None,
    }
}

/// The runs that were reported once `outcome` is.
pub open spec fn reported_with(
    outcome: SessionTickOutcome<Seq<char>>,
    reported: Set<Seq<char>>,
) -> Set<Seq<char>> {
    match outcome {
        SessionTickOutcome::Unconsolidatable { dead_letter_run_id, .. } => reported.insert(
            dead_letter_run_id,
        ),
        _ => reported,
    }
}

/// The runs that were reported once all of `results` are.
pub open spec fn reported_after(
    results: Seq<(Seq<char>, SessionTickOutcome<Seq<char>>)>,
    reported: Set<Seq<char>>,
) -> Set<Seq<char>>
    decreases results.len(),
{
    if results.len() == 0 {
        reported
    } else {
        reported_with(results.last().1, reported_after(results.drop_last(), reported))
    }
}

/// What is reported of all of `results`, in their order.
pub open spec fn tick_reports(
    results: Seq<(Seq<char>, SessionTickOutcome<Seq<char>>)>,
    reported: Set<Seq<char>>,
) -> Seq<Report<Seq<char>>>
    decreases results.len(),
{
    if results.len() == 0 {
        Seq::empty()
    } else {
        let before = results.drop_last();
        let lines = tick_reports(before, reported);
        match tick_report(
            results.last().0,
            results.last().1,
            reported_after(before, reported),
        ) {
            Some(line) => lines.push(line),
            None => lines,
        }
    }
}

fn report_of(
    session: &String,
    outcome: &SessionTickOutcome,
    reported: &mut ReportedRuns,
) -> (r: Option<Report>)
    ensures
        final(reported)@ == reported_with(outcome@, old(reported)@),
        match r {
            Some(report) => tick_report(session@, outcome@, old(reported)@) == Some(report@),
            None => tick_report(session@, outcome@, old(reported)@) is None,
        },
{
    match outcome {
        SessionTickOutcome::Ran(RunOutcome::Failed(reason)) => Some(
            Report::Error(
                concat4(
                    "local-rag: consolidation run failed for session ",
                    session.as_str(),
                    ": ",
                    reason.as_str(),
                ),
            ),
        ),
        SessionTickOutcome::OpenFailed(e) => Some(
            Report::Error(
                concat4(
                    "local-rag: consolidation run-open failed for session ",
                    session.as_str(),
                    ": ",
                    e.as_str(),
                ),
            ),
        ),
        SessionTickOutcome::ImportFailed(e) => Some(
            Report::Warning(
                concat4(
                    "local-rag: consolidation tail-import failed for session ",
                    session.as_str(),
                    ": ",
                    e.as_str(),
                ),
            ),
        ),
        SessionTickOutcome::Unconsolidatable {
            from_received_seq,
            to_received_seq,
            dead_letter_run_id,
        } => {
            if !reported.note(dead_letter_run_id) {
                return None;
            }
            let head = concat5(
                "local-rag: consolidation unconsolidatable for session ",
                session.as_str(),
                ", received_seq ",
                decimal_i64(*from_received_seq).as_str(),
                "..=",
            );
            let line = concat5(
                head.as_str(),
                decimal_i64(*to_received_seq).as_str(),
                " (D-058 floor case, needs manual review — dead-letter run ",
                dead_letter_run_id.as_str(),
                ")",
            );
            Some(Report::Error(line))
        },
        _ => None,
    }
}

/// What is reported of the sessions after a tick. A run that needs somebody to act is
/// reported once, and not after every tick.
pub fn log_session_tick_outcomes(
    results: &Vec<(String, SessionTickOutcome)>,
    reported: &mut ReportedRuns,
) -> (r: Vec<Report>)
    ensures
        crate::report::report_lines(r@) == tick_reports(outcomes(results@), old(reported)@),
        final(reported)@ == reported_after(outcomes(results@), old(reported)@),
{
    let ghost all = outcomes(results@);
    let mut lines: Vec<Report> = Vec::new();
    let mut i: usize = 0;
    proof {
        assert(crate::report::report_lines(lines@) =~= Seq::empty());
    }
    while i < results.len()
        invariant
            i <= results@.len(),
            all == outcomes(results@),
            crate::report::report_lines(lines@) == tick_reports(all.take(i as int), old(reported)@),
            reported@ == reported_after(all.take(i as int), old(reported)@),
        decreases results@.len() - i,
    {
        proof {
            assert(all.take(i + 1).drop_last() =~= all.take(i as int));
            assert(all.take(i + 1).last() == (results@[i as int].0@, results@[i as int].1@));
        }
        let ghost before = crate::report::report_lines(lines@);
        if let Some(line) = report_of(&results[i].0, &results[i].1, reported) {
            lines.push(line);
            proof {
                assert(crate::report::report_lines(lines@) =~= before.push(line@));
            }
        }
        i = i + 1;
    }
    proof {
        assert(all.take(i as int) =~= all);
    }
    lines
}

proof fn lemma_reported_stays(
    results: Seq<(Seq<char>, SessionTickOutcome<Seq<char>>)>,
    reported: Set<Seq<char>>,
    id: Seq<char>,
)
    ensures
        reported.contains(id) ==> reported_after(results, reported).contains(id),
    decreases results.len(),
{
    if results.len() > 0 {
        lemma_reported_stays(results.drop_last(), reported, id);
    }
}

/// Whatever a tick reported of runs that need somebody to act, a later tick does not report
/// again: where all that happened is that such runs stand as they stood, it reports nothing.
pub proof fn law_a_standing_run_is_reported_once(
    results: Seq<(Seq<char>, SessionTickOutcome<Seq<char>>)>,
    reported: Set<Seq<char>>,
    later: Seq<(Seq<char>, SessionTickOutcome<Seq<char>>)>,
)
    requires
        forall|i: int|
            0 <= i < later.len() ==> (#[trigger] later[i]).1 is Unconsolidatable
                && results.contains(later[i]),
    ensures
        tick_reports(later, reported_after(results, reported)) == Seq::<Report<Seq<char>>>::empty(),
    decreases later.len(),
{
    if later.len() > 0 {
        let known = reported_after(results, reported);
        let before = later.drop_last();
        assert forall|i: int| 0 <= i < before.len() implies (#[trigger] before[i]).1 is Unconsolidatable
            && results.contains(before[i]) by {
            assert(later[i] == before[i]);
        }
        law_a_standing_run_is_reported_once(results, reported, before);
        let last = later[later.len() - 1];
        let id = last.1->dead_letter_run_id;
        let k = choose|k: int| 0 <= k < results.len() && results[k] == last;
        lemma_reported_at(results, reported, k, id);
        lemma_reported_stays(before, known, id);
    }
}

proof fn lemma_reported_at(
    results: Seq<(Seq<char>, SessionTickOutcome<Seq<char>>)>,
    reported: Set<Seq<char>>,
    k: int,
    id: Seq<char>,
)
    requires
        0 <= k < results.len(),
        results[k].1 is Unconsolidatable,
        results[k].1->dead_letter_run_id == id,
    ensures
        reported_after(results, reported).contains(id),
    decreases results.len(),
{
    if k < results.len() - 1 {
        lemma_reported_at(results.drop_last(), reported, k, id);
    }
}

/// Whether the write-ahead log is cut back after a tick: it is above its threshold, and no
/// worktree is being reconciled, which would go on reading from it.
pub open spec fn truncates(
    wal_bytes: u64,
    threshold_bytes: u64,
    running: Map<u64, JobKind>,
) -> bool {
    wal_bytes > threshold_bytes && !exists|token: u64| #[trigger]
        running.contains_key(token) && running[token] is Reconcile
}

/// Whether the write-ahead log is cut back after a tick.
pub fn maybe_truncate_wal(wal_bytes: u64, threshold_bytes: u64, jobs: &JobRegistry) -> (r: bool)
    ensures
        r <==> truncates(wal_bytes, threshold_bytes, jobs@.running),
{
    let kinds = [JobKind::Reconcile];
    let reconciling = jobs.any_running(&kinds);
    proof {
        assert(kinds@[0] is Reconcile);
        assert forall|kind: JobKind| #[trigger] kinds@.contains(kind) <==> kind is Reconcile by {
            if kind is Reconcile {
                assert(kinds@[0] == kind);
            }
        }
    }
    wal_bytes > threshold_bytes && !reconciling
}

/// A backlog that has reached the threshold, or is above it, opens a run, whatever else is known
/// of the session.
pub proof fn law_a_large_backlog_opens_a_run(
    before: TickView,
    facts: SessionFacts,
    n: i64,
    params: ConsolidationTriggerParams,
    after: TickView,
)
    requires
        before.stage is Reading,
        facts.backlog == Some(n),
        n >= params.queue_threshold,
        tick_step(before, TickEvent::FactsRead(Some(facts)), params, after),
    ensures
        after.stage is Opening,
        after.sessions == before.sessions,
        after.results == before.results,
{
}

/// A backlog that grows never makes a run less due: what opens a run with fewer observations
/// waiting opens one with more.
pub proof fn law_a_growing_backlog_stays_due(
    before: TickView,
    fewer: SessionFacts,
    more: SessionFacts,
    n: i64,
    m: i64,
    params: ConsolidationTriggerParams,
    after_fewer: TickView,
    after_more: TickView,
)
    requires
        before.stage is Reading,
        fewer.backlog == Some(n),
        more.backlog == Some(m),
        n <= m,
        fewer.unconsolidated_checkpoint == more.unconsolidated_checkpoint,
        fewer.idle == more.idle,
        after_fewer.stage is Opening,
        tick_step(before, TickEvent::FactsRead(Some(fewer)), params, after_fewer),
        tick_step(before, TickEvent::FactsRead(Some(more)), params, after_more),
    ensures
        after_more.stage is Opening,
{
}

/// A session that stopped or ended opens a run: where the import saw it, whatever the store
/// says and whether or not it can be asked, and where the store knows of it. So does one that
/// was idle for too long.
pub proof fn law_a_checkpoint_opens_a_run(
    before: TickView,
    facts: Option<SessionFacts>,
    params: ConsolidationTriggerParams,
    after: TickView,
)
    requires
        before.stage matches TickStage::Reading { saw_checkpoint, .. } && (saw_checkpoint || (
        facts matches Some(f) && (f.unconsolidated_checkpoint == Some(true) || f.idle == Some(
            true,
        )))),
        tick_step(before, TickEvent::FactsRead(facts), params, after),
    ensures
        after.stage is Opening,
        after.sessions == before.sessions,
        after.results == before.results,
{
}

/// Nothing else opens a run: a session without a checkpoint, whose backlog is below the
/// threshold, has no run opened, is said to have no checkpoint or told why its import failed,
/// and the tick goes on with the session after it.
pub proof fn law_nothing_else_opens_a_run(
    before: TickView,
    saw: bool,
    import_error: Option<Seq<char>>,
    facts: Option<SessionFacts>,
    params: ConsolidationTriggerParams,
    after: TickView,
)
    requires
        before.well_formed(),
        before.stage == (TickStage::Reading { saw_checkpoint: saw, import_error }),
        !saw,
        facts matches Some(f) ==> {
            &&& f.backlog matches Some(n) ==> n < params.queue_threshold
            &&& f.backlog is None ==> 0 < params.queue_threshold
            &&& f.unconsolidated_checkpoint != Some(true)
            &&& f.idle != Some(true)
        },
        tick_step(before, TickEvent::FactsRead(facts), params, after),
    ensures
        after.stage !is Opening,
        after.sessions == before.sessions,
        after.results.len() == before.results.len() + 1,
        after.results.drop_last() == before.results,
        after.results.last().0 == before.sessions[before.results.len() as int],
        import_error is None ==> after.results.last().1 is NoCheckpoint,
        import_error matches Some(e) ==> after.results.last().1 == (
        SessionTickOutcome::ImportFailed(e)),
        after.stage is Finished <==> after.results.len() == before.sessions.len(),
        after.stage is Importing <==> after.results.len() < before.sessions.len(),
{
    assert(after.results.drop_last() =~= before.results);
}

/// An import that saw the session stop, or end, is remembered until the facts are read. One that
/// failed saw neither, and what went wrong is remembered.
pub proof fn law_an_import_is_remembered(
    before: TickView,
    report: ImportReport,
    e: String,
    params: ConsolidationTriggerParams,
    imported: TickView,
    failed: TickView,
)
    requires
        before.stage is Importing,
        tick_step(before, TickEvent::Imported(Ok(report)), params, imported),
        tick_step(before, TickEvent::Imported(Err(e)), params, failed),
    ensures
        imported.stage matches TickStage::Reading { saw_checkpoint, import_error } && (
        saw_checkpoint <==> report.saw_stop || report.saw_session_end) && import_error is None,
        failed.stage matches TickStage::Reading { saw_checkpoint, import_error }
            && !saw_checkpoint && import_error == Some(e@),
        imported.sessions == before.sessions && imported.results == before.results,
        failed.sessions == before.sessions && failed.results == before.results,
{
}

/// A tick recovers first, then asks for the sessions, and then visits every session that either
/// source names, and no other. With none to visit it is finished.
pub proof fn law_a_tick_visits_every_session(
    before: TickView,
    spool: Option<Vec<String>>,
    backlog: Option<Vec<String>>,
    params: ConsolidationTriggerParams,
    recovered: TickView,
    listed: TickView,
    k: int,
)
    requires
        before.stage is Recovering,
        tick_step(before, TickEvent::Recovered, params, recovered),
        tick_step(recovered, TickEvent::Listed { spool, backlog }, params, listed),
    ensures
        recovered.stage is Listing,
        recovered.sessions == before.sessions && recovered.results == before.results,
        listed.results == before.results,
        spool matches Some(named) ==> (0 <= k < named@.len() ==> listed.sessions.contains(
            named@[k]@,
        )),
        backlog matches Some(named) ==> (0 <= k < named@.len() ==> listed.sessions.contains(
            named@[k]@,
        )),
        0 <= k < listed.sessions.len() ==> ({
            ||| spool matches Some(named) && exists|i: int|
                0 <= i < named@.len() && (#[trigger] named@[i])@ == listed.sessions[k]
            ||| backlog matches Some(named) && exists|i: int|
                0 <= i < named@.len() && (#[trigger] named@[i])@ == listed.sessions[k]
        }),
        listed.sessions.len() == 0 <==> listed.stage is Finished,
        listed.sessions.len() > 0 <==> listed.stage is Importing,
{
    if spool is Some && 0 <= k < spool->Some_0@.len() {
        assert(named_by(spool)[k] == spool->Some_0@[k]@);
        assert(named_by(spool).contains(spool->Some_0@[k]@));
    }
    if backlog is Some && 0 <= k < backlog->Some_0@.len() {
        assert(named_by(backlog)[k] == backlog->Some_0@[k]@);
        assert(named_by(backlog).contains(backlog->Some_0@[k]@));
    }
    if 0 <= k < listed.sessions.len() {
        let s = listed.sessions[k];
        assert(listed.sessions.contains(s));
        if named_by(spool).contains(s) {
            let i = choose|i: int| 0 <= i < named_by(spool).len() && named_by(spool)[i] == s;
            assert(spool->Some_0@[i]@ == s);
        } else {
            let i = choose|i: int| 0 <= i < named_by(backlog).len() && named_by(backlog)[i] == s;
            assert(backlog->Some_0@[i]@ == s);
        }
    }
}

/// A run that was opened is driven to its end. Where none was, the session's outcome says why.
pub proof fn law_opening_a_run_is_told(
    before: TickView,
    snapshot: Snapshot,
    params: ConsolidationTriggerParams,
    after: TickView,
)
    requires
        before.stage is Opening,
        before.well_formed(),
        tick_step(before, TickEvent::Opened(snapshot), params, after),
    ensures
        after.sessions == before.sessions,
        after.stage is Running <==> snapshot is Opened,
        snapshot is Opened ==> after.results == before.results,
        snapshot !is Opened ==> after.results.len() == before.results.len() + 1
            && after.results.last().0 == before.sessions[before.results.len() as int],
        snapshot is Existing ==> after.results.last().1 is SkippedExisting,
        snapshot is NothingPending ==> after.results.last().1 is NothingPending,
        snapshot matches Snapshot::Failed(e) ==> after.results.last().1 == (
        SessionTickOutcome::OpenFailed(e@)),
        snapshot matches Snapshot::Unconsolidatable {
            from_received_seq,
            to_received_seq,
            dead_letter_run_id,
        } ==> after.results.last().1 == (SessionTickOutcome::Unconsolidatable {
            from_received_seq,
            to_received_seq,
            dead_letter_run_id: dead_letter_run_id@,
        }),
{
}

/// A run that ended is told as it ended, and one that broke as failed, for that reason.
pub proof fn law_the_end_of_a_run_is_told(
    before: TickView,
    end: RunEnd,
    params: ConsolidationTriggerParams,
    after: TickView,
)
    requires
        before.stage is Running,
        before.well_formed(),
        tick_step(before, TickEvent::RunEnded(end), params, after),
    ensures
        after.sessions == before.sessions,
        after.results.len() == before.results.len() + 1,
        after.results.last().0 == before.sessions[before.results.len() as int],
        end matches RunEnd::Ended(RunOutcome::Applied) ==> after.results.last().1 == (
        SessionTickOutcome::Ran(RunOutcome::<Seq<char>>::Applied)),
        end matches RunEnd::Ended(RunOutcome::Failed(e)) ==> after.results.last().1 == (
        SessionTickOutcome::Ran(RunOutcome::Failed(e@))),
        end matches RunEnd::Broke(e) ==> after.results.last().1 == (SessionTickOutcome::Ran(
            RunOutcome::Failed(e@),
        )),
{
}

/// An event that does not belong to what a tick is doing changes nothing.
pub proof fn law_a_stray_event_changes_nothing(
    before: TickView,
    event: TickEvent,
    params: ConsolidationTriggerParams,
    after: TickView,
)
    requires
        !(before.stage is Recovering && event is Recovered),
        !(before.stage is Listing && event is Listed),
        !(before.stage is Importing && event is Imported),
        !(before.stage is Reading && event is FactsRead),
        !(before.stage is Opening && event is Opened),
        !(before.stage is Running && event is RunEnded),
        tick_step(before, event, params, after),
    ensures
        after == before,
{
}

/// While a tick waits it holds no job. It holds an import's while it imports, and
/// consolidation's from the opening of a run to its end.
pub proof fn law_a_tick_holds_the_job_it_does(stage: TickStage<Seq<char>>)
    ensures
        tick_job(stage) == Some(JobKind::SpoolImport) <==> stage is Importing,
        tick_job(stage) == Some(JobKind::ConsolidationTrigger) <==> stage is Opening
            || stage is Running,
        tick_job(stage) is None <==> stage is Recovering || stage is Listing || stage is Reading
            || stage is Finished,
{
}

/// A session counts as idle after as many hours as the parameters say, or never where that is
/// longer than can be written down.
pub proof fn law_idle_hours_are_hours(params: ConsolidationTriggerParams)
    requires
        params.idle_checkpoint_hours <= i64::MAX,
    ensures
        params.idle_checkpoint_hours * 3_600_000 <= i64::MAX ==> idle_timeout(params)
            == params.idle_checkpoint_hours * 3_600_000,
        params.idle_checkpoint_hours * 3_600_000 > i64::MAX ==> idle_timeout(params) == i64::MAX,
{
}

/// The log is cut back exactly where it is longer than it may be and nothing reconciles. No
/// other job keeps it from being cut back.
pub proof fn law_the_log_is_cut_back_between_reconciles(
    wal_bytes: u64,
    threshold_bytes: u64,
    running: Map<u64, JobKind>,
    token: u64,
)
    ensures
        wal_bytes <= threshold_bytes ==> !truncates(wal_bytes, threshold_bytes, running),
        running.contains_key(token) && running[token] is Reconcile ==> !truncates(
            wal_bytes,
            threshold_bytes,
            running,
        ),
        wal_bytes > threshold_bytes && (forall|t: u64| #[trigger]
            running.contains_key(t) ==> running[t] !is Reconcile) ==> truncates(
            wal_bytes,
            threshold_bytes,
            running,
        ),
{
}

/// What needs somebody's attention is reported, and what is routine is not: a run that failed
/// or was not opened is an error, a failed import a warning. A run that needs somebody to act is
/// an error the first time and not reported again. Each line ends with its reason.
pub proof fn law_what_a_tick_reports(
    session: Seq<char>,
    outcome: SessionTickOutcome<Seq<char>>,
    reported: Set<Seq<char>>,
)
    ensures
        ({
            let line = tick_report(session, outcome, reported);
            &&& outcome is NoCheckpoint || outcome is SkippedExisting || outcome is NothingPending
                || outcome == SessionTickOutcome::Ran(RunOutcome::<Seq<char>>::Applied)
                ==> line is None
            &&& outcome matches SessionTickOutcome::Ran(RunOutcome::Failed(e)) ==> (
            line matches Some(Report::Error(text)) && text.skip(text.len() - e.len()) == e)
            &&& outcome matches SessionTickOutcome::OpenFailed(e) ==> (
            line matches Some(Report::Error(text)) && text.skip(text.len() - e.len()) == e)
            &&& outcome matches SessionTickOutcome::ImportFailed(e) ==> (
            line matches Some(Report::Warning(text)) && text.skip(text.len() - e.len()) == e)
            &&& outcome matches SessionTickOutcome::Unconsolidatable { dead_letter_run_id, .. }
                ==> {
                &&& reported.contains(dead_letter_run_id) ==> line is None
                &&& !reported.contains(dead_letter_run_id) ==> line is Some && line->Some_0 is Error
                &&& reported_with(outcome, reported).contains(dead_letter_run_id)
            }
            &&& outcome !is Unconsolidatable ==> reported_with(outcome, reported) == reported
            &&& forall|id: Seq<char>|
                reported.contains(id) ==> reported_with(outcome, reported).contains(id)
        }),
{
    match outcome {
        SessionTickOutcome::Ran(RunOutcome::Failed(e)) => {
            let text = tick_report(session, outcome, reported)->Some_0->Error_0;
            assert(text.skip(text.len() - e.len()) =~= e);
        },
        SessionTickOutcome::OpenFailed(e) => {
            let text = tick_report(session, outcome, reported)->Some_0->Error_0;
            assert(text.skip(text.len() - e.len()) =~= e);
        },
        SessionTickOutcome::ImportFailed(e) => {
            let text = tick_report(session, outcome, reported)->Some_0->Warning_0;
            assert(text.skip(text.len() - e.len()) =~= e);
        },
        _ => {},
    }
}

/// What is reported of several sessions is what is reported of each, in their order: one line at
/// most for each, and none is left out.
pub proof fn law_every_session_is_reported_in_turn(
    results: Seq<(Seq<char>, SessionTickOutcome<Seq<char>>)>,
    next: (Seq<char>, SessionTickOutcome<Seq<char>>),
    reported: Set<Seq<char>>,
)
    ensures
        ({
            let known = reported_after(results, reported);
            let lines = tick_reports(results, reported);
            let all = tick_reports(results.push(next), reported);
            &&& lines.len() <= results.len()
            &&& tick_report(next.0, next.1, known) is None ==> all == lines
            &&& tick_report(next.0, next.1, known) matches Some(line) ==> all == lines.push(line)
        }),
    decreases results.len(),
{
    assert(results.push(next).drop_last() =~= results);
    if results.len() > 0 {
        law_every_session_is_reported_in_turn(results.drop_last(), results.last(), reported);
        assert(results.drop_last().push(results.last()) =~= results);
    }
}

/// A lease lasts as long as it is set to.
pub proof fn law_a_lease_lasts_as_long_as_it_is_set_to(
    now_ms: i64,
    params: ConsolidationTriggerParams,
)
    ensures
        lease_end(now_ms, params) - now_ms == params.lease_ms,
{
}

/// The session in hand is the first that was not looked at yet: each is in hand once, in its
/// place, and none is once all were looked at.
pub proof fn law_sessions_are_taken_in_turn(
    sessions: Seq<Seq<char>>,
    done: nat,
    session: Option<Seq<char>>,
)
    requires
        is_in_hand(sessions, done, session),
    ensures
        session is Some <==> done < sessions.len(),
        session matches Some(s) ==> sessions.skip(done as int).first() == s,
        done == 0 && sessions.len() > 0 ==> session == Some(sessions.first()),
{
}

} // verus!
