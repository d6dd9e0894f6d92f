//! The background jobs that are running.

use vstd::prelude::*;

use std::collections::HashMap;

verus! {

/// What a background job does.
#[derive(Debug, Clone, Copy, PartialEq, Eq, Hash, Structural)]
#[non_exhaustive]
pub enum JobKind {
    /// Imports what was spooled.
    SpoolImport,
    /// Takes up consolidation runs that were left behind.
    ConsolidationResume,
    /// Opens consolidation windows.
    ConsolidationTrigger,
    /// Serves a generation of a worktree.
    Reconcile,
    /// Removes what is no longer needed.
    Gc,
    /// Brings memory to one language.
    Normalization,
}

/// The jobs that are running, each under the token it was started with.
#[derive(Debug)]
pub struct JobRegistry {
    jobs: HashMap<u64, JobKind>,
    next_token: u64,
}

/// Stands for one running job until it is handed back. Only the registry makes one.
#[derive(Debug, PartialEq, Eq)]
pub struct JobGuard {
    kind: JobKind,
    token: u64,
}

impl JobGuard {
    /// The token of the job that this guard stands for.
    pub closed spec fn token(self) -> u64 {
        self.token
    }

    /// What the job does.
    pub closed spec fn does(self) -> JobKind {
        self.kind
    }

    /// What the job does.
    pub fn kind(&self) -> (r: JobKind)
        ensures
            r == self.does(),
    {
        self.kind
    }
}

/// What a [`JobRegistry`] stands for: the jobs that are running, and the token that the next
/// one gets.
pub struct JobsView {
    pub running: Map<u64, JobKind>,
    pub next: u64,
}

impl View for JobRegistry {
    type V = JobsView;

    closed spec fn view(&self) -> JobsView {
        JobsView { running: self.jobs@, next: self.next_token }
    }
}

impl JobsView {
    /// No token that is in use is given out again.
    pub open spec fn well_formed(self) -> bool {
        &&& self.running.dom().finite()
        &&& forall|token: u64| #[trigger] self.running.contains_key(token) ==> token < self.next
    }

    /// The registry once a job of `kind` has started.
    pub open spec fn begun(self, kind: JobKind) -> JobsView {
        JobsView { running: self.running.insert(self.next, kind), next: (self.next + 1) as u64 }
    }

    /// The registry once the job with `token` has ended.
    pub open spec fn finished(self, token: u64) -> JobsView {
        JobsView { running: self.running.remove(token), next: self.next }
    }
}

/// One thing that is done to a registry.
pub enum JobStep {
    /// A job of `kind` starts.
    Begin { kind: JobKind },
    /// The guard with `token` is handed back.
    Finish { token: u64 },
}

/// How many jobs `history` starts.
pub open spec fn begins(history: Seq<JobStep>) -> nat
    decreases history.len(),
{
    if history.len() == 0 {
        0
    } else {
        begins(history.drop_last()) + (if history.last() is Begin {
            1nat
        } else {
            0nat
        })
    }
}

/// How many guards `history` hands back.
pub open spec fn finishes(history: Seq<JobStep>) -> nat {
    (history.len() - begins(history)) as nat
}

/// What a new registry becomes by `history`.
pub open spec fn registry_after(history: Seq<JobStep>) -> JobsView
    decreases history.len(),
{
    if history.len() == 0 {
        JobsView { running: Map::empty(), next: 0 }
    } else {
        let before = registry_after(history.drop_last());
        match history.last() {
            JobStep::Begin { kind } => before.begun(kind),
            JobStep::Finish { token } => before.finished(token),
        }
    }
}

/// The tokens of the guards that `history` gives out and does not get back.
pub open spec fn guards(history: Seq<JobStep>) -> Set<u64>
    decreases history.len(),
{
    if history.len() == 0 {
        Set::empty()
    } else {
        let before = history.drop_last();
        match history.last() {
            JobStep::Begin { .. } => guards(before).insert(begins(before) as u64),
            JobStep::Finish { token } => guards(before).remove(token),
        }
    }
}

/// Whether every guard that `history` hands back is one that it held.
pub open spec fn hands_back_its_own(history: Seq<JobStep>) -> bool
    decreases history.len(),
{
    history.len() == 0 || {
        &&& hands_back_its_own(history.drop_last())
        &&& history.last() matches JobStep::Finish { token } ==> guards(
            history.drop_last(),
        ).contains(token)
    }
}

/// Whether one of `jobs` is of one of `kinds`.
pub open spec fn running(jobs: Map<u64, JobKind>, kinds: Seq<JobKind>) -> bool {
    exists|token: u64| #[trigger] jobs.contains_key(token) && kinds.contains(jobs[token])
}

impl JobRegistry {
    /// A registry without jobs.
    pub fn new() -> (r: Self)
        ensures
            r@.well_formed(),
            r@ == registry_after(Seq::empty()),
    {
        JobRegistry { jobs: HashMap::new(), next_token: 0 }
    }

    /// Notes that a job has started. Hold the guard for as long as the job takes, waiting
    /// included, and hand it back with [`finish`](Self::finish).
    pub fn begin(&mut self, kind: JobKind) -> (guard: JobGuard)
        requires
            old(self)@.well_formed(),
            old(self)@.next < u64::MAX,
        ensures
            final(self)@.well_formed(),
            guard.token() == old(self)@.next,
            guard.does() == kind,
            final(self)@ == old(self)@.begun(kind),
            forall|history: Seq<JobStep>|
                old(self)@ == #[trigger] registry_after(history) ==> final(self)@ == registry_after(
                    history.push(JobStep::Begin { kind }),
                ),
    {
        broadcast use vstd::std_specs::hash::group_hash_axioms;

        let token: u64 = self.next_token;
        self.next_token = token + 1;
        self.jobs.insert(token, kind);
        proof {
            assert forall|history: Seq<JobStep>|
                old(self)@ == #[trigger] registry_after(history) implies self@ == registry_after(
                history.push(JobStep::Begin { kind }),
            ) by {
                assert(history.push(JobStep::Begin { kind }).drop_last() =~= history);
            }
        }
        JobGuard { kind, token }
    }

    /// Notes that a job has ended.
    pub fn finish(&mut self, guard: JobGuard)
        requires
            old(self)@.well_formed(),
        ensures
            final(self)@.well_formed(),
            final(self)@ == old(self)@.finished(guard.token()),
            forall|history: Seq<JobStep>|
                old(self)@ == #[trigger] registry_after(history) ==> final(self)@ == registry_after(
                    history.push(JobStep::Finish { token: guard.token() }),
                ),
    {
        broadcast use vstd::std_specs::hash::group_hash_axioms;

        self.jobs.remove(&guard.token);
        proof {
            assert forall|history: Seq<JobStep>|
                old(self)@ == #[trigger] registry_after(history) implies self@ == registry_after(
                history.push(JobStep::Finish { token: guard.token() }),
            ) by {
                assert(history.push(JobStep::Finish { token: guard.token() }).drop_last()
                    =~= history);
            }
        }
    }

    /// How many jobs are running.
    pub fn len(&self) -> (n: usize)
        ensures
            n == self@.running.len(),
    {
        broadcast use vstd::std_specs::hash::group_hash_axioms;

        self.jobs.len()
    }

    /// Whether no job is running.
    pub fn is_empty(&self) -> (r: bool)
        ensures
            r <==> self@.running.len() == 0,
    {
        self.len() == 0
    }

    /// Whether a job of one of `kinds` is running.
    pub fn any_running(&self, kinds: &[JobKind]) -> (r: bool)
        ensures
            r <==> running(self@.running, kinds@),
    {
        broadcast use vstd::std_specs::hash::group_hash_axioms;

        for kind in it: self.jobs.values()
            invariant
                it.seq().unref().to_set() == self.jobs@.values(),
                forall|j: int| 0 <= j < it.index() ==> !kinds@.contains(*(#[trigger] it.seq()[j])),
        {
            if is_among(*kind, kinds) {
                proof {
                    let all = it.seq().unref();
                    assert(all[it.index()] == *kind);
                    assert(all.to_set().contains(*kind));
                }
                return true;
            }
        }
        proof {
            let all = self.jobs@.values();
            assert forall|token: u64| #[trigger] self.jobs@.contains_key(
                token,
            ) implies !kinds@.contains(self.jobs@[token]) by {
                assert(all.contains(self.jobs@[token]));
            }
        }
        false
    }
}

/// Whether `kind` is one of `kinds`.
fn is_among(kind: JobKind, kinds: &[JobKind]) -> (r: bool)
    ensures
        r == kinds@.contains(kind),
{
    let mut k: usize = 0;
    while k < kinds.len()
        invariant
            k <= kinds.len(),
            forall|m: int| 0 <= m < k ==> kinds@[m] != kind,
        decreases kinds.len() - k,
    {
        if kinds[k] == kind {
            proof {
                assert(kinds@[k as int] == kind);
            }
            return true;
        }
        k = k + 1;
    }
    false
}

/// After any history a registry runs one job for each guard that was given out and not handed
/// back, and no other: its length is the number of those guards. Where only guards that were
/// given out are handed back, that is the jobs started less the jobs ended.
pub proof fn law_each_guard_is_one_job(history: Seq<JobStep>)
    requires
        begins(history) <= u64::MAX,
    ensures
        registry_after(history).running.dom() == guards(history),
        registry_after(history).running.len() == guards(history).len(),
        registry_after(history).next == begins(history),
        registry_after(history).well_formed(),
        hands_back_its_own(history) ==> registry_after(history).running.len() + finishes(history)
            == begins(history),
        begins(history) <= history.len(),
    decreases history.len(),
{
    if history.len() > 0 {
        law_each_guard_is_one_job(history.drop_last());
        assert(registry_after(history).running.dom() =~= guards(history));
    } else {
        assert(registry_after(history).running.dom() =~= guards(history));
    }
}

/// Ending the job that was started last leaves the jobs that were there before it.
pub proof fn law_finish_undoes_begin(before: JobsView, kind: JobKind)
    requires
        before.well_formed(),
    ensures
        before.begun(kind).finished(before.next).running == before.running,
{
    assert(before.begun(kind).finished(before.next).running =~= before.running);
}

/// Two jobs never share a token, not even when they are of one kind: a job that starts takes
/// the place of none, and ending it leaves every other running.
pub proof fn law_jobs_do_not_collide(before: JobsView, kind: JobKind, other: u64)
    requires
        before.well_formed(),
        before.running.contains_key(other),
    ensures
        other != before.next,
        before.begun(kind).running.len() == before.running.len() + 1,
        before.begun(kind).running.contains_key(other),
        before.begun(kind).finished(before.next).running.contains_key(other),
        before.begun(kind).finished(other).running.contains_key(before.next),
{
}

/// A job that starts runs as what it is, under the token it was given, and leaves every other
/// job what it was. One that ends no longer runs, and no other ends with it.
pub proof fn law_a_job_runs_as_what_it_is(
    before: JobsView,
    kind: JobKind,
    token: u64,
    other: u64,
)
    ensures
        before.begun(kind).running.contains_key(before.next),
        before.begun(kind).running[before.next] == kind,
        other != before.next ==> (before.begun(kind).running.contains_key(other)
            <==> before.running.contains_key(other)),
        other != before.next && before.running.contains_key(other) ==> before.begun(
            kind,
        ).running[other] == before.running[other],
        before.next < u64::MAX ==> before.begun(kind).next == before.next + 1,
        !before.finished(token).running.contains_key(token),
        other != token ==> (before.finished(token).running.contains_key(other)
            <==> before.running.contains_key(other)),
        other != token && before.running.contains_key(other) ==> before.finished(
            token,
        ).running[other] == before.running[other],
        before.finished(token).next == before.next,
{
}

/// A kind of job is running exactly where a job of that kind is.
pub proof fn law_a_kind_is_running_where_a_job_of_it_is(
    jobs: Map<u64, JobKind>,
    kinds: Seq<JobKind>,
    token: u64,
    k: int,
)
    ensures
        jobs.contains_key(token) && 0 <= k < kinds.len() && jobs[token] == kinds[k] ==> running(
            jobs,
            kinds,
        ),
        (forall|t: u64, i: int|
            #![trigger jobs.contains_key(t), kinds[i]]
            jobs.contains_key(t) && 0 <= i < kinds.len() ==> jobs[t] != kinds[i]) ==> !running(
            jobs,
            kinds,
        ),
{
    if jobs.contains_key(token) && 0 <= k < kinds.len() && jobs[token] == kinds[k] {
        assert(kinds.contains(jobs[token]));
    }
    if running(jobs, kinds) {
        let t = choose|t: u64| #[trigger] jobs.contains_key(t) && kinds.contains(jobs[t]);
        let i = choose|i: int| 0 <= i < kinds.len() && kinds[i] == jobs[t];
        assert(jobs.contains_key(t) && kinds[i] == jobs[t]);
    }
}

} // verus!
