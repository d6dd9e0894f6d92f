//! The closed vocabularies of the daemon: kinds, states, scopes, modes and signals, each
//! with the name it goes by in requests and answers.

use vstd::prelude::*;

use crate::text::same;

verus! {

/// A value that goes by a name in requests.
pub trait Named: Sized {
    /// The value that goes by `text`, where there is one.
    spec fn named(text: Seq<char>) -> Option<Self>;

    /// The value that goes by `text`, where there is one.
    fn from_text(text: &str) -> (r: Option<Self>)
        ensures
            r == Self::named(text@),
    ;
}

/// On whose behalf memory is changed.
#[derive(Debug, Clone, Copy, PartialEq, Eq, Structural)]
pub enum Actor {
    /// Someone who called a tool.
    User,
    /// The daemon itself.
    System,
    /// The model that routes observations.
    Router,
}

/// What an observation rests on.
#[derive(Debug, Clone, Copy, PartialEq, Eq, Structural)]
#[non_exhaustive]
pub enum EvidenceKind {
    /// A user said so.
    UserStatement,
    /// A model said so.
    ModelClaim,
}

/// How far an observation is trusted.
#[derive(Debug, Clone, Copy, PartialEq, Eq, Structural)]
#[non_exhaustive]
pub enum TrustLevel {
    Normal,
}

/// What kind of statement a memory entry makes.
#[derive(Debug, Clone, Copy, PartialEq, Eq, Structural)]
pub enum MemoryKind {
    Fact,
    Decision,
    Convention,
    Procedure,
    Task,
    Question,
    Hypothesis,
}

impl MemoryKind {
    /// The name of the value.
    pub open spec fn name(self) -> Seq<char> {
        match self {
            MemoryKind::Fact => "fact"@,
            MemoryKind::Decision => "decision"@,
            MemoryKind::Convention => "convention"@,
            MemoryKind::Procedure => "procedure"@,
            MemoryKind::Task => "task"@,
            MemoryKind::Question => "question"@,
            MemoryKind::Hypothesis => "hypothesis"@,
        }
    }

    /// The name of the value.
    pub fn as_str(self) -> (r: &'static str)
        ensures
            r@ == self.name(),
    {
        match self {
            MemoryKind::Fact => "fact",
            MemoryKind::Decision => "decision",
            MemoryKind::Convention => "convention",
            MemoryKind::Procedure => "procedure",
            MemoryKind::Task => "task",
            MemoryKind::Question => "question",
            MemoryKind::Hypothesis => "hypothesis",
        }
    }
}

impl Named for MemoryKind {
    open spec fn named(text: Seq<char>) -> Option<Self> {
        if text == "fact"@ {
            Some(MemoryKind::Fact)
        } else if text == "decision"@ {
            Some(MemoryKind::Decision)
        } else if text == "convention"@ {
            Some(MemoryKind::Convention)
        } else if text == "procedure"@ {
            Some(MemoryKind::Procedure)
        } else if text == "task"@ {
            Some(MemoryKind::Task)
        } else if text == "question"@ {
            Some(MemoryKind::Question)
        } else if text == "hypothesis"@ {
            Some(MemoryKind::Hypothesis)
        } else {
            None
        }
    }

    fn from_text(text: &str) -> (r: Option<Self>) {
        if same(text, "fact") {
            Some(MemoryKind::Fact)
        } else if same(text, "decision") {
            Some(MemoryKind::Decision)
        } else if same(text, "convention") {
            Some(MemoryKind::Convention)
        } else if same(text, "procedure") {
            Some(MemoryKind::Procedure)
        } else if same(text, "task") {
            Some(MemoryKind::Task)
        } else if same(text, "question") {
            Some(MemoryKind::Question)
        } else if same(text, "hypothesis") {
            Some(MemoryKind::Hypothesis)
        } else {
            None
        }
    }
}

/// A [`MemoryKind`] is read back from its name, and from no other text.
pub proof fn law_memory_kind_names(value: MemoryKind, text: Seq<char>)
    ensures
        MemoryKind::named(value.name()) == Some(value),
        MemoryKind::named(text) == Some(value) ==> text == value.name(),
{
    reveal_strlit("fact");
    reveal_strlit("decision");
    reveal_strlit("convention");
    reveal_strlit("procedure");
    reveal_strlit("task");
    reveal_strlit("question");
    reveal_strlit("hypothesis");
    assert("fact"@.len() == 4);
    assert("fact"@[0] == 'f');
    assert("decision"@.len() == 8);
    assert("decision"@[0] == 'd');
    assert("convention"@.len() == 10);
    assert("convention"@[0] == 'c');
    assert("procedure"@.len() == 9);
    assert("task"@.len() == 4);
    assert("task"@[0] == 't');
    assert("question"@.len() == 8);
    assert("question"@[0] == 'q');
    assert("hypothesis"@.len() == 10);
    assert("hypothesis"@[0] == 'h');
}

/// Where a memory entry stands in its life.
#[derive(Debug, Clone, Copy, PartialEq, Eq, Structural)]
pub enum MemoryState {
    Active,
    Resolved,
    Retracted,
    Confirmed,
    Rejected,
    Superseded,
}

impl MemoryState {
    /// The name of the value.
    pub open spec fn name(self) -> Seq<char> {
        match self {
            MemoryState::Active => "active"@,
            MemoryState::Resolved => "resolved"@,
            MemoryState::Retracted => "retracted"@,
            MemoryState::Confirmed => "confirmed"@,
            MemoryState::Rejected => "rejected"@,
            MemoryState::Superseded => "superseded"@,
        }
    }

    /// The name of the value.
    pub fn as_str(self) -> (r: &'static str)
        ensures
            r@ == self.name(),
    {
        match self {
            MemoryState::Active => "active",
            MemoryState::Resolved => "resolved",
            MemoryState::Retracted => "retracted",
            MemoryState::Confirmed => "confirmed",
            MemoryState::Rejected => "rejected",
            MemoryState::Superseded => "superseded",
        }
    }
}

impl Named for MemoryState {
    open spec fn named(text: Seq<char>) -> Option<Self> {
        if text == "active"@ {
            Some(MemoryState::Active)
        } else if text == "resolved"@ {
            Some(MemoryState::Resolved)
        } else if text == "retracted"@ {
            Some(MemoryState::Retracted)
        } else if text == "confirmed"@ {
            Some(MemoryState::Confirmed)
        } else if text == "rejected"@ {
            Some(MemoryState::Rejected)
        } else if text == "superseded"@ {
            Some(MemoryState::Superseded)
        } else {
            None
        }
    }

    fn from_text(text: &str) -> (r: Option<Self>) {
        if same(text, "active") {
            Some(MemoryState::Active)
        } else if same(text, "resolved") {
            Some(MemoryState::Resolved)
        } else if same(text, "retracted") {
            Some(MemoryState::Retracted)
        } else if same(text, "confirmed") {
            Some(MemoryState::Confirmed)
        } else if same(text, "rejected") {
            Some(MemoryState::Rejected)
        } else if same(text, "superseded") {
            Some(MemoryState::Superseded)
        } else {
            None
        }
    }
}

/// A [`MemoryState`] is read back from its name, and from no other text.
pub proof fn law_memory_state_names(value: MemoryState, text: Seq<char>)
    ensures
        MemoryState::named(value.name()) == Some(value),
        MemoryState::named(text) == Some(value) ==> text == value.name(),
{
    reveal_strlit("active");
    reveal_strlit("resolved");
    reveal_strlit("retracted");
    reveal_strlit("confirmed");
    reveal_strlit("rejected");
    reveal_strlit("superseded");
    assert("active"@.len() == 6);
    assert("resolved"@.len() == 8);
    assert("resolved"@[2] == 's');
    assert("retracted"@.len() == 9);
    assert("retracted"@[0] == 'r');
    assert("confirmed"@.len() == 9);
    assert("confirmed"@[0] == 'c');
    assert("rejected"@.len() == 8);
    assert("rejected"@[2] == 'j');
    assert("superseded"@.len() == 10);
}

/// Who a memory entry belongs to.
#[derive(Debug, Clone, Copy, PartialEq, Eq, Structural)]
pub enum ScopeKind {
    Global,
    Repository,
    Worktree,
}

impl ScopeKind {
    /// The name of the value.
    pub open spec fn name(self) -> Seq<char> {
        match self {
            ScopeKind::Global => "global"@,
            ScopeKind::Repository => "repository"@,
            ScopeKind::Worktree => "worktree"@,
        }
    }

    /// The name of the value.
    pub fn as_str(self) -> (r: &'static str)
        ensures
            r@ == self.name(),
    {
        match self {
            ScopeKind::Global => "global",
            ScopeKind::Repository => "repository",
            ScopeKind::Worktree => "worktree",
        }
    }
}

impl Named for ScopeKind {
    open spec fn named(text: Seq<char>) -> Option<Self> {
        if text == "global"@ {
            Some(ScopeKind::Global)
        } else if text == "repository"@ {
            Some(ScopeKind::Repository)
        } else if text == "worktree"@ {
            Some(ScopeKind::Worktree)
        } else {
            None
        }
    }

    fn from_text(text: &str) -> (r: Option<Self>) {
        if same(text, "global") {
            Some(ScopeKind::Global)
        } else if same(text, "repository") {
            Some(ScopeKind::Repository)
        } else if same(text, "worktree") {
            Some(ScopeKind::Worktree)
        } else {
            None
        }
    }
}

/// A [`ScopeKind`] is read back from its name, and from no other text.
pub proof fn law_scope_kind_names(value: ScopeKind, text: Seq<char>)
    ensures
        ScopeKind::named(value.name()) == Some(value),
        ScopeKind::named(text) == Some(value) ==> text == value.name(),
{
    reveal_strlit("global");
    reveal_strlit("repository");
    reveal_strlit("worktree");
    assert("global"@.len() == 6);
    assert("repository"@.len() == 10);
    assert("worktree"@.len() == 8);
}

/// Where the review of a proposed memory entry stands.
#[derive(Debug, Clone, Copy, PartialEq, Eq, Structural)]
pub enum CandidateState {
    Pending,
    Approved,
    Rejected,
    Expired,
}

impl CandidateState {
    /// The name of the value.
    pub open spec fn name(self) -> Seq<char> {
        match self {
            CandidateState::Pending => "pending"@,
            CandidateState::Approved => "approved"@,
            CandidateState::Rejected => "rejected"@,
            CandidateState::Expired => "expired"@,
        }
    }

    /// The name of the value.
    pub fn as_str(self) -> (r: &'static str)
        ensures
            r@ == self.name(),
    {
        match self {
            CandidateState::Pending => "pending",
            CandidateState::Approved => "approved",
            CandidateState::Rejected => "rejected",
            CandidateState::Expired => "expired",
        }
    }
}

impl Named for CandidateState {
    open spec fn named(text: Seq<char>) -> Option<Self> {
        if text == "pending"@ {
            Some(CandidateState::Pending)
        } else if text == "approved"@ {
            Some(CandidateState::Approved)
        } else if text == "rejected"@ {
            Some(CandidateState::Rejected)
        } else if text == "expired"@ {
            Some(CandidateState::Expired)
        } else {
            None
        }
    }

    fn from_text(text: &str) -> (r: Option<Self>) {
        if same(text, "pending") {
            Some(CandidateState::Pending)
        } else if same(text, "approved") {
            Some(CandidateState::Approved)
        } else if same(text, "rejected") {
            Some(CandidateState::Rejected)
        } else if same(text, "expired") {
            Some(CandidateState::Expired)
        } else {
            None
        }
    }
}

/// A [`CandidateState`] is read back from its name, and from no other text.
pub proof fn law_candidate_state_names(value: CandidateState, text: Seq<char>)
    ensures
        CandidateState::named(value.name()) == Some(value),
        CandidateState::named(text) == Some(value) ==> text == value.name(),
{
    reveal_strlit("pending");
    reveal_strlit("approved");
    reveal_strlit("rejected");
    reveal_strlit("expired");
    assert("pending"@.len() == 7);
    assert("pending"@[0] == 'p');
    assert("approved"@.len() == 8);
    assert("approved"@[0] == 'a');
    assert("rejected"@.len() == 8);
    assert("rejected"@[0] == 'r');
    assert("expired"@.len() == 7);
    assert("expired"@[0] == 'e');
}

/// Which legs a code search runs.
#[derive(Debug, Clone, Copy, PartialEq, Eq, Structural)]
pub enum SearchMode {
    Hybrid,
    Lexical,
    Code,
    Semantic,
}

impl SearchMode {
    /// The name of the value.
    pub open spec fn name(self) -> Seq<char> {
        match self {
            SearchMode::Hybrid => "hybrid"@,
            SearchMode::Lexical => "lexical"@,
            SearchMode::Code => "code"@,
            SearchMode::Semantic => "semantic"@,
        }
    }

    /// The name of the value.
    pub fn as_str(self) -> (r: &'static str)
        ensures
            r@ == self.name(),
    {
        match self {
            SearchMode::Hybrid => "hybrid",
            SearchMode::Lexical => "lexical",
            SearchMode::Code => "code",
            SearchMode::Semantic => "semantic",
        }
    }
}

impl Named for SearchMode {
    open spec fn named(text: Seq<char>) -> Option<Self> {
        if text == "hybrid"@ {
            Some(SearchMode::Hybrid)
        } else if text == "lexical"@ {
            Some(SearchMode::Lexical)
        } else if text == "code"@ {
            Some(SearchMode::Code)
        } else if text == "semantic"@ {
            Some(SearchMode::Semantic)
        } else {
            None
        }
    }

    fn from_text(text: &str) -> (r: Option<Self>) {
        if same(text, "hybrid") {
            Some(SearchMode::Hybrid)
        } else if same(text, "lexical") {
            Some(SearchMode::Lexical)
        } else if same(text, "code") {
            Some(SearchMode::Code)
        } else if same(text, "semantic") {
            Some(SearchMode::Semantic)
        } else {
            None
        }
    }
}

/// A [`SearchMode`] is read back from its name, and from no other text.
pub proof fn law_search_mode_names(value: SearchMode, text: Seq<char>)
    ensures
        SearchMode::named(value.name()) == Some(value),
        SearchMode::named(text) == Some(value) ==> text == value.name(),
{
    reveal_strlit("hybrid");
    reveal_strlit("lexical");
    reveal_strlit("code");
    reveal_strlit("semantic");
    assert("hybrid"@.len() == 6);
    assert("lexical"@.len() == 7);
    assert("code"@.len() == 4);
    assert("semantic"@.len() == 8);
}

/// How strong a statement is.
#[derive(Debug, Clone, Copy, PartialEq, Eq, Structural)]
pub enum Signal {
    Low,
    Medium,
    High,
}

impl Signal {
    /// The name of the value.
    pub open spec fn name(self) -> Seq<char> {
        match self {
            Signal::Low => "low"@,
            Signal::Medium => "medium"@,
            Signal::High => "high"@,
        }
    }

    /// The name of the value.
    pub fn as_str(self) -> (r: &'static str)
        ensures
            r@ == self.name(),
    {
        match self {
            Signal::Low => "low",
            Signal::Medium => "medium",
            Signal::High => "high",
        }
    }
}

impl Named for Signal {
    open spec fn named(text: Seq<char>) -> Option<Self> {
        if text == "low"@ {
            Some(Signal::Low)
        } else if text == "medium"@ {
            Some(Signal::Medium)
        } else if text == "high"@ {
            Some(Signal::High)
        } else {
            None
        }
    }

    fn from_text(text: &str) -> (r: Option<Self>) {
        if same(text, "low") {
            Some(Signal::Low)
        } else if same(text, "medium") {
            Some(Signal::Medium)
        } else if same(text, "high") {
            Some(Signal::High)
        } else {
            None
        }
    }
}

/// A [`Signal`] is read back from its name, and from no other text.
pub proof fn law_signal_names(value: Signal, text: Seq<char>)
    ensures
        Signal::named(value.name()) == Some(value),
        Signal::named(text) == Some(value) ==> text == value.name(),
{
    reveal_strlit("low");
    reveal_strlit("medium");
    reveal_strlit("high");
    assert("low"@.len() == 3);
    assert("medium"@.len() == 6);
    assert("high"@.len() == 4);
}

/// Who owns the entries of the global scope.
pub const GLOBAL_SCOPE_OWNER_ID: &'static str = "global";

/// What each value is called.
pub proof fn law_what_values_are_called(
    kind: MemoryKind,
    state: MemoryState,
    scope: ScopeKind,
    candidate: CandidateState,
    mode: SearchMode,
    signal: Signal,
)
    ensures
        kind is Fact ==> kind.name() == "fact"@,
        kind is Decision ==> kind.name() == "decision"@,
        kind is Convention ==> kind.name() == "convention"@,
        kind is Procedure ==> kind.name() == "procedure"@,
        kind is Task ==> kind.name() == "task"@,
        kind is Question ==> kind.name() == "question"@,
        kind is Hypothesis ==> kind.name() == "hypothesis"@,
        state is Active ==> state.name() == "active"@,
        state is Resolved ==> state.name() == "resolved"@,
        state is Retracted ==> state.name() == "retracted"@,
        state is Confirmed ==> state.name() == "confirmed"@,
        state is Rejected ==> state.name() == "rejected"@,
        state is Superseded ==> state.name() == "superseded"@,
        scope is Global ==> scope.name() == "global"@,
        scope is Repository ==> scope.name() == "repository"@,
        scope is Worktree ==> scope.name() == "worktree"@,
        candidate is Pending ==> candidate.name() == "pending"@,
        candidate is Approved ==> candidate.name() == "approved"@,
        candidate is Rejected ==> candidate.name() == "rejected"@,
        candidate is Expired ==> candidate.name() == "expired"@,
        mode is Hybrid ==> mode.name() == "hybrid"@,
        mode is Lexical ==> mode.name() == "lexical"@,
        mode is Code ==> mode.name() == "code"@,
        mode is Semantic ==> mode.name() == "semantic"@,
        signal is Low ==> signal.name() == "low"@,
        signal is Medium ==> signal.name() == "medium"@,
        signal is High ==> signal.name() == "high"@,
        GLOBAL_SCOPE_OWNER_ID@ == "global"@,
{
}

} // verus!
