//! Which scope a memory entry is written to.

use vstd::prelude::*;

use crate::failure::Failure;
use crate::vocabulary::{ScopeKind, GLOBAL_SCOPE_OWNER_ID};

verus! {

/// What the root of a request resolves to.
#[derive(Debug, PartialEq, Eq)]
pub enum Resolution<S = String> {
    /// A worktree that the store knows.
    Resolved { repo_id: S, worktree_id: S },
    /// Nothing that the store knows.
    GlobalOnly,
    /// More than one detached worktree, and none is picked by guessing.
    Ambiguous,
}

impl View for Resolution<String> {
    type V = Resolution<Seq<char>>;

    open spec fn view(&self) -> Resolution<Seq<char>> {
        match *self {
            Resolution::Resolved { repo_id, worktree_id } => Resolution::Resolved {
                repo_id: repo_id@,
                worktree_id: worktree_id@,
            },
            Resolution::GlobalOnly => Resolution::GlobalOnly,
            Resolution::Ambiguous => Resolution::Ambiguous,
        }
    }
}

/// Why an entry for which no scope was asked went to the global one. The two reasons have
/// different remedies.
#[derive(Debug, Clone, Copy, PartialEq, Eq, Structural)]
pub enum ScopeFallback {
    WorktreeNotIndexed,
    WorktreeAmbiguous,
}

/// The remedy for a worktree that is not indexed.
pub const NOT_INDEXED_HINT: &'static str = "this worktree is not indexed, so the entry was stored \
    machine-wide and every project's recall will see it; index it (`local-rag index <path>`) to get \
    project-scoped memory, or pass scope explicitly to silence this";

/// The remedy for a root that matches several worktrees.
pub const AMBIGUOUS_HINT: &'static str = "this root matches more than one detached worktree, so \
    the entry was stored machine-wide and every project's recall will see it; re-bind the worktree \
    (`local-rag repo attach`) to get project-scoped memory";

impl ScopeFallback {
    /// The marker of the fallback.
    pub open spec fn marker(self) -> Seq<char> {
        match self {
            ScopeFallback::WorktreeNotIndexed => "worktree_not_indexed"@,
            ScopeFallback::WorktreeAmbiguous => "worktree_ambiguous"@,
        }
    }

    /// The remedy.
    pub open spec fn remedy(self) -> Seq<char> {
        match self {
            ScopeFallback::WorktreeNotIndexed => NOT_INDEXED_HINT@,
            ScopeFallback::WorktreeAmbiguous => AMBIGUOUS_HINT@,
        }
    }

    /// The marker of the fallback.
    pub fn as_str(self) -> (r: &'static str)
        ensures
            r@ == self.marker(),
    {
        match self {
            ScopeFallback::WorktreeNotIndexed => "worktree_not_indexed",
            ScopeFallback::WorktreeAmbiguous => "worktree_ambiguous",
        }
    }

    /// The remedy.
    pub fn hint(self) -> (r: &'static str)
        ensures
            r@ == self.remedy(),
    {
        match self {
            ScopeFallback::WorktreeNotIndexed => NOT_INDEXED_HINT,
            ScopeFallback::WorktreeAmbiguous => AMBIGUOUS_HINT,
        }
    }
}

/// Where an entry is written, and why, where it is not where it would have gone with an
/// indexed worktree.
#[derive(Debug, PartialEq, Eq)]
pub struct WriteScope<S = String> {
    pub kind: ScopeKind,
    pub owner_id: S,
    pub fallback: Option<ScopeFallback>,
}

impl View for WriteScope<String> {
    type V = WriteScope<Seq<char>>;

    open spec fn view(&self) -> WriteScope<Seq<char>> {
        WriteScope { kind: self.kind, owner_id: self.owner_id@, fallback: self.fallback }
    }
}

/// The scope of a write. Without a wish it is the repository, or the global scope where the
/// root resolves to no worktree, and then the fallback says why. A wish is granted as it
/// stands or refused.
pub open spec fn write_scope(
    resolution: Resolution<Seq<char>>,
    requested: Option<ScopeKind>,
) -> Result<WriteScope<Seq<char>>, Failure<Seq<char>>> {
    match (requested, resolution) {
        (Some(ScopeKind::Global), _) => Ok(
            WriteScope {
                kind: ScopeKind::Global,
                owner_id: GLOBAL_SCOPE_OWNER_ID@,
                fallback: None,
            },
        ),
        (Some(ScopeKind::Worktree), Resolution::Resolved { repo_id, worktree_id }) => Ok(
            WriteScope { kind: ScopeKind::Worktree, owner_id: worktree_id, fallback: None },
        ),
        (_, Resolution::Resolved { repo_id, worktree_id }) => Ok(
            WriteScope { kind: ScopeKind::Repository, owner_id: repo_id, fallback: None },
        ),
        (Some(_), _) => Err(Failure::WorktreeNotIndexed),
        (None, Resolution::GlobalOnly) => Ok(
            WriteScope {
                kind: ScopeKind::Global,
                owner_id: GLOBAL_SCOPE_OWNER_ID@,
                fallback: Some(ScopeFallback::WorktreeNotIndexed),
            },
        ),
        (None, Resolution::Ambiguous) => Ok(
            WriteScope {
                kind: ScopeKind::Global,
                owner_id: GLOBAL_SCOPE_OWNER_ID@,
                fallback: Some(ScopeFallback::WorktreeAmbiguous),
            },
        ),
    }
}

/// The scope of a write.
pub fn resolve_write_scope(resolution: &Resolution, requested: Option<ScopeKind>) -> (r: Result<
    WriteScope,
    Failure,
>)
    ensures
        match r {
            Ok(scope) => write_scope(resolution@, requested) == Ok::<
                WriteScope<Seq<char>>,
                Failure<Seq<char>>,
            >(scope@),
            Err(failure) => write_scope(resolution@, requested) == Err::<
                WriteScope<Seq<char>>,
                Failure<Seq<char>>,
            >(failure@),
        },
{
    let kind = match requested {
        Some(wish) => wish,
        None => match resolution {
            Resolution::Resolved { .. } => ScopeKind::Repository,
            _ => ScopeKind::Global,
        },
    };
    match kind {
        ScopeKind::Global => {
            let fallback = match (requested, resolution) {
                (None, Resolution::GlobalOnly) => Some(ScopeFallback::WorktreeNotIndexed),
                (None, Resolution::Ambiguous) => Some(ScopeFallback::WorktreeAmbiguous),
                _ => None,
            };
            Ok(WriteScope { kind, owner_id: GLOBAL_SCOPE_OWNER_ID.to_owned(), fallback })
        },
        ScopeKind::Repository => match resolution {
            Resolution::Resolved { repo_id, .. } => Ok(
                WriteScope { kind, owner_id: repo_id.clone(), fallback: None },
            ),
            _ => Err(Failure::WorktreeNotIndexed),
        },
        ScopeKind::Worktree => match resolution {
            Resolution::Resolved { worktree_id, .. } => Ok(
                WriteScope { kind, owner_id: worktree_id.clone(), fallback: None },
            ),
            _ => Err(Failure::WorktreeNotIndexed),
        },
    }
}

/// Only a wish that the root cannot satisfy is refused; a wish that is granted is granted
/// as it stands, and never counts as a fallback.
pub proof fn law_a_wish_is_granted_or_refused(
    resolution: Resolution<Seq<char>>,
    wish: ScopeKind,
)
    ensures
        match write_scope(resolution, Some(wish)) {
            Ok(scope) => scope.kind == wish && scope.fallback is None,
            Err(failure) => failure == Failure::<Seq<char>>::WorktreeNotIndexed && wish
                != ScopeKind::Global && resolution !is Resolved,
        },
{
}

/// Without a wish a write always has a scope, and it is the global one exactly when a
/// fallback is reported.
pub proof fn law_a_silent_fallback_does_not_happen(resolution: Resolution<Seq<char>>)
    ensures
        write_scope(resolution, None) matches Ok(scope) && (scope.kind == ScopeKind::Global
            <==> scope.fallback is Some) && (scope.fallback is None <==> resolution is Resolved),
{
}

/// Every scope has its own owner: the global scope the one owner of everything, a repository
/// its repository, and a worktree its worktree.
pub proof fn law_a_scope_is_owned_by_its_own(
    resolution: Resolution<Seq<char>>,
    requested: Option<ScopeKind>,
)
    ensures
        write_scope(resolution, requested) matches Ok(scope) ==> {
            &&& scope.kind is Global ==> scope.owner_id == GLOBAL_SCOPE_OWNER_ID@
            &&& scope.kind is Repository ==> (resolution matches Resolution::Resolved {
                repo_id,
                ..
            } && scope.owner_id == repo_id)
            &&& scope.kind is Worktree ==> (resolution matches Resolution::Resolved {
                worktree_id,
                ..
            } && scope.owner_id == worktree_id)
        },
        requested == Some(ScopeKind::Global) ==> write_scope(resolution, requested) is Ok,
        resolution is Resolved ==> write_scope(resolution, requested) is Ok,
{
}

/// Without a wish an entry goes to the repository, or, where there is none, to the global scope,
/// and then what is said is what was the matter.
pub proof fn law_without_a_wish_it_is_the_repository(resolution: Resolution<Seq<char>>)
    ensures
        write_scope(resolution, None) matches Ok(scope) && {
            &&& resolution is Resolved ==> scope.kind is Repository
            &&& resolution !is Resolved ==> scope.kind is Global
            &&& resolution is GlobalOnly <==> scope.fallback == Some(
                ScopeFallback::WorktreeNotIndexed,
            )
            &&& resolution is Ambiguous <==> scope.fallback == Some(
                ScopeFallback::WorktreeAmbiguous,
            )
        },
{
}

/// Each fallback has its own marker and its own remedy.
pub proof fn law_each_fallback_has_its_remedy(fallback: ScopeFallback)
    ensures
        fallback is WorktreeNotIndexed ==> fallback.marker() == "worktree_not_indexed"@
            && fallback.remedy() == NOT_INDEXED_HINT@,
        fallback is WorktreeAmbiguous ==> fallback.marker() == "worktree_ambiguous"@
            && fallback.remedy() == AMBIGUOUS_HINT@,
{
}

} // verus!
