//! How an entry is written or edited: step by step, with its text decided before the store
//! sees it.

use vstd::prelude::*;

use crate::mcp::memory_write::{
    change_result, plan_edit, plan_remember, remember_result, Changed, CreatePlan, EditMemory,
    EditPlan, MemoryOpError, MemoryOpOutcome, Remember,
};
use crate::mcp::reply::{infra_err, ToolReply};
use crate::normalization::boundary::Normalized;
use crate::scope::{resolve_write_scope, Resolution, WriteScope};

verus! {

/// How far a call of `remember` has come.
#[derive(Debug, PartialEq, Eq)]
pub enum Remembering {
    /// The root of the request is resolved.
    Resolving { request: Remember },
    /// The store is asked whether the call was applied before.
    Checking { request: Remember, scope: WriteScope },
    /// What is stored in place of the text is decided.
    Deciding { request: Remember, scope: WriteScope },
    /// The text that is stored is hashed.
    Hashing { request: Remember, scope: WriteScope, decided: Normalized },
    /// The store creates the entry and writes its row, both or neither.
    Creating { scope: WriteScope, plan: CreatePlan },
    /// The call is answered.
    Done { reply: ToolReply },
}

/// What happened in a call of `remember`.
#[derive(Debug, PartialEq, Eq)]
pub enum RememberEvent {
    /// What the root resolves to, if the store could be read.
    Resolved(Result<Resolution, String>),
    /// Whether the call was applied before, if that was found out; `Err` where the store
    /// could not be opened.
    Checked(Result<Option<bool>, String>),
    Decided(Normalized),
    Hashed(String),
    Created(Changed<MemoryOpOutcome, MemoryOpError>),
}

/// Whether `after` is what an event makes of a call of `remember`. A call that was applied
/// before is not decided again: its text goes to the store as it came, which replays the
/// first result. An event that does not belong to what is being done changes nothing.
pub open spec fn remember_step(
    before: Remembering,
    event: RememberEvent,
    memory_id: Seq<char>,
    idempotency_key: Seq<char>,
    translator_version: i64,
    after: Remembering,
) -> bool {
    match (before, event) {
        (Remembering::Resolving { request }, RememberEvent::Resolved(resolved)) => match resolved {
            Err(e) => after matches Remembering::Done { reply } && reply@
                == crate::mcp::reply::unreadable(e@),
            Ok(resolution) => match crate::scope::write_scope(resolution@, request.scope) {
                Ok(granted) => after matches Remembering::Checking { request: same, scope } && same
                    == request && scope@ == granted,
                Err(failure) => after matches Remembering::Done { reply } && reply@
                    == ToolReply::<Seq<char>, crate::json::JsonView>::Failed(failure),
            },
        },
        (Remembering::Checking { request, scope }, RememberEvent::Checked(checked)) => match checked {
            Err(e) => after matches Remembering::Done { reply } && reply@
                == crate::mcp::reply::unreadable(e@),
            Ok(Some(true)) => after matches Remembering::Creating { scope: kept, plan } && kept
                == scope && crate::mcp::memory_write::creates(
                plan,
                request,
                scope@,
                memory_id,
                idempotency_key,
                None,
                Seq::empty(),
                translator_version,
            ),
            Ok(_) => after == (Remembering::Deciding { request, scope }),
        },
        (Remembering::Deciding { request, scope }, RememberEvent::Decided(decided)) => after == (
        Remembering::Hashing { request, scope, decided }),
        (
            Remembering::Hashing { request, scope, decided },
            RememberEvent::Hashed(canon_sha256),
        ) => after matches Remembering::Creating { scope: kept, plan } && kept == scope
            && crate::mcp::memory_write::creates(
            plan,
            request,
            scope@,
            memory_id,
            idempotency_key,
            Some(decided@),
            canon_sha256@,
            translator_version,
        ),
        (Remembering::Creating { scope, plan }, RememberEvent::Created(outcome)) => after matches
            Remembering::Done { reply } && reply@ == crate::mcp::memory_write::remember_reply(
            outcome,
            scope@,
        ),
        _ => after == before,
    }
}

/// The text to hash, where one is to be hashed: the one that is going to be stored.
pub open spec fn remembered_to_hash(state: Remembering) -> Option<Seq<char>> {
    match state {
        Remembering::Hashing { request, scope, decided } => Some(decided@.canon_of(request.text@)),
        _ => None,
    }
}

impl Remembering {
    /// A call of which nothing is done.
    pub fn new(request: Remember) -> (r: Self)
        ensures
            r == (Remembering::Resolving { request }),
    {
        Remembering::Resolving { request }
    }

    /// The text to hash, where one is to be hashed: the one that is going to be stored.
    pub fn text_to_hash(&self) -> (r: Option<String>)
        ensures
            r.deep_view() == remembered_to_hash(*self),
    {
        match self {
            Remembering::Hashing { request, decided, .. } => Some(
                decided.canon(request.text.as_str()).to_owned(),
            ),
            _ => None,
        }
    }

    /// Takes the call one event further. `memory_id` is the id that the entry gets, and
    /// `idempotency_key` the key under which the call is recognized.
    pub fn on_event(
        self,
        event: RememberEvent,
        memory_id: &str,
        idempotency_key: &str,
        translator_version: i64,
    ) -> (r: Self)
        ensures
            remember_step(self, event, memory_id@, idempotency_key@, translator_version, r),
    {
        match (self, event) {
            (Remembering::Resolving { request }, RememberEvent::Resolved(resolved)) => {
                match resolved {
                    Err(e) => Remembering::Done { reply: infra_err(e.as_str()) },
                    Ok(resolution) => match resolve_write_scope(&resolution, request.scope) {
                        Ok(scope) => Remembering::Checking { request, scope },
                        Err(failure) => Remembering::Done { reply: ToolReply::Failed(failure) },
                    },
                }
            },
            (Remembering::Checking { request, scope }, RememberEvent::Checked(checked)) => {
                match checked {
                    Err(e) => Remembering::Done { reply: infra_err(e.as_str()) },
                    Ok(Some(true)) => {
                        let plan = plan_remember(
                            request,
                            &scope,
                            memory_id,
                            idempotency_key,
                            None,
                            "",
                            translator_version,
                        );
                        Remembering::Creating { scope, plan }
                    },
                    Ok(_) => Remembering::Deciding { request, scope },
                }
            },
            (Remembering::Deciding { request, scope }, RememberEvent::Decided(decided)) => {
                Remembering::Hashing { request, scope, decided }
            },
            (
                Remembering::Hashing { request, scope, decided },
                RememberEvent::Hashed(canon_sha256),
            ) => {
                let plan = plan_remember(
                    request,
                    &scope,
                    memory_id,
                    idempotency_key,
                    Some(decided),
                    canon_sha256.as_str(),
                    translator_version,
                );
                Remembering::Creating { scope, plan }
            },
            (Remembering::Creating { scope, .. }, RememberEvent::Created(outcome)) => {
                Remembering::Done { reply: remember_result(outcome, &scope) }
            },
            (before, _) => before,
        }
    }
}

/// A call that was applied before asks no translator, and nothing new is recorded for it.
pub proof fn law_a_replay_is_not_translated(
    request: Remember,
    scope: WriteScope,
    memory_id: Seq<char>,
    idempotency_key: Seq<char>,
    translator_version: i64,
    after: Remembering,
)
    requires
        remember_step(
            Remembering::Checking { request, scope },
            RememberEvent::Checked(Ok(Some(true))),
            memory_id,
            idempotency_key,
            translator_version,
            after,
        ),
    ensures
        after matches Remembering::Creating { scope: kept, plan } && plan.row is None && plan.text@
            == request.text@,
{
}

/// A whole call of `remember`: the states it went through, and what happened in between.
pub struct RememberCall {
    pub request: Remember,
    pub memory_id: Seq<char>,
    pub idempotency_key: Seq<char>,
    pub translator_version: i64,
    pub states: Seq<Remembering>,
    pub events: Seq<RememberEvent>,
}

impl RememberCall {
    /// Each state is what an event made of the one before it.
    pub open spec fn runs(self) -> bool {
        &&& self.states.len() == self.events.len() + 1
        &&& self.states[0] == (Remembering::Resolving { request: self.request })
        &&& forall|i: int|
            0 <= i < self.events.len() ==> remember_step(
                self.states[i],
                #[trigger] self.events[i],
                self.memory_id,
                self.idempotency_key,
                self.translator_version,
                self.states[i + 1],
            )
    }

    /// The last that happened is that the store made the change, or had made it before.
    pub open spec fn ends_with(self, outcome: MemoryOpOutcome) -> bool {
        &&& self.events.len() > 0
        &&& self.events.last() == RememberEvent::Created(Ok(Ok(outcome)))
        &&& self.states[self.events.len() - 1] is Creating
    }

    /// The store finds that the call was applied before.
    pub open spec fn was_applied_before(self) -> bool {
        forall|i: int|
            0 <= i < self.events.len() ==> ((#[trigger] self.events[i]) matches RememberEvent::Checked(
                Ok(applied),
            ) ==> applied == Some(true))
    }

    /// What the call is answered.
    pub open spec fn reply(self) -> ToolReply<Seq<char>, crate::json::JsonView> {
        self.states.last()->reply@
    }

    /// The call keeps to its request and to its key. Where it was applied before, nothing is
    /// decided for it.
    pub open spec fn keeps(self, state: Remembering) -> bool {
        match state {
            Remembering::Resolving { request } => request == self.request,
            Remembering::Checking { request, .. } => request == self.request,
            Remembering::Deciding { request, .. } => request == self.request
                && !self.was_applied_before(),
            Remembering::Hashing { request, .. } => request == self.request
                && !self.was_applied_before(),
            Remembering::Creating { plan, .. } => {
                &&& plan.idempotency_key@ == self.idempotency_key
                &&& self.was_applied_before() ==> plan.row is None && plan.text@
                    == self.request.text@
            },
            Remembering::Done { .. } => true,
        }
    }
}

proof fn lemma_a_call_keeps(call: RememberCall, n: int)
    requires
        call.runs(),
        0 <= n <= call.events.len(),
    ensures
        call.keeps(call.states[n]),
    decreases n,
{
    if n > 0 {
        lemma_a_call_keeps(call, n - 1);
        assert(remember_step(
            call.states[n - 1],
            call.events[n - 1],
            call.memory_id,
            call.idempotency_key,
            call.translator_version,
            call.states[n],
        ));
    }
}

proof fn lemma_a_change_is_answered(call: RememberCall, outcome: MemoryOpOutcome)
    requires
        call.runs(),
        call.ends_with(outcome),
    ensures
        call.states.last() is Done,
        exists|scope: WriteScope<Seq<char>>|
            call.reply() == #[trigger] crate::mcp::memory_write::remember_reply(
                Ok(Ok(outcome)),
                scope,
            ),
{
    let n = call.events.len() as int;
    assert(remember_step(
        call.states[n - 1],
        call.events[n - 1],
        call.memory_id,
        call.idempotency_key,
        call.translator_version,
        call.states[n],
    ));
    let scope = call.states[n - 1]->Creating_scope@;
    assert(call.reply() == crate::mcp::memory_write::remember_reply(Ok(Ok(outcome)), scope));
}

/// A call of `remember` that has succeeded, and the same call made again: both go by one key.
/// Where the store finds that key applied and replays what it left behind, the second call has
/// nothing decided, asks no translator, and records nothing new. Its answer repeats the
/// entry, the version and the audit of the first, as replayed.
pub proof fn law_a_repeated_call_is_a_replay(
    session_id: Seq<char>,
    request_id: crate::json::JsonView,
    first: RememberCall,
    second: RememberCall,
    outcome: MemoryOpOutcome,
)
    requires
        first.runs(),
        second.runs(),
        second.request@ == first.request@,
        first.idempotency_key == crate::mcp::memory_write::remember_key(session_id, request_id),
        second.idempotency_key == crate::mcp::memory_write::remember_key(session_id, request_id),
        first.ends_with(outcome),
        second.was_applied_before(),
        second.ends_with(
            MemoryOpOutcome::Replayed(crate::mcp::memory_write::outcome_result(outcome)),
        ),
    ensures
        forall|i: int|
            0 <= i < first.states.len() ==> ((#[trigger] first.states[i]) matches Remembering::Creating {
                plan,
                ..
            } ==> plan.idempotency_key@ == crate::mcp::memory_write::remember_key(
                session_id,
                request_id,
            )),
        forall|i: int|
            0 <= i < second.states.len() ==> {
                &&& (#[trigger] second.states[i]) !is Deciding
                &&& second.states[i] !is Hashing
                &&& second.states[i] matches Remembering::Creating { plan, .. } ==> {
                    &&& plan.idempotency_key@ == crate::mcp::memory_write::remember_key(
                        session_id,
                        request_id,
                    )
                    &&& plan.row is None
                    &&& plan.text@ == first.request@.text
                }
            },
        first.states.last() is Done && second.states.last() is Done,
        ({
            let result = crate::mcp::memory_write::outcome_result(outcome);
            let told = |name: Seq<char>|
                crate::mcp::memory_write::reply_member(first.reply(), name);
            let told_again = |name: Seq<char>|
                crate::mcp::memory_write::reply_member(second.reply(), name);
            &&& first.reply() is Success && second.reply() is Success
            &&& told("memory_id"@) == Some(crate::json::JsonView::Str(result.memory_id@))
            &&& told_again("memory_id"@) == told("memory_id"@)
            &&& told_again("entry_version"@) == told("entry_version"@)
            &&& told_again("audit_id"@) == told("audit_id"@)
            &&& told_again("outcome"@) == Some(crate::json::JsonView::Str("replayed"@))
        }),
{
    assert forall|i: int| 0 <= i < first.states.len() implies first.keeps(
        #[trigger] first.states[i],
    ) by {
        lemma_a_call_keeps(first, i);
    }
    assert forall|i: int| 0 <= i < second.states.len() implies second.keeps(
        #[trigger] second.states[i],
    ) by {
        lemma_a_call_keeps(second, i);
    }
    let again = MemoryOpOutcome::Replayed(crate::mcp::memory_write::outcome_result(outcome));
    lemma_a_change_is_answered(first, outcome);
    lemma_a_change_is_answered(second, again);
    let here = choose|scope: WriteScope<Seq<char>>|
        first.reply() == #[trigger] crate::mcp::memory_write::remember_reply(
            Ok(Ok(outcome)),
            scope,
        );
    let there = choose|scope: WriteScope<Seq<char>>|
        second.reply() == #[trigger] crate::mcp::memory_write::remember_reply(Ok(Ok(again)), scope);
    crate::mcp::memory_write::law_remember_tells_the_change(outcome, here);
    crate::mcp::memory_write::law_remember_tells_the_change(again, there);
}

/// Whatever the store is asked to create for a call that is new was decided first, and the
/// record of that decision goes with it.
pub proof fn law_a_new_entry_has_its_record(
    before: Remembering,
    event: RememberEvent,
    memory_id: Seq<char>,
    idempotency_key: Seq<char>,
    translator_version: i64,
    after: Remembering,
)
    requires
        remember_step(before, event, memory_id, idempotency_key, translator_version, after),
        !(before is Creating),
        after is Creating,
    ensures
        (before is Hashing && after->plan.row is Some) || (before is Checking && event
            == RememberEvent::Checked(Ok(Some(true)))),
{
}

/// How far a call of `edit_memory` has come.
#[derive(Debug, PartialEq, Eq)]
pub enum Editing {
    /// What is stored in place of the new text is decided.
    Deciding { edit: EditMemory, text: String },
    /// The text that is stored is hashed.
    Hashing { edit: EditMemory, text: String, decided: Normalized },
    /// The store changes the entry and writes its row, both or neither.
    Writing { plan: EditPlan },
    /// The call is answered.
    Done { reply: ToolReply },
}

/// What happened in a call of `edit_memory`.
#[derive(Debug, PartialEq, Eq)]
pub enum EditEvent {
    Decided(Normalized),
    Hashed(String),
    Written(Changed<MemoryOpOutcome, MemoryOpError>),
}

/// Whether `after` is what an event makes of a call of `edit_memory`. An event that does not
/// belong to what is being done changes nothing.
pub open spec fn edit_step(
    before: Editing,
    event: EditEvent,
    translator_version: i64,
    after: Editing,
) -> bool {
    match (before, event) {
        (Editing::Deciding { edit, text }, EditEvent::Decided(decided)) => after == (
        Editing::Hashing { edit, text, decided }),
        (Editing::Hashing { edit, text, decided }, EditEvent::Hashed(canon_sha256)) => after
            matches Editing::Writing { plan } && crate::mcp::memory_write::changes(
            plan,
            edit,
            Some(decided@),
            canon_sha256@,
            translator_version,
        ),
        (Editing::Writing { plan }, EditEvent::Written(outcome)) => after matches Editing::Done {
            reply,
        } && reply@ == crate::mcp::memory_write::change_reply(outcome),
        _ => after == before,
    }
}

/// Whether `fresh` is a call of which nothing is done. One that changes no text has nothing to
/// decide.
pub open spec fn edit_starts(edit: EditMemory, translator_version: i64, fresh: Editing) -> bool {
    match edit.text {
        Some(new) => fresh matches Editing::Deciding { edit: same, text } && same == edit && text@
            == new@,
        None => fresh matches Editing::Writing { plan } && crate::mcp::memory_write::changes(
            plan,
            edit,
            None,
            Seq::empty(),
            translator_version,
        ),
    }
}

/// The text to hash, where one is to be hashed: the one that is going to be stored.
pub open spec fn edited_to_hash(state: Editing) -> Option<Seq<char>> {
    match state {
        Editing::Hashing { edit, text, decided } => Some(decided@.canon_of(text@)),
        _ => None,
    }
}

impl Editing {
    /// A call of which nothing is done. One that changes no text has nothing to decide.
    pub fn new(edit: EditMemory, translator_version: i64) -> (r: Self)
        ensures
            edit_starts(edit, translator_version, r),
    {
        match &edit.text {
            Some(new) => {
                let text = new.clone();
                Editing::Deciding { edit, text }
            },
            None => Editing::Writing { plan: plan_edit(edit, None, "", translator_version) },
        }
    }

    /// The text to hash, where one is to be hashed: the one that is going to be stored.
    pub fn text_to_hash(&self) -> (r: Option<String>)
        ensures
            r.deep_view() == edited_to_hash(*self),
    {
        match self {
            Editing::Hashing { text, decided, .. } => Some(decided.canon(text.as_str()).to_owned()),
            _ => None,
        }
    }

    /// Takes the call one event further.
    pub fn on_event(self, event: EditEvent, translator_version: i64) -> (r: Self)
        ensures
            edit_step(self, event, translator_version, r),
    {
        match (self, event) {
            (Editing::Deciding { edit, text }, EditEvent::Decided(decided)) => {
                Editing::Hashing { edit, text, decided }
            },
            (Editing::Hashing { edit, decided, .. }, EditEvent::Hashed(canon_sha256)) => {
                let plan = plan_edit(
                    edit,
                    Some(decided),
                    canon_sha256.as_str(),
                    translator_version,
                );
                Editing::Writing { plan }
            },
            (Editing::Writing { .. }, EditEvent::Written(outcome)) => Editing::Done {
                reply: change_result(outcome),
            },
            (before, _) => before,
        }
    }
}

/// A call of `remember` is resolved, checked, decided, hashed and created, in this order, and
/// then answered. Whatever the store could not do, or would not grant, ends it with that answer.
pub proof fn law_remembering_goes_step_by_step(
    before: Remembering,
    event: RememberEvent,
    memory_id: Seq<char>,
    idempotency_key: Seq<char>,
    translator_version: i64,
    after: Remembering,
)
    requires
        remember_step(before, event, memory_id, idempotency_key, translator_version, after),
    ensures
        before matches Remembering::Resolving { request } ==> (
        event matches RememberEvent::Resolved(Ok(resolution)) ==> {
            &&& request.scope is None || request.scope == Some(
                crate::vocabulary::ScopeKind::Global,
            ) || resolution is Resolved ==> (after matches Remembering::Checking {
                request: same,
                ..
            } && same == request)
            &&& request.scope is Some && !(request.scope->Some_0 is Global) && !(
            resolution is Resolved) ==> (after matches Remembering::Done { reply } && (
            reply@ matches ToolReply::Failed(f) && f is WorktreeNotIndexed))
        }),
        before is Resolving ==> (event matches RememberEvent::Resolved(Err(e)) ==> (
        after matches Remembering::Done { reply } && (reply@ matches ToolReply::Failed(f) && (
        f matches crate::failure::Failure::IndexUnavailable { details } && details == e@)))),
        before is Checking ==> (event matches RememberEvent::Checked(Err(e)) ==> (
        after matches Remembering::Done { reply } && (reply@ matches ToolReply::Failed(f) && (
        f matches crate::failure::Failure::IndexUnavailable { details } && details == e@)))),
        before matches Remembering::Checking { request, scope } ==> (
        event matches RememberEvent::Checked(Ok(known)) ==> {
            &&& known == Some(true) <==> after is Creating
            &&& known != Some(true) ==> after == (Remembering::Deciding { request, scope })
        }),
        before matches Remembering::Deciding { request, scope } ==> (
        event matches RememberEvent::Decided(decided) ==> after == (Remembering::Hashing {
            request,
            scope,
            decided,
        })),
        before matches Remembering::Hashing { scope, .. } ==> (event is Hashed ==> (
        after matches Remembering::Creating { scope: kept, .. } && kept == scope)),
        before matches Remembering::Creating { scope, .. } ==> (
        event matches RememberEvent::Created(outcome) ==> (after matches Remembering::Done {
            reply,
        } && reply@ == crate::mcp::memory_write::remember_reply(outcome, scope@))),
        before is Done ==> after == before,
{
}

/// The text that is hashed is the text that is stored: of a new entry the one that was decided.
pub proof fn law_what_is_hashed_is_what_is_stored(
    before: Remembering,
    canon_sha256: String,
    memory_id: Seq<char>,
    idempotency_key: Seq<char>,
    translator_version: i64,
    after: Remembering,
)
    requires
        before is Hashing,
        remember_step(
            before,
            RememberEvent::Hashed(canon_sha256),
            memory_id,
            idempotency_key,
            translator_version,
            after,
        ),
    ensures
        after matches Remembering::Creating { plan, .. } && remembered_to_hash(before) == Some(
            plan.text@,
        ) && (plan.row matches Some(row) && row@.canon_text_sha256 == canon_sha256@)
            && plan.memory_id@ == memory_id && plan.idempotency_key@ == idempotency_key,
        before matches Remembering::Hashing { request, decided, .. } && {
            &&& decided matches Normalized::Translated { english, .. } ==> remembered_to_hash(
                before,
            ) == Some(english@)
            &&& !(decided is Translated) ==> remembered_to_hash(before) == Some(request.text@)
        },
{
}

/// A call of `edit_memory` decides its text, hashes what was decided and writes it; without a
/// new text it writes at once, and nothing is decided. What the store did with it is the answer.
pub proof fn law_editing_goes_step_by_step(
    edit: EditMemory,
    fresh: Editing,
    before: Editing,
    event: EditEvent,
    translator_version: i64,
    after: Editing,
)
    requires
        edit_starts(edit, translator_version, fresh),
        edit_step(before, event, translator_version, after),
    ensures
        edit.text matches Some(new) ==> (fresh matches Editing::Deciding { edit: same, text }
            && same == edit && text@ == new@),
        edit.text is None ==> (fresh matches Editing::Writing { plan } && plan.text is None
            && plan.row is None && plan.memory_id@ == edit.id@ && plan.importance
            == edit.importance && plan.expected_version == edit.expected_version),
        before matches Editing::Deciding { edit: e, text } ==> (
        event matches EditEvent::Decided(decided) ==> after == (Editing::Hashing {
            edit: e,
            text,
            decided,
        })),
        before matches Editing::Hashing { edit: e, decided, .. } ==> (
        event matches EditEvent::Hashed(sha) ==> (after matches Editing::Writing { plan }
            && plan.memory_id@ == e.id@ && plan.expected_version == e.expected_version && (
        e.text matches Some(text) ==> plan.text.deep_view() == Some(decided@.canon_of(text@)) && (
        plan.row matches Some(row) && row@.canon_text_sha256 == sha@)))),
        before is Writing ==> (event matches EditEvent::Written(outcome) ==> (
        after matches Editing::Done { reply } && reply@ == crate::mcp::memory_write::change_reply(
            outcome,
        ))),
        before is Done ==> after == before,
        edited_to_hash(before) is Some <==> before is Hashing,
        before matches Editing::Hashing { text, decided, .. } ==> {
            &&& decided matches Normalized::Translated { english, .. } ==> edited_to_hash(before)
                == Some(english@)
            &&& !(decided is Translated) ==> edited_to_hash(before) == Some(text@)
        },
{
}

} // verus!
