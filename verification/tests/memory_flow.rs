use std::cell::{Cell, RefCell};

use local_rag::failure::Failure;
use local_rag::json::{parse_json, Json, JsonMap};
use local_rag::mcp::memory_flow::{EditEvent, Editing, RememberEvent, Remembering};
use local_rag::mcp::memory_write::{
    idempotency_key, parse_edit_memory, parse_remember, EditMemory, MemoryOpError,
    MemoryOpOutcome, MemoryOpResult, Remember,
};
use local_rag::mcp::reply::ToolReply;
use local_rag::normalization::boundary::{
    normalize_for_write, NormalizationStatus, Normalized, OwnedNormalizationRow, ScriptClass,
    TranslateFailureKind, Translation,
};
use local_rag::scope::Resolution;
use local_rag::vocabulary::{ScopeKind, Signal};

fn remember(text: &str) -> Remember {
    match parse_json(text) {
        Some(Json::Obj(map)) => parse_remember(&map).unwrap(),
        other => panic!("not an object: {other:?}"),
    }
}

fn edit(text: &str) -> EditMemory {
    match parse_json(text) {
        Some(Json::Obj(map)) => parse_edit_memory(&map).unwrap(),
        other => panic!("not an object: {other:?}"),
    }
}

fn step(state: Remembering, event: RememberEvent) -> Remembering {
    state.on_event(event, "m-1", "key", 3)
}

fn resolved() -> Result<Resolution, String> {
    Ok(Resolution::Resolved { repo_id: "r".to_string(), worktree_id: "w".to_string() })
}

fn applied() -> MemoryOpOutcome {
    MemoryOpOutcome::Applied(MemoryOpResult {
        memory_id: "m-1".to_string(),
        entry_version: 1,
        audit_id: 9,
    })
}

#[test]
fn a_new_entry_is_decided_before_the_store_sees_it() {
    let request = r#"{"text":"всегда","kind":"fact","confirmed_by_user":true}"#;
    let state = Remembering::new(remember(request));
    let state = step(state, RememberEvent::Resolved(resolved()));
    assert!(matches!(state, Remembering::Checking { .. }));
    let state = step(state, RememberEvent::Checked(Ok(Some(false))));
    assert!(matches!(state, Remembering::Deciding { .. }));
    assert_eq!(state.text_to_hash(), None);
    let decided = Normalized::Translated {
        english: "always".to_string(),
        original: "всегда".to_string(),
        model_id: "m".to_string(),
    };
    let state = step(state, RememberEvent::Decided(decided));
    assert_eq!(state.text_to_hash().as_deref(), Some("always"));
    let state = step(state, RememberEvent::Hashed("sha".to_string()));
    match &state {
        Remembering::Creating { scope, plan } => {
            assert_eq!(scope.kind, ScopeKind::Repository);
            assert_eq!(plan.memory_id, "m-1");
            assert_eq!(plan.idempotency_key, "key");
            assert_eq!(plan.text, "always");
            assert_eq!(plan.confidence, Signal::High);
            let row = plan.row.as_ref().unwrap();
            assert_eq!(row.source_text.as_deref(), Some("всегда"));
            assert_eq!(row.canon_text_sha256, "sha");
            assert_eq!(row.prompt_version, Some(3));
        }
        other => panic!("expected Creating, got {other:?}"),
    }
    match step(state, RememberEvent::Created(Ok(Ok(applied())))) {
        Remembering::Done { reply: ToolReply::Success(value) } => assert_eq!(
            value.to_text(),
            r#"{"memory_id":"m-1","entry_version":1,"audit_id":9,"outcome":"applied","scope":"repository"}"#
        ),
        other => panic!("expected Done, got {other:?}"),
    }
}

#[test]
fn a_replayed_call_goes_to_the_store_as_it_came() {
    let state = Remembering::new(remember(r#"{"text":"всегда","kind":"fact"}"#));
    let state = step(state, RememberEvent::Resolved(Ok(Resolution::GlobalOnly)));
    match step(state, RememberEvent::Checked(Ok(Some(true)))) {
        Remembering::Creating { plan, .. } => {
            assert_eq!(plan.text, "всегда");
            assert_eq!(plan.row, None);
            assert_eq!(plan.scope_kind, ScopeKind::Global);
        }
        other => panic!("expected Creating, got {other:?}"),
    }
}

#[test]
fn a_lookup_that_fails_counts_as_new() {
    let state = Remembering::new(remember(r#"{"text":"t","kind":"fact"}"#));
    let state = step(state, RememberEvent::Resolved(resolved()));
    let state = step(state, RememberEvent::Checked(Ok(None)));
    assert!(matches!(state, Remembering::Deciding { .. }));
}

#[test]
fn remember_stops_where_the_store_or_the_scope_fails() {
    let unreadable = |e: &str| Remembering::Done {
        reply: ToolReply::Failed(Failure::IndexUnavailable { details: e.to_string() }),
    };
    let start = || Remembering::new(remember(r#"{"text":"t","kind":"fact","scope":"worktree"}"#));
    assert_eq!(
        step(start(), RememberEvent::Resolved(Err("locked".to_string()))),
        unreadable("locked")
    );
    assert_eq!(
        step(start(), RememberEvent::Resolved(Ok(Resolution::GlobalOnly))),
        Remembering::Done { reply: ToolReply::Failed(Failure::WorktreeNotIndexed) }
    );
    let checking = step(start(), RememberEvent::Resolved(resolved()));
    assert_eq!(
        step(checking, RememberEvent::Checked(Err("gone".to_string()))),
        unreadable("gone")
    );
    // What does not belong to the step changes nothing.
    assert_eq!(step(start(), RememberEvent::Hashed("x".to_string())), start());
    assert_eq!(step(unreadable("a"), RememberEvent::Resolved(resolved())), unreadable("a"));
}

#[test]
fn an_edit_of_the_importance_alone_decides_nothing() {
    let change = edit(r#"{"id":"m-1","expected_version":2,"patch":{"importance":1}}"#);
    match Editing::new(change, 3) {
        Editing::Writing { plan } => {
            assert_eq!(plan.text, None);
            assert_eq!(plan.row, None);
            assert_eq!(plan.expected_version, 2);
        }
        other => panic!("expected Writing, got {other:?}"),
    }
}

#[test]
fn an_edit_of_the_text_is_decided_first() {
    let change = edit(r#"{"id":"m-1","expected_version":2,"patch":{"text":"always"}}"#);
    let state = Editing::new(change, 3);
    assert!(matches!(state, Editing::Deciding { .. }));
    let english = Normalized::AlreadyEnglish { class: ScriptClass::English };
    let state = state.on_event(EditEvent::Decided(english), 3);
    assert_eq!(state.text_to_hash().as_deref(), Some("always"));
    let state = state.on_event(EditEvent::Hashed("sha".to_string()), 3);
    match &state {
        Editing::Writing { plan } => {
            assert_eq!(plan.text.as_deref(), Some("always"));
            assert_eq!(plan.row.as_ref().unwrap().canon_text_sha256, "sha");
        }
        other => panic!("expected Writing, got {other:?}"),
    }
    let refused = EditEvent::Written(Ok(Err(MemoryOpError::UnknownMemory)));
    assert_eq!(
        state.on_event(refused, 3),
        Editing::Done { reply: ToolReply::Failed(Failure::UnknownMemory) }
    );
}

const RU: &str = "мы решили всегда запускать тесты перед коммитом";
const EN: &str = "we always run the tests before committing";

struct Stored {
    memory_id: String,
    key: String,
    text: String,
    row: Option<OwnedNormalizationRow>,
}

/// A store of entries and a model that answers from a script and counts its calls.
struct Desk {
    answer: Option<Result<&'static str, ()>>,
    calls: Cell<usize>,
    entries: RefCell<Vec<Stored>>,
}

impl Desk {
    fn new(answer: Option<Result<&'static str, ()>>) -> Self {
        Desk { answer, calls: Cell::new(0), entries: RefCell::new(Vec::new()) }
    }

    fn decide(&self, memory_id: &str, text: &str) -> Normalized {
        let class =
            if text.is_ascii() { ScriptClass::English } else { ScriptClass::NonLatin };
        let translate = self.answer.map(|answer| {
            move |_: &str, _: &str| {
                self.calls.set(self.calls.get() + 1);
                match answer {
                    Ok(english) => Translation::Translated { english: english.to_string() },
                    Err(()) => Translation::Failed {
                        reason: "refused".to_string(),
                        kind: TranslateFailureKind::Mechanical,
                    },
                }
            }
        });
        normalize_for_write(class, &translate, "scripted-model", memory_id, text)
    }

    fn remember(&self, text: &str, request_id: &str) {
        let args = JsonMap::new().with("text", Json::string(text)).with("kind", Json::string("fact"));
        let key = idempotency_key("sess-1", &Json::string(request_id));
        let memory_id = format!("m-{}", self.entries.borrow().len());
        let mut state = Remembering::new(parse_remember(&args).unwrap());
        loop {
            let event = match &state {
                Remembering::Resolving { .. } => {
                    RememberEvent::Resolved(Ok(Resolution::GlobalOnly))
                }
                Remembering::Checking { .. } => RememberEvent::Checked(Ok(Some(
                    self.entries.borrow().iter().any(|stored| stored.key == key),
                ))),
                Remembering::Deciding { request, .. } => {
                    RememberEvent::Decided(self.decide(&memory_id, &request.text))
                }
                Remembering::Hashing { .. } => {
                    RememberEvent::Hashed(format!("sha:{}", state.text_to_hash().unwrap()))
                }
                Remembering::Creating { plan, .. } => {
                    let mut entries = self.entries.borrow_mut();
                    let known = entries.iter().position(|stored| stored.key == plan.idempotency_key);
                    let result = |memory_id: &str| MemoryOpResult {
                        memory_id: memory_id.to_string(),
                        entry_version: 1,
                        audit_id: 1,
                    };
                    let outcome = match known {
                        Some(at) => MemoryOpOutcome::Replayed(result(&entries[at].memory_id)),
                        None => {
                            entries.push(Stored {
                                memory_id: plan.memory_id.clone(),
                                key: plan.idempotency_key.clone(),
                                text: plan.text.clone(),
                                row: plan.row.clone(),
                            });
                            MemoryOpOutcome::Applied(result(&plan.memory_id))
                        }
                    };
                    RememberEvent::Created(Ok(Ok(outcome)))
                }
                Remembering::Done { reply } => {
                    assert!(matches!(reply, ToolReply::Success(_)), "{reply:?}");
                    return;
                }
            };
            state = state.on_event(event, &memory_id, &key, 3);
        }
    }

    fn edit(&self, change: EditMemory) {
        let mut state = Editing::new(change, 3);
        loop {
            let event = match &state {
                Editing::Deciding { edit, text } => EditEvent::Decided(self.decide(&edit.id, text)),
                Editing::Hashing { .. } => {
                    EditEvent::Hashed(format!("sha:{}", state.text_to_hash().unwrap()))
                }
                Editing::Writing { plan } => {
                    let mut entries = self.entries.borrow_mut();
                    let stored =
                        entries.iter_mut().find(|stored| stored.memory_id == plan.memory_id);
                    let stored = stored.unwrap();
                    if let Some(text) = &plan.text {
                        stored.text = text.clone();
                    }
                    if plan.row.is_some() {
                        stored.row = plan.row.clone();
                    }
                    EditEvent::Written(Ok(Ok(applied())))
                }
                Editing::Done { reply } => {
                    assert!(matches!(reply, ToolReply::Success(_)), "{reply:?}");
                    return;
                }
            };
            state = state.on_event(event, 3);
        }
    }

    fn only_entry(&self) -> (String, OwnedNormalizationRow) {
        let entries = self.entries.borrow();
        assert_eq!(entries.len(), 1);
        (entries[0].text.clone(), entries[0].row.clone().expect("row exists"))
    }
}

#[test]
fn english_text_costs_zero_inference() {
    let desk = Desk::new(Some(Ok("SHOULD NOT BE USED")));
    desk.remember(EN, "req-1");

    assert_eq!(desk.calls.get(), 0, "the detector answered on its own");
    let (text, row) = desk.only_entry();
    assert_eq!(text, EN);
    assert_eq!(row.status, NormalizationStatus::English);
    assert_eq!(row.source_text, None, "there is no other text to keep");
}

#[test]
fn russian_text_is_stored_english_with_the_original_as_provenance() {
    let desk = Desk::new(Some(Ok(EN)));
    desk.remember(RU, "req-1");

    assert_eq!(desk.calls.get(), 1);
    let (text, row) = desk.only_entry();
    assert_eq!(text, EN, "the canon is English");
    assert_eq!(row.status, NormalizationStatus::Translated);
    assert_eq!(row.source_text.as_deref(), Some(RU));
    assert_eq!(row.normalizer_model_id.as_deref(), Some("scripted-model"));
    assert_eq!(row.canon_text_sha256, format!("sha:{EN}"));
}

#[test]
fn a_refused_translation_keeps_the_note_and_records_why() {
    let desk = Desk::new(Some(Err(())));
    desk.remember(RU, "req-1");

    assert_eq!(desk.calls.get(), 1);
    let (text, row) = desk.only_entry();
    assert_eq!(text, RU, "no half-translation, no lost note");
    assert_eq!(row.status, NormalizationStatus::Failed);
    assert!(row.last_error.is_some(), "the refusal is recorded");
    assert_eq!(row.attempt_count, 1, "a real refusal spends an attempt");
}

#[test]
fn no_installed_model_is_a_refusal_not_a_failure_of_the_entry() {
    let desk = Desk::new(None);
    desk.remember(RU, "req-1");

    let (text, row) = desk.only_entry();
    assert_eq!(text, RU);
    assert_eq!(row.status, NormalizationStatus::Failed);
    assert_eq!(row.attempt_count, 0, "a missing model is not the entry's fault");
}

#[test]
fn editing_with_russian_text_installs_an_english_canon_and_replaces_the_row() {
    let desk = Desk::new(Some(Ok(EN)));
    desk.remember("the first version of this note", "req-1");
    assert_eq!(desk.calls.get(), 0);

    let patch = JsonMap::new().with("text", Json::string(RU)).json();
    let args = JsonMap::new()
        .with("id", Json::string("m-0"))
        .with("expected_version", Json::integer(1))
        .with("patch", patch);
    desk.edit(parse_edit_memory(&args).unwrap());

    assert_eq!(desk.calls.get(), 1);
    let (text, row) = desk.only_entry();
    assert_eq!(text, EN, "the new canon is English");
    assert_eq!(row.status, NormalizationStatus::Translated);
    assert_eq!(row.source_text.as_deref(), Some(RU));
}

#[test]
fn a_replay_does_not_translate_twice() {
    let desk = Desk::new(Some(Ok(EN)));
    desk.remember(RU, "req-1");
    assert_eq!(desk.calls.get(), 1);

    desk.remember(RU, "req-1");
    assert_eq!(desk.calls.get(), 1, "the idempotency key was checked before the translator");
    assert_eq!(desk.entries.borrow().len(), 1);
}
