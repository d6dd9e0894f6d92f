//! The store lock: who owns the store, how it is taken over, and what its record says.
//!
//! The operating system holds the lock for as long as its owner lives. An attempt that is
//! blocked therefore proves a live owner, whatever the record says, and nothing is ever
//! reclaimed: the attempt is repeated until the outgoing owner is done or time is up.

use vstd::prelude::*;

use crate::json::{Json, JsonMap};
use crate::text::{concat2, concat5, decimal_u64};

verus! {

/// How long a blocked attempt is repeated before it is given up, in milliseconds.
pub const LOCK_HANDOVER_BUDGET_MS: u64 = 10_000;

/// The time between two attempts, in milliseconds.
pub const HANDOVER_POLL_MS: u64 = 25;

/// How often the record of a live owner is read before it counts as unreadable.
pub const OWNER_READ_ATTEMPTS: u32 = 5;

/// The time between two reads of the record, in milliseconds.
pub const OWNER_READ_RETRY_MS: u64 = 2;

/// The record of the instance that owns the store.
#[derive(Debug, Clone, PartialEq, Eq)]
pub struct StoreLockInfo<S = String> {
    /// The identity of this run of the daemon.
    pub instance_uuid: S,
    /// The process id, which may be reused and identifies nothing by itself.
    pub pid: u32,
    pub daemon_version: S,
    /// When the lock was taken, in milliseconds.
    pub started_at: i64,
    /// Whether the endpoint is bound.
    pub ready: bool,
    /// When the endpoint was bound, in milliseconds.
    pub ready_at: Option<i64>,
    /// The path of the endpoint.
    pub socket_path: Option<S>,
}

impl View for StoreLockInfo<String> {
    type V = StoreLockInfo<Seq<char>>;

    open spec fn view(&self) -> StoreLockInfo<Seq<char>> {
        StoreLockInfo {
            instance_uuid: self.instance_uuid@,
            pid: self.pid,
            daemon_version: self.daemon_version@,
            started_at: self.started_at,
            ready: self.ready,
            ready_at: self.ready_at,
            socket_path: self.socket_path.deep_view(),
        }
    }
}

/// The record of an instance that has just taken the lock.
pub open spec fn fresh_record(
    instance_uuid: Seq<char>,
    pid: u32,
    daemon_version: Seq<char>,
    now_ms: i64,
) -> StoreLockInfo<Seq<char>> {
    StoreLockInfo {
        instance_uuid,
        pid,
        daemon_version,
        started_at: now_ms,
        ready: false,
        ready_at: None,
        socket_path: None,
    }
}

/// The record as it is written.
pub open spec fn record_json(info: StoreLockInfo<Seq<char>>) -> crate::json::JsonView {
    crate::json::JsonView::Obj(
        crate::json::nothing().push(
            ("instance_uuid"@, crate::json::JsonView::Str(info.instance_uuid)),
        ).push(("pid"@, crate::json::JsonView::integer(info.pid as int))).push(
            ("daemon_version"@, crate::json::JsonView::Str(info.daemon_version)),
        ).push(("started_at"@, crate::json::JsonView::integer(info.started_at as int))).push(
            ("ready"@, crate::json::JsonView::Bool(info.ready)),
        ).push(("ready_at"@, crate::json::JsonView::opt_int(info.ready_at))).push(
            ("socket_path"@, crate::json::JsonView::opt_text(info.socket_path)),
        ),
    )
}

/// The record once the endpoint is bound.
pub open spec fn ready_record(
    info: StoreLockInfo<Seq<char>>,
    now_ms: i64,
    socket_path: Seq<char>,
) -> StoreLockInfo<Seq<char>> {
    StoreLockInfo {
        ready: true,
        ready_at: Some(now_ms),
        socket_path: Some(socket_path),
        ..info
    }
}

impl StoreLockInfo<String> {
    /// The record of an instance that has just taken the lock.
    pub fn fresh(instance_uuid: &str, pid: u32, daemon_version: &str, now_ms: i64) -> (r: Self)
        ensures
            r@ == fresh_record(instance_uuid@, pid, daemon_version@, now_ms),
    {
        StoreLockInfo {
            instance_uuid: instance_uuid.to_owned(),
            pid,
            daemon_version: daemon_version.to_owned(),
            started_at: now_ms,
            ready: false,
            ready_at: None,
            socket_path: None,
        }
    }

    /// Stands in for a live owner whose record cannot be read. No daemon runs as process 0.
    pub fn unknown_owner() -> (r: Self)
        ensures
            r@ == fresh_record("<unknown>"@, 0, "<unknown>"@, 0),
    {
        Self::fresh("<unknown>", 0, "<unknown>", 0)
    }

    /// Notes that the endpoint is bound.
    pub fn mark_ready(&mut self, now_ms: i64, socket_path: &str)
        ensures
            final(self)@ == ready_record(old(self)@, now_ms, socket_path@),
    {
        self.ready = true;
        self.ready_at = Some(now_ms);
        self.socket_path = Some(socket_path.to_owned());
    }

    /// The text of the record.
    pub fn record_text(&self) -> (r: String)
        ensures
            r@ == crate::json::json_text(record_json(self@)),
    {
        let record = JsonMap::new().with("instance_uuid", Json::string(self.instance_uuid.as_str()))
            .with("pid", Json::unsigned(self.pid as u64)).with(
            "daemon_version",
            Json::string(self.daemon_version.as_str()),
        ).with("started_at", Json::integer(self.started_at)).with(
            "ready",
            Json::boolean(self.ready),
        ).with("ready_at", Json::opt_int(self.ready_at)).with(
            "socket_path",
            Json::opt_string(&self.socket_path),
        ).json();
        record.to_text()
    }
}

/// A record's bytes, followed by spaces up to the length of the one before it.
pub open spec fn padded(json: Seq<u8>, previous_len: int) -> Seq<u8> {
    if previous_len > json.len() {
        json + Seq::new((previous_len - json.len()) as nat, |i: int| 32u8)
    } else {
        json
    }
}

/// The bytes that are written over a record of `previous_len` bytes. They cover all of it,
/// so that a reader sees the old record or the new one, and never the head of one with the
/// tail of the other.
pub fn padded_record(json: &[u8], previous_len: u64) -> (r: Vec<u8>)
    ensures
        r@ == padded(
            json@,
            if previous_len > usize::MAX {
                usize::MAX as int
            } else {
                previous_len as int
            },
        ),
{
    let target: usize = if previous_len > usize::MAX as u64 {
        usize::MAX
    } else {
        previous_len as usize
    };
    let mut buf: Vec<u8> = Vec::new();
    let mut i: usize = 0;
    while i < json.len()
        invariant
            i <= json@.len(),
            buf@ == json@.take(i as int),
        decreases json@.len() - i,
    {
        buf.push(json[i]);
        i = i + 1;
        proof {
            assert(buf@ =~= json@.take(i as int));
        }
    }
    proof {
        assert(json@.take(i as int) =~= json@);
    }
    while buf.len() < target
        invariant
            json@.len() <= buf@.len(),
            json@.len() < target ==> buf@.len() <= target,
            json@.len() >= target ==> buf@ == json@,
            buf@ == padded(json@, buf@.len() as int),
        decreases target - buf.len(),
    {
        let ghost before = buf@.len() as int;
        buf.push(32u8);
        proof {
            assert(buf@ =~= padded(json@, before + 1));
        }
    }
    buf
}

/// What is written covers the previous record, and cutting it back to the new one's length
/// leaves exactly the new one.
pub proof fn law_padding_leaves_no_trace(json: Seq<u8>, previous_len: nat)
    ensures
        padded(json, previous_len as int).len() >= previous_len,
        padded(json, previous_len as int).take(json.len() as int) == json,
        forall|i: int|
            json.len() <= i < padded(json, previous_len as int).len() ==> (#[trigger] padded(
                json,
                previous_len as int,
            )[i]) == 32u8,
{
    assert(padded(json, previous_len as int).take(json.len() as int) =~= json);
}

/// A rewrite of the record through the handle that holds the lock: `bytes` from the start
/// of the file, then the file is cut to `len`. It never shrinks before it is written.
#[derive(Debug, PartialEq, Eq)]
pub struct Rewrite {
    pub bytes: Vec<u8>,
    pub len: u64,
}

/// How `info` is written over a file of `previous_len` bytes.
pub fn rewrite(info: &StoreLockInfo, previous_len: u64) -> (r: Rewrite)
    ensures
        ({
            let json = vstd::utf8::encode_utf8(crate::json::json_text(record_json(info@)));
            &&& r.len == json.len()
            &&& r.bytes@ == padded(
                json,
                if previous_len > usize::MAX {
                    usize::MAX as int
                } else {
                    previous_len as int
                },
            )
        }),
{
    let text = info.record_text();
    let json = text.as_str().as_bytes();
    let bytes = padded_record(json, previous_len);
    Rewrite { bytes, len: json.len() as u64 }
}

/// Why the store is not ours.
#[derive(Debug, PartialEq, Eq)]
#[non_exhaustive]
pub enum StoreLockError<S = String> {
    /// A live instance holds the store.
    Locked { owner: StoreLockInfo<S> },
    /// The lock file could not be made private.
    LockPath(S),
    /// The lock file could not be opened, locked or written.
    Io(S),
}

impl View for StoreLockError<String> {
    type V = StoreLockError<Seq<char>>;

    open spec fn view(&self) -> StoreLockError<Seq<char>> {
        match *self {
            StoreLockError::Locked { owner } => StoreLockError::Locked { owner: owner@ },
            StoreLockError::LockPath(e) => StoreLockError::LockPath(e@),
            StoreLockError::Io(e) => StoreLockError::Io(e@),
        }
    }
}

/// What is said of a [`StoreLockError`].
pub open spec fn lock_error_text(e: StoreLockError<Seq<char>>) -> Seq<char> {
    match e {
        StoreLockError::Locked { owner } => "store is locked by pid "@ + crate::text::decimal(
            owner.pid as int,
        ) + " (instance "@ + owner.instance_uuid + ")"@,
        StoreLockError::LockPath(e) => "store lock path error: "@ + e,
        StoreLockError::Io(e) => "store lock i/o error: "@ + e,
    }
}

impl StoreLockError<String> {
    /// What went wrong, in words.
    pub fn message(&self) -> (r: String)
        ensures
            r@ == lock_error_text(self@),
    {
        match self {
            StoreLockError::Locked { owner } => concat5(
                "store is locked by pid ",
                decimal_u64(owner.pid as u64).as_str(),
                " (instance ",
                owner.instance_uuid.as_str(),
                ")",
            ),
            StoreLockError::LockPath(e) => concat2("store lock path error: ", e.as_str()),
            StoreLockError::Io(e) => concat2("store lock i/o error: ", e.as_str()),
        }
    }
}

/// How one attempt to take the lock went.
#[derive(Debug, PartialEq, Eq)]
pub enum Attempt {
    /// The lock is ours and the record is written.
    Acquired,
    /// A live process holds the lock.
    Blocked,
    /// The file was gone when it was opened: its owner removed it on the way out.
    NotFound { message: String },
    /// The file could not be made private.
    Path { message: String },
    /// Any other failure.
    Io { message: String },
}

/// What is done after an attempt.
#[derive(Debug, PartialEq, Eq)]
pub enum AcquireStep<S = String> {
    /// Remove the socket a dead owner left behind, and go on as the owner.
    Own,
    /// Wait [`HANDOVER_POLL_MS`], then make sure that the file exists and try again.
    Retry,
    /// Refuse, naming the owner.
    Refuse,
    /// Fail.
    Fail(StoreLockError<S>),
}

impl View for AcquireStep<String> {
    type V = AcquireStep<Seq<char>>;

    open spec fn view(&self) -> AcquireStep<Seq<char>> {
        match *self {
            AcquireStep::Own => AcquireStep::Own,
            AcquireStep::Retry => AcquireStep::Retry,
            AcquireStep::Refuse => AcquireStep::Refuse,
            AcquireStep::Fail(e) => AcquireStep::Fail(e@),
        }
    }
}

/// The step after `attempt`, where `late` says whether the time for a handover is over.
pub open spec fn acquire_step(attempt: Attempt, late: bool) -> AcquireStep<Seq<char>> {
    match attempt {
        Attempt::Acquired => AcquireStep::Own,
        Attempt::Blocked => if late {
            AcquireStep::Refuse
        } else {
            AcquireStep::Retry
        },
        Attempt::NotFound { message } => if late {
            AcquireStep::Fail(StoreLockError::Io(message@))
        } else {
            AcquireStep::Retry
        },
        Attempt::Path { message } => AcquireStep::Fail(StoreLockError::LockPath(message@)),
        Attempt::Io { message } => AcquireStep::Fail(StoreLockError::Io(message@)),
    }
}

/// The step after `attempt`, where `late` says whether the time for a handover is over.
pub fn after_attempt(attempt: Attempt, late: bool) -> (r: AcquireStep)
    ensures
        r@ == acquire_step(attempt, late),
{
    match attempt {
        Attempt::Acquired => AcquireStep::Own,
        Attempt::Blocked => {
            if late {
                AcquireStep::Refuse
            } else {
                AcquireStep::Retry
            }
        },
        Attempt::NotFound { message } => {
            if late {
                AcquireStep::Fail(StoreLockError::Io(message))
            } else {
                AcquireStep::Retry
            }
        },
        Attempt::Path { message } => AcquireStep::Fail(StoreLockError::LockPath(message)),
        Attempt::Io { message } => AcquireStep::Fail(StoreLockError::Io(message)),
    }
}

/// How attempts made one after the other end: the first step that is no retry.
pub open spec fn acquiring(attempts: Seq<(Attempt, bool)>) -> AcquireStep<Seq<char>>
    decreases attempts.len(),
{
    if attempts.len() == 0 {
        AcquireStep::Retry
    } else {
        let step = acquire_step(attempts[0].0, attempts[0].1);
        if step is Retry {
            acquiring(attempts.drop_first())
        } else {
            step
        }
    }
}

/// The store becomes ours only through an attempt that got the lock.
pub proof fn law_only_the_lock_gives_the_store(attempts: Seq<(Attempt, bool)>)
    ensures
        acquiring(attempts) is Own ==> exists|i: int|
            0 <= i < attempts.len() && (#[trigger] attempts[i]).0 is Acquired,
    decreases attempts.len(),
{
    if attempts.len() > 0 {
        let rest = attempts.drop_first();
        law_only_the_lock_gives_the_store(rest);
        if attempts[0].0 is Acquired {
        } else if acquiring(attempts) is Own {
            let i = choose|i: int| 0 <= i < rest.len() && (#[trigger] rest[i]).0 is Acquired;
            assert(attempts[i + 1].0 is Acquired);
        }
    }
}

/// While a live owner keeps the lock the store is refused, and not before the time for a
/// handover is over.
pub proof fn law_a_live_owner_keeps_the_store(attempts: Seq<(Attempt, bool)>)
    requires
        forall|i: int| 0 <= i < attempts.len() ==> (#[trigger] attempts[i]).0 is Blocked,
    ensures
        acquiring(attempts) == if exists|i: int|
            0 <= i < attempts.len() && (#[trigger] attempts[i]).1 {
            AcquireStep::<Seq<char>>::Refuse
        } else {
            AcquireStep::<Seq<char>>::Retry
        },
    decreases attempts.len(),
{
    if attempts.len() > 0 {
        let rest = attempts.drop_first();
        assert forall|i: int| 0 <= i < rest.len() implies (#[trigger] rest[i]).0 is Blocked by {
            assert(rest[i] == attempts[i + 1]);
        }
        law_a_live_owner_keeps_the_store(rest);
        assert(attempts[0].0 is Blocked);
        if !attempts[0].1 {
            if exists|i: int| 0 <= i < attempts.len() && (#[trigger] attempts[i]).1 {
                let i = choose|i: int| 0 <= i < attempts.len() && (#[trigger] attempts[i]).1;
                assert(rest[i - 1].1);
            }
            if exists|i: int| 0 <= i < rest.len() && (#[trigger] rest[i]).1 {
                let i = choose|i: int| 0 <= i < rest.len() && (#[trigger] rest[i]).1;
                assert(attempts[i + 1].1);
            }
        }
    }
}

/// A refusal that names the owner: by its record where that could be read, and as unknown
/// where not.
pub open spec fn refusal(record: Option<StoreLockInfo<Seq<char>>>) -> StoreLockError<Seq<char>> {
    StoreLockError::Locked {
        owner: match record {
            Some(info) => info,
            None => fresh_record("<unknown>"@, 0, "<unknown>"@, 0),
        },
    }
}

/// A refusal that names the owner.
pub fn refused(record: Option<StoreLockInfo>) -> (r: StoreLockError)
    ensures
        r@ == refusal(
            match record {
                Some(info) => Some(info@),
                None => None,
            },
        ),
{
    match record {
        Some(owner) => StoreLockError::Locked { owner },
        None => StoreLockError::Locked { owner: StoreLockInfo::unknown_owner() },
    }
}

/// Reads the record of a live owner. It may be a moment before the record is there, so an
/// unreadable one is read again, [`OWNER_READ_ATTEMPTS`] times at most, and one that was read
/// gives no leave to read again. `read` is told the
/// number of the attempt, and waits [`OWNER_READ_RETRY_MS`] before any but the first.
pub fn settled<F: Fn(u32) -> Option<StoreLockInfo>>(read: F) -> (r: Option<StoreLockInfo>)
    requires
        call_requires(read, (0u32,)),
        forall|attempt: u32|
            attempt + 1 < OWNER_READ_ATTEMPTS && #[trigger] call_ensures(read, (attempt,), None)
                ==> call_requires(read, ((attempt + 1) as u32,)),
    ensures
        match r {
            Some(info) => exists|attempt: u32|
                #![trigger call_ensures(read, (attempt,), Some(info))]
                attempt < OWNER_READ_ATTEMPTS && call_ensures(read, (attempt,), Some(info)) && (
                forall|before: u32|
                    #![trigger call_ensures(read, (before,), None)]
                    before < attempt ==> call_ensures(read, (before,), None)),
            None => forall|attempt: u32|
                #![trigger call_ensures(read, (attempt,), None)]
                attempt < OWNER_READ_ATTEMPTS ==> call_ensures(read, (attempt,), None),
        },
{
    let mut attempt: u32 = 0;
    while attempt < OWNER_READ_ATTEMPTS
        invariant
            attempt <= OWNER_READ_ATTEMPTS,
            attempt < OWNER_READ_ATTEMPTS ==> call_requires(read, (attempt,)),
            forall|a: u32|
                a + 1 < OWNER_READ_ATTEMPTS && #[trigger] call_ensures(read, (a,), None)
                    ==> call_requires(read, ((a + 1) as u32,)),
            forall|a: u32|
                #![trigger call_ensures(read, (a,), None)]
                a < attempt ==> call_ensures(read, (a,), None),
        decreases OWNER_READ_ATTEMPTS - attempt,
    {
        let record = read(attempt);
        if let Some(info) = record {
            return Some(info);
        }
        attempt = attempt + 1;
    }
    None
}

/// Whether the path still names the very file that is held open. Each file is given by its
/// device and its number, where they could be read.
pub open spec fn same_file(mine: Option<(u64, u64)>, named: Option<(u64, u64)>) -> bool {
    mine is Some && mine == named
}

/// Whether the path still names the very file that is held open.
pub fn still_owns_path(mine: Option<(u64, u64)>, named: Option<(u64, u64)>) -> (r: bool)
    ensures
        r <==> same_file(mine, named),
{
    match (mine, named) {
        (Some(a), Some(b)) => a.0 == b.0 && a.1 == b.1,
        _ => false,
    }
}

/// What a look at the lock file finds.
#[derive(Debug, Clone, PartialEq, Eq)]
pub enum StoreLockFileState<S = String> {
    /// There is no such file.
    Absent,
    /// The file holds no record.
    Corrupt,
    /// The file holds a record, which says nothing of whether its owner lives.
    Parsed(StoreLockInfo<S>),
}

impl View for StoreLockFileState<String> {
    type V = StoreLockFileState<Seq<char>>;

    open spec fn view(&self) -> StoreLockFileState<Seq<char>> {
        match *self {
            StoreLockFileState::Absent => StoreLockFileState::Absent,
            StoreLockFileState::Corrupt => StoreLockFileState::Corrupt,
            StoreLockFileState::Parsed(info) => StoreLockFileState::Parsed(info@),
        }
    }
}

/// What reading the lock file gave.
#[derive(Debug, PartialEq, Eq)]
pub enum LockFileRead {
    Missing,
    Unreadable,
    /// The record that the bytes parse to, if they do.
    Read { record: Option<StoreLockInfo> },
}

/// The state of the lock file after it was read.
pub open spec fn file_state(read: LockFileRead) -> StoreLockFileState<Seq<char>> {
    match read {
        LockFileRead::Missing => StoreLockFileState::Absent,
        LockFileRead::Unreadable => StoreLockFileState::Corrupt,
        LockFileRead::Read { record: None } => StoreLockFileState::Corrupt,
        LockFileRead::Read { record: Some(info) } => StoreLockFileState::Parsed(info@),
    }
}

/// The state of the lock file after it was read.
pub fn read_store_lock_file(read: LockFileRead) -> (r: StoreLockFileState)
    ensures
        r@ == file_state(read),
{
    match read {
        LockFileRead::Missing => StoreLockFileState::Absent,
        LockFileRead::Unreadable => StoreLockFileState::Corrupt,
        LockFileRead::Read { record } => match record {
            None => StoreLockFileState::Corrupt,
            Some(info) => StoreLockFileState::Parsed(info),
        },
    }
}

/// A record that was just written says who has the lock and since when, and that nothing is
/// bound. Once the endpoint is bound it says so, since when and where, and the rest of it stays.
pub proof fn law_a_record_becomes_ready_once_bound(
    instance_uuid: Seq<char>,
    pid: u32,
    daemon_version: Seq<char>,
    now_ms: i64,
    info: StoreLockInfo<Seq<char>>,
    socket_path: Seq<char>,
)
    ensures
        ({
            let fresh = fresh_record(instance_uuid, pid, daemon_version, now_ms);
            &&& fresh.instance_uuid == instance_uuid
            &&& fresh.pid == pid
            &&& fresh.daemon_version == daemon_version
            &&& fresh.started_at == now_ms
            &&& !fresh.ready
            &&& fresh.ready_at is None
            &&& fresh.socket_path is None
        }),
        ({
            let ready = ready_record(info, now_ms, socket_path);
            &&& ready.ready
            &&& ready.ready_at == Some(now_ms)
            &&& ready.socket_path == Some(socket_path)
            &&& ready.instance_uuid == info.instance_uuid
            &&& ready.pid == info.pid
            &&& ready.daemon_version == info.daemon_version
            &&& ready.started_at == info.started_at
        }),
{
}

/// The record as it is written names each of its fields, and has no others.
pub proof fn law_a_record_is_written_whole(info: StoreLockInfo<Seq<char>>)
    ensures
        ({
            let record = record_json(info);
            &&& crate::json::has_member(
                record,
                "instance_uuid"@,
                crate::json::JsonView::Str(info.instance_uuid),
            )
            &&& crate::json::has_member(
                record,
                "pid"@,
                crate::json::JsonView::integer(info.pid as int),
            )
            &&& crate::json::has_member(
                record,
                "daemon_version"@,
                crate::json::JsonView::Str(info.daemon_version),
            )
            &&& crate::json::has_member(
                record,
                "started_at"@,
                crate::json::JsonView::integer(info.started_at as int),
            )
            &&& crate::json::has_member(
                record,
                "ready"@,
                crate::json::JsonView::Bool(info.ready),
            )
            &&& crate::json::has_member(
                record,
                "ready_at"@,
                crate::json::JsonView::opt_int(info.ready_at),
            )
            &&& crate::json::has_member(
                record,
                "socket_path"@,
                crate::json::JsonView::opt_text(info.socket_path),
            )
            &&& (record->Obj_0).len() == 7
        }),
{
    let o = record_json(info)->Obj_0;
    crate::json::lemma_member(o, 0);
    crate::json::lemma_member(o, 1);
    crate::json::lemma_member(o, 2);
    crate::json::lemma_member(o, 3);
    crate::json::lemma_member(o, 4);
    crate::json::lemma_member(o, 5);
    crate::json::lemma_member(o, 6);
}

/// An attempt that got the lock makes the store ours, and no other does. A live owner, and a
/// file that vanished, are waited for until it is too late; then the one is refused and the
/// other fails. Anything else fails at once, as what it is.
pub proof fn law_an_attempt_decides_what_is_done(attempt: Attempt, late: bool)
    ensures
        attempt is Acquired <==> acquire_step(attempt, late) is Own,
        acquire_step(attempt, late) is Retry <==> !late && (attempt is Blocked
            || attempt is NotFound),
        acquire_step(attempt, late) is Refuse <==> late && attempt is Blocked,
        late ==> (attempt matches Attempt::NotFound { message } ==> acquire_step(attempt, late)
            == AcquireStep::Fail(StoreLockError::Io(message@))),
        attempt matches Attempt::Path { message } ==> acquire_step(attempt, late)
            == AcquireStep::Fail(StoreLockError::LockPath(message@)),
        attempt matches Attempt::Io { message } ==> acquire_step(attempt, late)
            == AcquireStep::Fail(StoreLockError::Io(message@)),
{
}

/// A refusal names the owner that the record names, and an unknown one, which runs as no
/// process, where there is no record to read.
pub proof fn law_a_refusal_names_the_owner(info: StoreLockInfo<Seq<char>>)
    ensures
        refusal(Some(info)) == (StoreLockError::Locked { owner: info }),
        refusal(None) matches StoreLockError::Locked { owner } && owner.pid == 0
            && owner.instance_uuid == "<unknown>"@ && owner.daemon_version == "<unknown>"@
            && !owner.ready,
{
}

/// A path is ours only where both files are known to be one and the same.
pub proof fn law_only_the_same_file_is_ours(
    mine: Option<(u64, u64)>,
    named: Option<(u64, u64)>,
)
    ensures
        same_file(mine, named) <==> (mine matches Some(a) && (named matches Some(b) && a.0 == b.0
            && a.1 == b.1)),
        mine is None || named is None ==> !same_file(mine, named),
{
}

/// A lock file that is not there is absent, one that holds a record is that record, and anything
/// else is corrupt.
pub proof fn law_a_lock_file_is_what_was_read(read: LockFileRead)
    ensures
        read is Missing <==> file_state(read) is Absent,
        read matches LockFileRead::Read { record } ==> (record matches Some(info) ==> file_state(
            read,
        ) == StoreLockFileState::Parsed(info@)),
        read matches LockFileRead::Read { record } ==> (record is None ==> file_state(
            read,
        ) is Corrupt),
        read is Unreadable ==> file_state(read) is Corrupt,
{
}

/// What is said of a store that is not ours names the process and the instance that hold it, or
/// ends with what went wrong.
pub proof fn law_a_lock_error_says_why(owner: StoreLockInfo<Seq<char>>, e: Seq<char>)
    ensures
        lock_error_text(StoreLockError::Locked { owner }) == "store is locked by pid "@
            + crate::text::decimal(owner.pid as int) + " (instance "@ + owner.instance_uuid + ")"@,
        lock_error_text(StoreLockError::LockPath(e)) == "store lock path error: "@ + e,
        lock_error_text(StoreLockError::Io(e)) == "store lock i/o error: "@ + e,
{
}

/// A handover is waited for, for ten seconds, and a record is read five times.
pub proof fn law_a_handover_has_ten_seconds()
    ensures
        LOCK_HANDOVER_BUDGET_MS == 10 * 1000,
        HANDOVER_POLL_MS == 25,
        OWNER_READ_ATTEMPTS == 5,
        OWNER_READ_RETRY_MS == 2,
{
}

} // verus!
