use std::cell::Cell;

use local_rag::lock::{
    after_attempt, padded_record, read_store_lock_file, refused, rewrite, settled, still_owns_path,
    AcquireStep, Attempt, LockFileRead, StoreLockError, StoreLockFileState, StoreLockInfo,
    OWNER_READ_ATTEMPTS,
};

fn record() -> StoreLockInfo {
    StoreLockInfo::fresh("instance-a", 4242, "9.9.9", 1_000)
}

fn record_bytes() -> Vec<u8> {
    record().record_text().into_bytes()
}

#[test]
fn a_shorter_record_is_padded_to_cover_the_previous_one() {
    let json = record_bytes();
    let previous_len = json.len() as u64 + 40;

    let buf = padded_record(&json, previous_len);

    assert_eq!(buf.len() as u64, previous_len, "must cover the old record");
    assert!(buf.ends_with(b" "), "the tail must be padding: {buf:?}");
    let parsed: serde_json::Value =
        serde_json::from_slice(&buf).expect("trailing whitespace is valid JSON");
    let unpadded: serde_json::Value = serde_json::from_slice(&json).expect("a record is JSON");
    assert_eq!(parsed, unpadded, "padding must not change what is read");
}

#[test]
fn a_record_at_least_as_long_as_the_previous_one_is_not_padded() {
    let json = record_bytes();

    assert_eq!(padded_record(&json, 0), json, "first write, nothing before");
    assert_eq!(padded_record(&json, json.len() as u64), json, "exact match");
    assert_eq!(padded_record(&json, 1), json, "previous record was shorter");
}

#[test]
fn an_unreadable_record_settles_to_none_rather_than_waiting_forever() {
    let reads = Cell::new(0);
    let found = settled(|_| {
        reads.set(reads.get() + 1);
        None
    });
    assert_eq!(found, None);
    assert_eq!(reads.get(), OWNER_READ_ATTEMPTS);
}

#[test]
fn a_record_that_appears_in_time_is_read() {
    let found = settled(|attempt| if attempt == 3 { Some(record()) } else { None });
    assert_eq!(found, Some(record()));
}

#[test]
fn a_record_is_written_in_the_order_of_its_fields() {
    assert_eq!(
        record().record_text(),
        r#"{"instance_uuid":"instance-a","pid":4242,"daemon_version":"9.9.9","started_at":1000,"ready":false,"ready_at":null,"socket_path":null}"#
    );
    let mut ready = record();
    ready.mark_ready(2_000, "/run/daemon.sock");
    assert!(ready
        .record_text()
        .ends_with(r#""ready":true,"ready_at":2000,"socket_path":"/run/daemon.sock"}"#));
    assert_eq!(ready.instance_uuid, "instance-a");
}

#[test]
fn a_rewrite_never_shrinks_the_file_before_it_is_written() {
    let json = record_bytes();
    let plan = rewrite(&record(), json.len() as u64 + 7);
    assert_eq!(plan.bytes.len(), json.len() + 7);
    assert_eq!(plan.len, json.len() as u64);
    assert_eq!(&plan.bytes[..json.len()], &json[..]);
}

#[test]
fn a_blocked_attempt_is_repeated_and_then_refused() {
    assert_eq!(after_attempt(Attempt::Blocked, false), AcquireStep::Retry);
    assert_eq!(after_attempt(Attempt::Blocked, true), AcquireStep::Refuse);
    assert_eq!(after_attempt(Attempt::Acquired, true), AcquireStep::Own);
    assert_eq!(after_attempt(Attempt::Acquired, false), AcquireStep::Own);
}

#[test]
fn a_file_that_vanishes_is_an_error_only_once_it_is_late() {
    let gone = || Attempt::NotFound { message: "no such file".to_string() };
    assert_eq!(after_attempt(gone(), false), AcquireStep::Retry);
    assert_eq!(
        after_attempt(gone(), true),
        AcquireStep::Fail(StoreLockError::Io("no such file".to_string()))
    );
    assert_eq!(
        after_attempt(Attempt::Io { message: "disk".to_string() }, false),
        AcquireStep::Fail(StoreLockError::Io("disk".to_string()))
    );
    assert_eq!(
        after_attempt(Attempt::Path { message: "mode".to_string() }, false),
        AcquireStep::Fail(StoreLockError::LockPath("mode".to_string()))
    );
}

#[test]
fn a_refusal_names_its_owner_or_says_that_it_cannot() {
    assert_eq!(
        refused(Some(record())).message(),
        "store is locked by pid 4242 (instance instance-a)"
    );
    assert_eq!(refused(None).message(), "store is locked by pid 0 (instance <unknown>)");
    assert_eq!(
        StoreLockError::LockPath("mode".to_string()).message(),
        "store lock path error: mode"
    );
    assert_eq!(StoreLockError::Io("disk".to_string()).message(), "store lock i/o error: disk");
}

#[test]
fn only_the_very_file_that_is_held_is_removed() {
    assert!(still_owns_path(Some((1, 2)), Some((1, 2))));
    assert!(!still_owns_path(Some((1, 2)), Some((1, 3))));
    assert!(!still_owns_path(Some((1, 2)), Some((4, 2))));
    assert!(!still_owns_path(Some((1, 2)), None));
    assert!(!still_owns_path(None, None));
}

#[test]
fn a_look_at_the_file_tells_absent_from_corrupt() {
    assert_eq!(read_store_lock_file(LockFileRead::Missing), StoreLockFileState::Absent);
    assert_eq!(read_store_lock_file(LockFileRead::Unreadable), StoreLockFileState::Corrupt);
    assert_eq!(
        read_store_lock_file(LockFileRead::Read { record: None }),
        StoreLockFileState::Corrupt
    );
    assert_eq!(
        read_store_lock_file(LockFileRead::Read { record: Some(record()) }),
        StoreLockFileState::Parsed(record())
    );
}
