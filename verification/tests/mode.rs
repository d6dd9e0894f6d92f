use local_rag::failure::Failure;
use local_rag::mode::{
    error_envelope, migration_only_reason, DaemonMode, MigrationError, MigrationOnlyReason,
};

#[test]
fn incompatible_store_names_both_versions() {
    let reason = migration_only_reason(&MigrationError::IncompatibleStore {
        store_version: 3,
        binary_max_version: 2,
    });
    assert_eq!(
        reason,
        MigrationOnlyReason::IncompatibleStore { store_version: 3, binary_max_version: 2 }
    );
    assert_eq!(
        error_envelope(&reason),
        Failure::IncompatibleStore { details: "store_version 3 > binary_max 2".to_string() }
    );
}

#[test]
fn checksum_drift_names_the_version_and_migration_name() {
    let reason = migration_only_reason(&MigrationError::ChecksumDrift {
        version: 1,
        name: "repository_registry".to_string(),
        expected: "aaa".to_string(),
        found: "bbb".to_string(),
    });
    assert_eq!(
        reason,
        MigrationOnlyReason::ChecksumDrift { version: 1, name: "repository_registry".to_string() }
    );
    match error_envelope(&reason) {
        Failure::IncompatibleStore { details } => {
            assert!(details.contains('1'), "{details}");
            assert!(details.contains("repository_registry"), "{details}");
        }
        other => panic!("expected an incompatible store, got {other:?}"),
    }
}

#[test]
fn other_migration_errors_fall_back_to_their_display_text() {
    let reason = migration_only_reason(&MigrationError::Other {
        message: "unknown applied migration version 9".to_string(),
    });
    match &reason {
        MigrationOnlyReason::Other { detail } => assert!(detail.contains('9'), "{detail}"),
        other => panic!("expected Other, got {other:?}"),
    }
    assert!(matches!(error_envelope(&reason), Failure::IncompatibleStore { .. }));
}

#[test]
fn the_modes_have_their_names() {
    assert_eq!(DaemonMode::Normal.as_str(), "normal");
    let confined = DaemonMode::MigrationOnly {
        reason: MigrationOnlyReason::Other { detail: "test".to_string() },
    };
    assert_eq!(confined.as_str(), "migration_only");
}
