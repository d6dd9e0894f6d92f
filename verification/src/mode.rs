//! The mode the daemon runs in, and why it may be confined to migrations.

use vstd::prelude::*;

use crate::failure::Failure;
use crate::text::{concat4, concat5, decimal_u64};

verus! {

/// Why the store cannot be used as it is.
#[derive(Debug, Clone, PartialEq, Eq)]
pub enum MigrationOnlyReason<S = String> {
    /// The store was written by a newer build.
    IncompatibleStore { store_version: u32, binary_max_version: u32 },
    /// A migration that was applied is not the one this build knows.
    ChecksumDrift { version: u32, name: S },
    /// Anything else that kept the migrations from running.
    Other { detail: S },
}

impl View for MigrationOnlyReason<String> {
    type V = MigrationOnlyReason<Seq<char>>;

    open spec fn view(&self) -> MigrationOnlyReason<Seq<char>> {
        match *self {
            MigrationOnlyReason::IncompatibleStore { store_version, binary_max_version } =>
            MigrationOnlyReason::IncompatibleStore { store_version, binary_max_version },
            MigrationOnlyReason::ChecksumDrift { version, name } =>
            MigrationOnlyReason::ChecksumDrift { version, name: name@ },
            MigrationOnlyReason::Other { detail } => MigrationOnlyReason::Other {
                detail: detail@,
            },
        }
    }
}

/// How the daemon runs.
#[derive(Debug, Clone, PartialEq, Eq)]
pub enum DaemonMode<S = String> {
    Normal,
    MigrationOnly { reason: MigrationOnlyReason<S> },
}

impl View for DaemonMode<String> {
    type V = DaemonMode<Seq<char>>;

    open spec fn view(&self) -> DaemonMode<Seq<char>> {
        match *self {
            DaemonMode::Normal => DaemonMode::Normal,
            DaemonMode::MigrationOnly { reason } => DaemonMode::MigrationOnly { reason: reason@ },
        }
    }
}

impl DaemonMode<String> {
    /// The name of the mode, as clients see it.
    pub fn as_str(&self) -> (r: &'static str)
        ensures
            r@ == mode_name(self@),
    {
        match self {
            DaemonMode::Normal => "normal",
            DaemonMode::MigrationOnly { .. } => "migration_only",
        }
    }
}

/// The name of a mode, as clients see it.
pub open spec fn mode_name(mode: DaemonMode<Seq<char>>) -> Seq<char> {
    match mode {
        DaemonMode::Normal => "normal"@,
        DaemonMode::MigrationOnly { reason } => "migration_only"@,
    }
}

/// How running the migrations failed.
#[derive(Debug, PartialEq, Eq)]
pub enum MigrationError {
    IncompatibleStore { store_version: u32, binary_max_version: u32 },
    ChecksumDrift { version: u32, name: String, expected: String, found: String },
    /// Any other failure, by what it says of itself.
    Other { message: String },
}

/// What a failed migration means for the mode.
pub open spec fn reason_of(e: MigrationError) -> MigrationOnlyReason<Seq<char>> {
    match e {
        MigrationError::IncompatibleStore { store_version, binary_max_version } =>
        MigrationOnlyReason::IncompatibleStore { store_version, binary_max_version },
        MigrationError::ChecksumDrift { version, name, expected, found } =>
        MigrationOnlyReason::ChecksumDrift { version, name: name@ },
        MigrationError::Other { message } => MigrationOnlyReason::Other { detail: message@ },
    }
}

/// What a failed migration means for the mode.
pub fn migration_only_reason(e: &MigrationError) -> (r: MigrationOnlyReason)
    ensures
        r@ == reason_of(*e),
{
    match e {
        MigrationError::IncompatibleStore { store_version, binary_max_version } =>
        MigrationOnlyReason::IncompatibleStore {
            store_version: *store_version,
            binary_max_version: *binary_max_version,
        },
        MigrationError::ChecksumDrift { version, name, .. } => MigrationOnlyReason::ChecksumDrift {
            version: *version,
            name: name.clone(),
        },
        MigrationError::Other { message } => MigrationOnlyReason::Other {
            detail: message.clone(),
        },
    }
}

/// What the envelope says about a store that cannot be used.
pub open spec fn incompatibility(reason: MigrationOnlyReason<Seq<char>>) -> Seq<char> {
    match reason {
        MigrationOnlyReason::IncompatibleStore { store_version, binary_max_version } =>
        "store_version "@ + crate::text::decimal(store_version as int) + " > binary_max "@
            + crate::text::decimal(binary_max_version as int),
        MigrationOnlyReason::ChecksumDrift { version, name } => "checksum drift at version "@
            + crate::text::decimal(version as int) + " ("@ + name + ")"@,
        MigrationOnlyReason::Other { detail } => detail,
    }
}

/// The failure that answers every tool while the store cannot be used.
pub fn error_envelope(reason: &MigrationOnlyReason) -> (r: Failure)
    ensures
        r@ == (Failure::IncompatibleStore { details: incompatibility(reason@) }),
{
    let details = match reason {
        MigrationOnlyReason::IncompatibleStore { store_version, binary_max_version } => {
            let store = decimal_u64(*store_version as u64);
            let binary = decimal_u64(*binary_max_version as u64);
            concat4("store_version ", store.as_str(), " > binary_max ", binary.as_str())
        },
        MigrationOnlyReason::ChecksumDrift { version, name } => {
            let number = decimal_u64(*version as u64);
            concat5("checksum drift at version ", number.as_str(), " (", name.as_str(), ")")
        },
        MigrationOnlyReason::Other { detail } => detail.clone(),
    };
    Failure::IncompatibleStore { details }
}

/// Each mode has its own name, and a failed migration is told as what it was: which versions
/// did not fit, which migration differs, or what it said of itself.
pub proof fn law_a_failed_migration_is_told_as_it_was(
    e: MigrationError,
    mode: DaemonMode<Seq<char>>,
)
    ensures
        mode is Normal ==> mode_name(mode) == "normal"@,
        mode is MigrationOnly ==> mode_name(mode) == "migration_only"@,
        e matches MigrationError::IncompatibleStore { store_version, binary_max_version }
            ==> reason_of(e) == (MigrationOnlyReason::<Seq<char>>::IncompatibleStore {
            store_version,
            binary_max_version,
        }),
        e matches MigrationError::ChecksumDrift { version, name, .. } ==> reason_of(e) == (
        MigrationOnlyReason::ChecksumDrift { version, name: name@ }),
        e matches MigrationError::Other { message } ==> reason_of(e) == (
        MigrationOnlyReason::Other { detail: message@ }),
{
}

/// What the envelope says names the versions in their order, or the migration, or is what the
/// failure said of itself.
pub proof fn law_the_envelope_names_what_does_not_fit(
    store_version: u32,
    binary_max_version: u32,
    version: u32,
    name: Seq<char>,
    detail: Seq<char>,
)
    ensures
        incompatibility(
            MigrationOnlyReason::IncompatibleStore { store_version, binary_max_version },
        ) == "store_version "@ + crate::text::decimal(store_version as int) + " > binary_max "@
            + crate::text::decimal(binary_max_version as int),
        incompatibility(MigrationOnlyReason::ChecksumDrift { version, name })
            == "checksum drift at version "@ + crate::text::decimal(version as int) + " ("@ + name
            + ")"@,
        incompatibility(MigrationOnlyReason::Other { detail }) == detail,
{
}

} // verus!
