use vstd::prelude::*;

use crate::journal::JournalMode;

verus! {

/// The schema version that this software expects: one more than the index of
/// the last upgrade step.
pub const EXPECTED_VERSION: i32 = 5;

/// The page size that compaction rebuilds the file with.
pub const COMPACT_PAGE_SIZE: u32 = 16384;

/// Why an upgrade stopped.
#[derive(Clone, Copy, Debug, PartialEq, Eq, Structural)]
pub enum UpgradeError {
    /// The database is newer than this software knows how to handle.
    VersionOutOfRange { found: i32, expected: i32 },
    /// The recorded version is negative.
    CorruptVersion { found: i32 },
    /// The step from version `from` to `from + 1` failed; its transaction
    /// rolled back and no later step ran.
    StepFailure { from: i32 },
    /// Rebuilding the file after the upgrade failed; the committed steps stay.
    CompactionFailure,
    /// The engine failed to report the version or to apply a durability
    /// setting.
    Database,
    /// The engine granted another journal mode than the one requested, or an
    /// answer that names no mode. The run notes it and goes on.
    PragmaMismatch { requested: JournalMode, granted: Option<JournalMode> },
    /// The requested journal mode is not one the engine knows.
    UnsupportedJournalMode,
}

/// The versions whose steps still have to run: `start` up to, not including,
/// `end`.
#[derive(Clone, Copy, Debug, PartialEq, Eq, Structural)]
pub struct StepRange {
    pub start: i32,
    pub end: i32,
}

/// What checking a recorded version against the expected one gives.
pub open spec fn version_check(observed: int, expected: int) -> Result<StepRange, UpgradeError> {
    if observed > expected {
        Err(UpgradeError::VersionOutOfRange { found: observed as i32, expected: expected as i32 })
    } else if observed < 0 {
        Err(UpgradeError::CorruptVersion { found: observed as i32 })
    } else {
        Ok(StepRange { start: observed as i32, end: expected as i32 })
    }
}

/// Checks the recorded version before anything touches the database: a newer
/// database than expected, or a negative version, is refused; otherwise the
/// steps from the recorded version up to the expected one remain.
pub fn validate_version(observed: i32, expected: i32) -> (r: Result<StepRange, UpgradeError>)
    ensures
        r == version_check(observed as int, expected as int),
        r matches Ok(range) ==> 0 <= range.start <= range.end && range.start == observed
            && range.end == expected,
{
    if observed > expected {
        Err(UpgradeError::VersionOutOfRange { found: observed, expected })
    } else if observed < 0 {
        Err(UpgradeError::CorruptVersion { found: observed })
    } else {
        Ok(StepRange { start: observed, end: expected })
    }
}

/// Compares the journal mode the engine reports with the one requested: the
/// mode when they agree, a mismatch otherwise.
pub fn check_granted(requested: JournalMode, granted: Option<JournalMode>) -> (r: Result<
    JournalMode,
    UpgradeError,
>)
    ensures
        r == (if granted == Some(requested) {
            Ok(requested)
        } else {
            Err(UpgradeError::PragmaMismatch { requested, granted })
        }),
{
    match granted {
        Some(g) => if g == requested {
            Ok(requested)
        } else {
            Err(UpgradeError::PragmaMismatch { requested, granted })
        },
        None => Err(UpgradeError::PragmaMismatch { requested, granted }),
    }
}

} // verus!
