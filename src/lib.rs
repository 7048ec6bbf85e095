//! Schema upgrades for the recording database.
//!
//! The library decides what an upgrade does and in which order: it checks the
//! recorded version, sequences the durability pragmas, the per-version steps
//! and the final journal switch and compaction, and tracks the outcome. The
//! caller owns the connection, performs each requested action and reports
//! back what happened.
//!
//! - `journal`: journal modes and durability settings, and their statements.
//! - `version`: the version check and the errors of a run.
//! - `upgrade`: the run itself, as a state machine with a model of its trace.
//! - `guarantees`: what every run is proved to do.

pub mod guarantees;
pub mod journal;
pub mod upgrade;
pub mod version;

pub use crate::journal::{Durability, JournalMode};
pub use crate::upgrade::{Action, Args, Outcome, Phase, Upgrader};
pub use crate::version::{
    check_granted, validate_version, StepRange, UpgradeError, COMPACT_PAGE_SIZE, EXPECTED_VERSION,
};
