use vstd::prelude::*;

use crate::journal::{mode_named, Durability, JournalMode};
use crate::version::{
    validate_version, version_check, UpgradeError, COMPACT_PAGE_SIZE, EXPECTED_VERSION,
};

verus! {

/// Options of an upgrade run.
#[derive(Debug)]
pub struct Args<'a> {
    /// Directory of the sample files, for steps that move data there.
    pub flag_sample_file_dir: Option<&'a str>,
    /// Journal mode to hold while the steps run; one of the engine's names.
    pub flag_preset_journal: &'a str,
    /// Skip rebuilding the file once the steps are done.
    pub flag_no_vacuum: bool,
}

/// What the caller is asked to do next with the connection.
#[derive(Clone, Copy, Debug, PartialEq, Eq, Structural)]
pub enum Action {
    /// Read the highest id of the version log.
    ReadVersion,
    /// Execute the setting's statement.
    Pragma(Durability),
    /// Execute the mode's statement and report the mode the engine granted.
    SetJournal(JournalMode),
    /// In one transaction: run the step from version `from`, append the
    /// version-log row with id `to`, commit.
    ApplyStep { from: i32, to: i32 },
    /// Outside any transaction: set the page size, then rebuild the file.
    Compact { page_size: u32 },
    /// Nothing more: the run is over.
    Finish,
}

/// What the caller reports back after doing an action.
#[derive(Clone, Copy, Debug, PartialEq, Eq, Structural)]
pub enum Outcome {
    /// The version read from the log.
    Version(i32),
    /// The journal mode the engine reports, `None` where its answer is not a
    /// known mode name.
    Journal(Option<JournalMode>),
    /// The action was carried out (for a step: committed).
    Completed,
    /// The action failed (for a step: rolled back).
    Failed,
}

/// Where a run stands.
#[derive(Clone, Copy, Debug, PartialEq, Eq, Structural)]
pub enum Phase {
    /// The recorded version is not known yet.
    Validating,
    /// Forcing the durability settings, this one next.
    Hardening(Durability),
    /// Setting the journal mode held during the steps.
    Presetting,
    /// Running the step from this version.
    Migrating(i32),
    /// Switching to the steady-state journal mode.
    Settling,
    /// Rebuilding the file.
    Compacting,
    Done,
    Failed(UpgradeError),
}

/// The version-log reading, the durability settings in the order they are
/// applied.
pub open spec fn hardening_actions() -> Seq<Action> {
    seq![
        Action::ReadVersion,
        Action::Pragma(Durability::ForeignKeys),
        Action::Pragma(Durability::FullFsync),
        Action::Pragma(Durability::SynchronousFull),
    ]
}

pub open spec fn durability_index(d: Durability) -> int {
    match d {
        Durability::ForeignKeys => 0,
        Durability::FullFsync => 1,
        Durability::SynchronousFull => 2,
    }
}

/// Everything that comes before the first step.
pub open spec fn setup_actions(preset: JournalMode) -> Seq<Action> {
    hardening_actions().push(Action::SetJournal(preset))
}

/// The steps from version `from` up to version `to`, in increasing order.
pub open spec fn step_actions(from: int, to: int) -> Seq<Action>
    decreases to - from,
{
    if to <= from {
        seq![]
    } else {
        step_actions(from, to - 1).push(Action::ApplyStep { from: (to - 1) as i32, to: to as i32 })
    }
}

/// Everything that comes after the last step.
pub open spec fn finish_actions(compact: bool) -> Seq<Action> {
    if compact {
        seq![Action::SetJournal(JournalMode::Wal), Action::Compact { page_size: COMPACT_PAGE_SIZE }]
    } else {
        seq![Action::SetJournal(JournalMode::Wal)]
    }
}

/// The actions of a run that succeeds.
pub open spec fn run_actions(preset: JournalMode, start: int, target: int, compact: bool) -> Seq<
    Action,
> {
    setup_actions(preset) + step_actions(start, target) + finish_actions(compact)
}

/// The version a database is at once the steps up to `target` ran.
pub open spec fn reached(start: int, target: int) -> int {
    if start < target {
        target
    } else {
        start
    }
}

pub open spec fn granted_of(o: Outcome) -> Option<JournalMode> {
    match o {
        Outcome::Journal(g) => g,
        _ => None,
    }
}

/// The model of a run.
pub ghost struct UpgradeState {
    pub phase: Phase,
    /// Journal mode held during the steps.
    pub preset: JournalMode,
    /// Version to upgrade to.
    pub target: int,
    /// Whether the file is rebuilt at the end.
    pub compact: bool,
    /// Version recorded when the run began.
    pub start: int,
    /// Version the database is at, as far as committed steps tell.
    pub version: int,
    /// Journal mode the engine last reported.
    pub granted: Option<JournalMode>,
    /// The actions carried out or attempted so far, in order.
    pub trace: Seq<Action>,
}

/// A run that has done nothing yet.
pub open spec fn initial_state(preset: JournalMode, target: int, compact: bool) -> UpgradeState {
    UpgradeState {
        phase: Phase::Validating,
        preset,
        target,
        compact,
        start: 0,
        version: 0,
        granted: None,
        trace: seq![],
    }
}

impl UpgradeState {
    pub open spec fn is_terminal(self) -> bool {
        self.phase is Done || self.phase is Failed
    }

    /// The action asked for in this state.
    pub open spec fn action(self) -> Action {
        match self.phase {
            Phase::Validating => Action::ReadVersion,
            Phase::Hardening(d) => Action::Pragma(d),
            Phase::Presetting => Action::SetJournal(self.preset),
            Phase::Migrating(v) => Action::ApplyStep { from: v, to: (v + 1) as i32 },
            Phase::Settling => Action::SetJournal(JournalMode::Wal),
            Phase::Compacting => Action::Compact { page_size: COMPACT_PAGE_SIZE },
            Phase::Done => Action::Finish,
            Phase::Failed(_) => Action::Finish,
        }
    }

    /// The phase that follows the last setup action.
    pub open spec fn after_setup(self) -> Phase {
        if self.start < self.target {
            Phase::Migrating(self.start as i32)
        } else {
            Phase::Settling
        }
    }

    /// The phase that follows the steady-state journal switch.
    pub open spec fn after_settling(self) -> Phase {
        if self.compact {
            Phase::Compacting
        } else {
            Phase::Done
        }
    }

    pub open spec fn with_phase(self, phase: Phase) -> UpgradeState {
        UpgradeState { phase, ..self }
    }

    /// The state after the current action had the outcome `o`. A report of
    /// another kind than the action asks for counts as a failure. A failed or
    /// unreadable journal-mode answer is noted as `None` and the run goes on;
    /// any other failure ends it.
    pub open spec fn next(self, o: Outcome) -> UpgradeState {
        if self.is_terminal() {
            self
        } else {
            let s = UpgradeState { trace: self.trace.push(self.action()), ..self };
            match self.phase {
                Phase::Validating => match o {
                    Outcome::Version(v) => match version_check(v as int, EXPECTED_VERSION as int) {
                        Ok(_) => UpgradeState {
                            phase: Phase::Hardening(Durability::ForeignKeys),
                            start: v as int,
                            version: v as int,
                            ..s
                        },
                        Err(e) => s.with_phase(Phase::Failed(e)),
                    },
                    _ => s.with_phase(Phase::Failed(UpgradeError::Database)),
                },
                Phase::Hardening(d) => if o is Completed {
                    s.with_phase(
                        match d {
                            Durability::ForeignKeys => Phase::Hardening(Durability::FullFsync),
                            Durability::FullFsync => Phase::Hardening(Durability::SynchronousFull),
                            Durability::SynchronousFull => Phase::Presetting,
                        },
                    )
                } else {
                    s.with_phase(Phase::Failed(UpgradeError::Database))
                },
                Phase::Presetting => UpgradeState {
                    phase: s.after_setup(),
                    granted: granted_of(o),
                    ..s
                },
                Phase::Migrating(v) => if o is Completed {
                    UpgradeState {
                        phase: if v + 1 < self.target {
                            Phase::Migrating((v + 1) as i32)
                        } else {
                            Phase::Settling
                        },
                        version: v + 1,
                        ..s
                    }
                } else {
                    s.with_phase(Phase::Failed(UpgradeError::StepFailure { from: v }))
                },
                Phase::Settling => UpgradeState {
                    phase: s.after_settling(),
                    granted: granted_of(o),
                    ..s
                },
                Phase::Compacting => if o is Completed {
                    s.with_phase(Phase::Done)
                } else {
                    s.with_phase(Phase::Failed(UpgradeError::CompactionFailure))
                },
                _ => self,
            }
        }
    }

    /// The recorded version passed the check.
    pub open spec fn validated(self) -> bool {
        0 <= self.start <= EXPECTED_VERSION
    }

    /// What every state of a run satisfies: the trace is the one that leads
    /// to the phase.
    pub open spec fn inv(self) -> bool {
        &&& i32::MIN <= self.target <= EXPECTED_VERSION
        &&& match self.phase {
            Phase::Validating => self.trace == Seq::<Action>::empty(),
            Phase::Hardening(d) => {
                &&& self.validated()
                &&& self.version == self.start
                &&& self.trace == hardening_actions().take(durability_index(d) + 1)
            },
            Phase::Presetting => {
                &&& self.validated()
                &&& self.version == self.start
                &&& self.trace == hardening_actions()
            },
            Phase::Migrating(v) => {
                &&& self.validated()
                &&& self.start <= v < self.target
                &&& self.version == v
                &&& self.trace == setup_actions(self.preset) + step_actions(self.start, v as int)
            },
            Phase::Settling => {
                &&& self.validated()
                &&& self.version == reached(self.start, self.target)
                &&& self.trace == setup_actions(self.preset) + step_actions(self.start, self.target)
            },
            Phase::Compacting => {
                &&& self.validated()
                &&& self.compact
                &&& self.version == reached(self.start, self.target)
                &&& self.trace == setup_actions(self.preset) + step_actions(self.start, self.target)
                    + seq![Action::SetJournal(JournalMode::Wal)]
            },
            Phase::Done => {
                &&& self.validated()
                &&& self.version == reached(self.start, self.target)
                &&& self.trace == run_actions(self.preset, self.start, self.target, self.compact)
            },
            Phase::Failed(e) => match e {
                UpgradeError::VersionOutOfRange { found, expected } => {
                    &&& found > expected
                    &&& expected == EXPECTED_VERSION
                    &&& self.trace == seq![Action::ReadVersion]
                },
                UpgradeError::CorruptVersion { found } => {
                    &&& found < 0
                    &&& self.trace == seq![Action::ReadVersion]
                },
                UpgradeError::Database => {
                    &&& 1 <= self.trace.len() <= 4
                    &&& self.trace == hardening_actions().take(self.trace.len() as int)
                },
                UpgradeError::StepFailure { from } => {
                    &&& self.validated()
                    &&& self.start <= from < self.target
                    &&& self.version == from
                    &&& self.trace == setup_actions(self.preset) + step_actions(
                        self.start,
                        from + 1,
                    )
                },
                UpgradeError::CompactionFailure => {
                    &&& self.validated()
                    &&& self.compact
                    &&& self.version == reached(self.start, self.target)
                    &&& self.trace == run_actions(self.preset, self.start, self.target, true)
                },
                UpgradeError::PragmaMismatch { .. } => false,
                UpgradeError::UnsupportedJournalMode => false,
            },
        }
    }
}

/// Each state a run reaches from a well-formed state is well-formed.
pub proof fn lemma_next_keeps_inv(s: UpgradeState, o: Outcome)
    requires
        s.inv(),
    ensures
        s.next(o).inv(),
{
    let n = s.next(o);
    if !s.is_terminal() {
        match s.phase {
            Phase::Validating => {
                assert(n.trace =~= hardening_actions().take(1));
            },
            Phase::Hardening(d) => {
                assert(n.trace =~= hardening_actions().take(durability_index(d) + 2));
                assert(hardening_actions().take(4) =~= hardening_actions());
            },
            Phase::Presetting => {
                assert(n.trace =~= setup_actions(s.preset) + step_actions(s.start, s.start));
                if s.start >= s.target {
                    assert(step_actions(s.start, s.target) =~= Seq::<Action>::empty());
                }
            },
            Phase::Migrating(v) => {
                assert(step_actions(s.start, v + 1) == step_actions(s.start, v as int).push(
                    s.action(),
                ));
                assert(n.trace =~= setup_actions(s.preset) + step_actions(s.start, v + 1));
            },
            Phase::Settling => {
                assert(n.trace =~= run_actions(s.preset, s.start, s.target, false)
                    || n.trace =~= setup_actions(s.preset) + step_actions(s.start, s.target)
                    + seq![Action::SetJournal(JournalMode::Wal)]);
            },
            Phase::Compacting => {
                assert(n.trace =~= run_actions(s.preset, s.start, s.target, true));
            },
            _ => {},
        }
    }
}


/// A run of the upgrade, driven by the caller: it asks for an action with
/// `next_action`, carries it out on the connection, and reports with
/// `advance`, until the action is `Finish`.
pub struct Upgrader {
    phase: Phase,
    preset: JournalMode,
    target: i32,
    compact: bool,
    start: i32,
    version: i32,
    granted: Option<JournalMode>,
    trace: Ghost<Seq<Action>>,
}

impl View for Upgrader {
    type V = UpgradeState;

    closed spec fn view(&self) -> UpgradeState {
        UpgradeState {
            phase: self.phase,
            preset: self.preset,
            target: self.target as int,
            compact: self.compact,
            start: self.start as int,
            version: self.version as int,
            granted: self.granted,
            trace: self.trace@,
        }
    }
}

impl Upgrader {
    #[verifier::type_invariant]
    closed spec fn well_formed(&self) -> bool {
        self@.inv()
    }

    /// Starts a run up to `target`. The requested journal mode must be one of
    /// the engine's names; no other text ever reaches a statement.
    pub fn new(args: &Args, target: i32) -> (r: Result<Upgrader, UpgradeError>)
        requires
            target <= EXPECTED_VERSION,
        ensures
            match r {
                Ok(u) => {
                    &&& mode_named(args.flag_preset_journal@) == Some(u@.preset)
                    &&& u@ == initial_state(u@.preset, target as int, !args.flag_no_vacuum)
                    &&& u@.inv()
                },
                Err(e) => {
                    &&& mode_named(args.flag_preset_journal@) is None
                    &&& e == UpgradeError::UnsupportedJournalMode
                },
            },
    {
        match JournalMode::from_name(args.flag_preset_journal) {
            Some(preset) => Ok(
                Upgrader {
                    phase: Phase::Validating,
                    preset,
                    target,
                    compact: !args.flag_no_vacuum,
                    start: 0,
                    version: 0,
                    granted: None,
                    trace: Ghost(Seq::empty()),
                },
            ),
            None => Err(UpgradeError::UnsupportedJournalMode),
        }
    }

    /// The action to carry out next.
    pub fn next_action(&self) -> (r: Action)
        ensures
            r == self@.action(),
    {
        proof {
            use_type_invariant(self);
        }
        match self.phase {
            Phase::Validating => Action::ReadVersion,
            Phase::Hardening(d) => Action::Pragma(d),
            Phase::Presetting => Action::SetJournal(self.preset),
            Phase::Migrating(v) => Action::ApplyStep { from: v, to: v + 1 },
            Phase::Settling => Action::SetJournal(JournalMode::Wal),
            Phase::Compacting => Action::Compact { page_size: COMPACT_PAGE_SIZE },
            Phase::Done => Action::Finish,
            Phase::Failed(_) => Action::Finish,
        }
    }

    /// Takes the outcome of the action that `next_action` asked for.
    pub fn advance(&mut self, outcome: Outcome)
        ensures
            final(self)@ == old(self)@.next(outcome),
            final(self)@.inv(),
    {
        proof {
            use_type_invariant(&*self);
            lemma_next_keeps_inv(self@, outcome);
        }
        let ghost trace = self.trace@.push(self@.action());
        let phase = match self.phase {
            Phase::Validating => match outcome {
                Outcome::Version(v) => match validate_version(v, EXPECTED_VERSION) {
                    Ok(_) => {
                        *self = Upgrader {
                            phase: Phase::Hardening(Durability::ForeignKeys),
                            preset: self.preset,
                            target: self.target,
                            compact: self.compact,
                            start: v,
                            version: v,
                            granted: self.granted,
                            trace: Ghost(trace),
                        };
                        return;
                    },
                    Err(e) => Phase::Failed(e),
                },
                _ => Phase::Failed(UpgradeError::Database),
            },
            Phase::Hardening(d) => match outcome {
                Outcome::Completed => match d {
                    Durability::ForeignKeys => Phase::Hardening(Durability::FullFsync),
                    Durability::FullFsync => Phase::Hardening(Durability::SynchronousFull),
                    Durability::SynchronousFull => Phase::Presetting,
                },
                _ => Phase::Failed(UpgradeError::Database),
            },
            Phase::Presetting => {
                let granted = match outcome {
                    Outcome::Journal(g) => g,
                    _ => None,
                };
                let phase = if self.start < self.target {
                    Phase::Migrating(self.start)
                } else {
                    Phase::Settling
                };
                *self = Upgrader { phase, granted, trace: Ghost(trace), ..*self };
                return;
            },
            Phase::Migrating(v) => match outcome {
                Outcome::Completed => {
                    let phase = if v + 1 < self.target {
                        Phase::Migrating(v + 1)
                    } else {
                        Phase::Settling
                    };
                    *self = Upgrader { phase, version: v + 1, trace: Ghost(trace), ..*self };
                    return;
                },
                _ => Phase::Failed(UpgradeError::StepFailure { from: v }),
            },
            Phase::Settling => {
                let granted = match outcome {
                    Outcome::Journal(g) => g,
                    _ => None,
                };
                let phase = if self.compact {
                    Phase::Compacting
                } else {
                    Phase::Done
                };
                *self = Upgrader { phase, granted, trace: Ghost(trace), ..*self };
                return;
            },
            Phase::Compacting => match outcome {
                Outcome::Completed => Phase::Done,
                _ => Phase::Failed(UpgradeError::CompactionFailure),
            },
            Phase::Done => {
                return;
            },
            Phase::Failed(_) => {
                return;
            },
        };
        *self = Upgrader { phase, trace: Ghost(trace), ..*self };
    }

    /// Where the run stands.
    pub fn phase(&self) -> (r: Phase)
        ensures
            r == self@.phase,
    {
        self.phase
    }

    /// The version the database is at, as far as committed steps tell; the
    /// recorded version once it has been read and checked.
    pub fn version(&self) -> (r: i32)
        ensures
            r == self@.version,
    {
        self.version
    }

    /// The version recorded when the run began.
    pub fn start_version(&self) -> (r: i32)
        ensures
            r == self@.start,
    {
        self.start
    }

    /// The version the run upgrades to.
    pub fn target(&self) -> (r: i32)
        ensures
            r == self@.target,
    {
        self.target
    }

    /// The journal mode held during the steps.
    pub fn preset_journal(&self) -> (r: JournalMode)
        ensures
            r == self@.preset,
    {
        self.preset
    }

    /// The journal mode the engine last reported.
    pub fn granted_journal(&self) -> (r: Option<JournalMode>)
        ensures
            r == self@.granted,
    {
        self.granted
    }

    /// `None` while the run goes on; then its result.
    pub fn result(&self) -> (r: Option<Result<(), UpgradeError>>)
        ensures
            r == match self@.phase {
                Phase::Done => Some(Ok(())),
                Phase::Failed(e) => Some(Err(e)),
                _ => None,
            },
    {
        match self.phase {
            Phase::Done => Some(Ok(())),
            Phase::Failed(e) => Some(Err(e)),
            _ => None,
        }
    }
}

} // verus!
