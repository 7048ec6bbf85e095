use vstd::prelude::*;

use crate::journal::JournalMode;
use crate::upgrade::{
    initial_state, lemma_next_keeps_inv, run_actions, setup_actions, step_actions, Action,
    Outcome, Phase, UpgradeState,
};
use crate::version::{UpgradeError, COMPACT_PAGE_SIZE, EXPECTED_VERSION};

verus! {

/// The state after the outcomes `os`, reported one after the other.
pub open spec fn drive(s: UpgradeState, os: Seq<Outcome>) -> UpgradeState
    decreases os.len(),
{
    if os.len() == 0 {
        s
    } else {
        drive(s.next(os[0]), os.drop_first())
    }
}

/// `n` successes in a row.
pub open spec fn completions(n: nat) -> Seq<Outcome> {
    Seq::new(n, |i: int| Outcome::Completed)
}

/// The reports of a run in which nothing fails: the log holds `start`, the
/// engine grants `granted` each time, and `steps` steps commit.
pub open spec fn clean_outcomes(
    start: i32,
    granted: Option<JournalMode>,
    steps: nat,
    compact: bool,
) -> Seq<Outcome> {
    seq![
        Outcome::Version(start),
        Outcome::Completed,
        Outcome::Completed,
        Outcome::Completed,
        Outcome::Journal(granted),
    ] + completions(steps) + seq![Outcome::Journal(granted)] + if compact {
        seq![Outcome::Completed]
    } else {
        Seq::<Outcome>::empty()
    }
}

proof fn lemma_drive_first(s: UpgradeState, o: Outcome, rest: Seq<Outcome>)
    ensures
        drive(s, seq![o] + rest) == drive(s.next(o), rest),
{
    assert((seq![o] + rest).drop_first() =~= rest);
}

proof fn lemma_drive_append(s: UpgradeState, a: Seq<Outcome>, b: Seq<Outcome>)
    ensures
        drive(s, a + b) == drive(drive(s, a), b),
    decreases a.len(),
{
    if a.len() == 0 {
        assert(a + b =~= b);
    } else {
        assert((a + b).drop_first() =~= a.drop_first() + b);
        lemma_drive_append(s.next(a[0]), a.drop_first(), b);
    }
}

/// From the step at version `v`, each step committing carries the run past
/// the last step, with the run's settings unchanged.
proof fn lemma_steps_commit(s: UpgradeState, v: i32)
    requires
        s.inv(),
        s.phase == Phase::Migrating(v),
    ensures
        drive(s, completions((s.target - v) as nat)).inv(),
        drive(s, completions((s.target - v) as nat)).phase == Phase::Settling,
        drive(s, completions((s.target - v) as nat)).preset == s.preset,
        drive(s, completions((s.target - v) as nat)).target == s.target,
        drive(s, completions((s.target - v) as nat)).start == s.start,
        drive(s, completions((s.target - v) as nat)).compact == s.compact,
    decreases s.target - v,
{
    let k = (s.target - v) as nat;
    let n = s.next(Outcome::Completed);
    lemma_next_keeps_inv(s, Outcome::Completed);
    assert(completions(k).drop_first() =~= completions((k - 1) as nat));
    assert(completions(k)[0] == Outcome::Completed);
    assert(drive(s, completions(k)) == drive(n, completions((k - 1) as nat)));
    if v + 1 < s.target {
        lemma_steps_commit(n, (v + 1) as i32);
    } else {
        assert(completions((k - 1) as nat) =~= Seq::<Outcome>::empty());
    }
}

/// A run that finds the log at any version `start` from zero up to its target,
/// and in which nothing fails, runs each step from `start` up to the target
/// exactly once, in increasing order, then switches the journal and (where
/// asked) compacts, and ends with the database at the target version. A run
/// restarted after a failed step therefore resumes at that step.
pub proof fn lemma_clean_run_reaches_target(
    preset: JournalMode,
    target: i32,
    compact: bool,
    start: i32,
    granted: Option<JournalMode>,
)
    requires
        target <= EXPECTED_VERSION,
        0 <= start <= target,
    ensures
        ({
            let n = drive(
                initial_state(preset, target as int, compact),
                clean_outcomes(start, granted, (target - start) as nat, compact),
            );
            &&& n.phase == Phase::Done
            &&& n.version == target
            &&& n.trace == run_actions(preset, start as int, target as int, compact)
        }),
{
    let s0 = initial_state(preset, target as int, compact);
    let c = completions((target - start) as nat);
    let tail = seq![Outcome::Journal(granted)] + if compact {
        seq![Outcome::Completed]
    } else {
        Seq::<Outcome>::empty()
    };
    let os = clean_outcomes(start, granted, (target - start) as nat, compact);
    let s1 = s0.next(Outcome::Version(start));
    let s2 = s1.next(Outcome::Completed);
    let s3 = s2.next(Outcome::Completed);
    let s4 = s3.next(Outcome::Completed);
    let s5 = s4.next(Outcome::Journal(granted));
    assert(os =~= seq![Outcome::Version(start)] + (seq![Outcome::Completed] + (seq![
        Outcome::Completed,
    ] + (seq![Outcome::Completed] + (seq![Outcome::Journal(granted)] + (c + tail))))));
    lemma_drive_first(s0, Outcome::Version(start), seq![Outcome::Completed] + (seq![
        Outcome::Completed,
    ] + (seq![Outcome::Completed] + (seq![Outcome::Journal(granted)] + (c + tail)))));
    lemma_drive_first(s1, Outcome::Completed, seq![Outcome::Completed] + (seq![
        Outcome::Completed,
    ] + (seq![Outcome::Journal(granted)] + (c + tail))));
    lemma_drive_first(s2, Outcome::Completed, seq![Outcome::Completed] + (seq![
        Outcome::Journal(granted),
    ] + (c + tail)));
    lemma_drive_first(s3, Outcome::Completed, seq![Outcome::Journal(granted)] + (c + tail));
    lemma_drive_first(s4, Outcome::Journal(granted), c + tail);
    lemma_drive_append(s5, c, tail);
    lemma_next_keeps_inv(s0, Outcome::Version(start));
    lemma_next_keeps_inv(s1, Outcome::Completed);
    lemma_next_keeps_inv(s2, Outcome::Completed);
    lemma_next_keeps_inv(s3, Outcome::Completed);
    lemma_next_keeps_inv(s4, Outcome::Journal(granted));
    let s6 = drive(s5, c);
    if start < target {
        lemma_steps_commit(s5, start);
    } else {
        assert(c =~= Seq::<Outcome>::empty());
    }
    assert(s6.phase == Phase::Settling);
    let s7 = s6.next(Outcome::Journal(granted));
    lemma_next_keeps_inv(s6, Outcome::Journal(granted));
    if compact {
        assert(tail =~= seq![Outcome::Journal(granted)] + seq![Outcome::Completed]);
        lemma_drive_first(s6, Outcome::Journal(granted), seq![Outcome::Completed]);
        lemma_drive_first(s7, Outcome::Completed, Seq::<Outcome>::empty());
        lemma_next_keeps_inv(s7, Outcome::Completed);
    } else {
        assert(tail =~= seq![Outcome::Journal(granted)] + Seq::<Outcome>::empty());
        lemma_drive_first(s6, Outcome::Journal(granted), Seq::<Outcome>::empty());
    }
}


/// The steps of a run are the versions from `from` up to `to`, one each, in
/// increasing order: the one at position `i` goes from `from + i` to
/// `from + i + 1`.
pub proof fn lemma_step_order(from: int, to: int)
    requires
        i32::MIN <= from <= to <= i32::MAX,
    ensures
        step_actions(from, to).len() == to - from,
        forall|i: int|
            0 <= i < to - from ==> #[trigger] step_actions(from, to)[i] == (Action::ApplyStep {
                from: (from + i) as i32,
                to: (from + i + 1) as i32,
            }),
    decreases to - from,
{
    if to > from {
        lemma_step_order(from, to - 1);
    }
}

/// A log newer than the expected version stops the run at once: nothing but
/// the version was read, no setting and no transaction touched the
/// connection, and nothing follows.
pub proof fn lemma_newer_database_refused(s: UpgradeState, found: i32)
    requires
        s.inv(),
        (s.phase is Validating),
        found > EXPECTED_VERSION,
    ensures
        s.next(Outcome::Version(found)).phase == Phase::Failed(
            UpgradeError::VersionOutOfRange { found, expected: EXPECTED_VERSION },
        ),
        s.next(Outcome::Version(found)).trace == seq![Action::ReadVersion],
        forall|o: Outcome|
            #[trigger] s.next(Outcome::Version(found)).next(o) == s.next(
                Outcome::Version(found),
            ),
{
}

/// A negative recorded version stops the run at once: nothing but the version
/// was read, no setting and no transaction touched the connection, and
/// nothing follows.
pub proof fn lemma_negative_version_refused(s: UpgradeState, found: i32)
    requires
        s.inv(),
        (s.phase is Validating),
        found < 0,
    ensures
        s.next(Outcome::Version(found)).phase == Phase::Failed(
            UpgradeError::CorruptVersion { found },
        ),
        s.next(Outcome::Version(found)).trace == seq![Action::ReadVersion],
        forall|o: Outcome|
            #[trigger] s.next(Outcome::Version(found)).next(o) == s.next(
                Outcome::Version(found),
            ),
{
}

/// A run whose database already stands at its target version applies no step:
/// it opens no transaction and appends no version-log row.
pub proof fn lemma_no_step_at_target(s: UpgradeState)
    requires
        s.inv(),
        s.start >= s.target,
    ensures
        forall|i: int| 0 <= i < s.trace.len() ==> !(#[trigger] s.trace[i] is ApplyStep),
        (s.phase is Done) ==> s.version == s.start,
{
    assert(step_actions(s.start, s.target) =~= Seq::<Action>::empty());
    assert forall|i: int| 0 <= i < s.trace.len() implies !(#[trigger] s.trace[i] is ApplyStep) by {
        match s.phase {
            Phase::Migrating(_) => {},
            Phase::Failed(UpgradeError::StepFailure { .. }) => {},
            Phase::Failed(UpgradeError::Database) => {
                assert(s.trace[i] == crate::upgrade::hardening_actions()[i]);
            },
            Phase::Hardening(d) => {
                assert(s.trace[i] == crate::upgrade::hardening_actions()[i]);
            },
            _ => {
                assert(s.trace[i] == (setup_actions(s.preset) + step_actions(s.start, s.target)
                    + crate::upgrade::finish_actions(s.compact))[i]);
            },
        }
    }
}

/// A step that fails ends the run: the database stays at the version the step
/// started from, the failed step was the last action, and nothing follows. A
/// new run then reads that version and starts with the same step.
pub proof fn lemma_step_failure_keeps_version(s: UpgradeState, v: i32, o: Outcome)
    requires
        s.inv(),
        s.phase == Phase::Migrating(v),
        !(o is Completed),
    ensures
        s.next(o).phase == Phase::Failed(UpgradeError::StepFailure { from: v }),
        s.next(o).version == v,
        s.next(o).trace.last() == (Action::ApplyStep { from: v, to: (v + 1) as i32 }),
        forall|o2: Outcome| #[trigger] s.next(o).next(o2) == s.next(o),
{
}

/// A run that succeeds ends by switching to the write-ahead journal and then,
/// unless compaction was skipped, rebuilding the file at the configured page
/// size, after every step; the database is then at the target version.
pub proof fn lemma_done_ends_settled(s: UpgradeState)
    requires
        s.inv(),
        (s.phase is Done),
    ensures
        s.version == crate::upgrade::reached(s.start, s.target),
        s.compact ==> s.trace.len() >= 2 && s.trace.last() == (Action::Compact {
            page_size: COMPACT_PAGE_SIZE,
        }) && s.trace[s.trace.len() - 2] == Action::SetJournal(JournalMode::Wal),
        !s.compact ==> s.trace.last() == Action::SetJournal(JournalMode::Wal),
{
}

} // verus!
