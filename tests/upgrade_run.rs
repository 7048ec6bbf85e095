use moonfire_db::{
    check_granted, validate_version, Action, Args, Durability, JournalMode, Outcome, Phase, StepRange,
    UpgradeError, Upgrader, COMPACT_PAGE_SIZE, EXPECTED_VERSION,
};

/// A stand-in for the database: its version log, journal mode and page size.
struct FakeDb {
    log: Vec<(i32, i64)>,
    clock: i64,
    journal: String,
    page_size: u32,
    /// The step that fails, if any.
    broken_step: Option<i32>,
    /// The journal modes this engine refuses; it keeps its mode then.
    refused_journal: Vec<JournalMode>,
    fail_pragma: Option<Durability>,
    fail_compaction: bool,
    corrupt_reply: bool,
}

impl FakeDb {
    fn at(version: i32) -> FakeDb {
        FakeDb {
            log: (0..=version).map(|v| (v, v as i64)).collect(),
            clock: 100,
            journal: "delete".to_string(),
            page_size: 4096,
            broken_step: None,
            refused_journal: Vec::new(),
            fail_pragma: None,
            fail_compaction: false,
            corrupt_reply: false,
        }
    }

    fn version(&self) -> i32 {
        self.log.iter().map(|r| r.0).max().unwrap()
    }

    fn perform(&mut self, a: Action) -> Outcome {
        match a {
            Action::ReadVersion => Outcome::Version(self.version()),
            Action::Pragma(d) => {
                if self.fail_pragma == Some(d) {
                    Outcome::Failed
                } else {
                    Outcome::Completed
                }
            }
            Action::SetJournal(m) => {
                if !self.refused_journal.contains(&m) {
                    self.journal = m.name().to_string();
                }
                if self.corrupt_reply {
                    Outcome::Journal(JournalMode::from_name("???"))
                } else {
                    Outcome::Journal(JournalMode::from_name(&self.journal))
                }
            }
            Action::ApplyStep { from, to } => {
                if self.broken_step == Some(from) {
                    Outcome::Failed
                } else {
                    self.clock += 1;
                    self.log.push((to, self.clock));
                    Outcome::Completed
                }
            }
            Action::Compact { page_size } => {
                if self.fail_compaction {
                    Outcome::Failed
                } else {
                    self.page_size = page_size;
                    Outcome::Completed
                }
            }
            Action::Finish => Outcome::Failed,
        }
    }
}

fn args(journal: &str, no_vacuum: bool) -> Args<'_> {
    Args { flag_sample_file_dir: None, flag_preset_journal: journal, flag_no_vacuum: no_vacuum }
}

/// Runs an upgrade to `target` against `db`; returns the result and the
/// actions carried out.
fn drive(a: &Args, target: i32, db: &mut FakeDb) -> (Result<(), UpgradeError>, Vec<Action>) {
    let mut u = Upgrader::new(a, target).unwrap();
    let mut done = Vec::new();
    loop {
        let action = u.next_action();
        if action == Action::Finish {
            break;
        }
        done.push(action);
        let o = db.perform(action);
        u.advance(o);
    }
    (u.result().unwrap(), done)
}

fn setup(preset: JournalMode) -> Vec<Action> {
    vec![
        Action::ReadVersion,
        Action::Pragma(Durability::ForeignKeys),
        Action::Pragma(Durability::FullFsync),
        Action::Pragma(Durability::SynchronousFull),
        Action::SetJournal(preset),
    ]
}

fn steps(done: &[Action]) -> Vec<(i32, i32)> {
    done.iter()
        .filter_map(|a| match a {
            Action::ApplyStep { from, to } => Some((*from, *to)),
            _ => None,
        })
        .collect()
}

#[test]
fn upgrade_and_compare() {
    let mut db = FakeDb::at(0);
    let a = Args {
        flag_sample_file_dir: Some("/tmp/moonfire-nvr-test"),
        flag_preset_journal: "delete",
        flag_no_vacuum: false,
    };
    for ver in [1, 2, 3, 4, 4] {
        let before = db.version();
        let (r, done) = drive(&a, ver, &mut db);
        assert_eq!(r, Ok(()));
        assert_eq!(db.version(), ver);
        let expected: Vec<(i32, i32)> = (before..ver).map(|v| (v, v + 1)).collect();
        assert_eq!(steps(&done), expected);
    }
    let ids: Vec<i32> = db.log.iter().map(|r| r.0).collect();
    assert_eq!(ids, vec![0, 1, 2, 3, 4]);
}

#[test]
fn validate_version_cases() {
    assert_eq!(validate_version(0, 5), Ok(StepRange { start: 0, end: 5 }));
    assert_eq!(validate_version(3, 5), Ok(StepRange { start: 3, end: 5 }));
    assert_eq!(validate_version(5, 5), Ok(StepRange { start: 5, end: 5 }));
    assert_eq!(
        validate_version(6, 5),
        Err(UpgradeError::VersionOutOfRange { found: 6, expected: 5 })
    );
    assert_eq!(validate_version(-1, 5), Err(UpgradeError::CorruptVersion { found: -1 }));
    assert_eq!(
        validate_version(i32::MIN, 0),
        Err(UpgradeError::CorruptVersion { found: i32::MIN })
    );
}

#[test]
fn journal_mode_names() {
    let all = [
        (JournalMode::Delete, "delete"),
        (JournalMode::Truncate, "truncate"),
        (JournalMode::Persist, "persist"),
        (JournalMode::Memory, "memory"),
        (JournalMode::Wal, "wal"),
        (JournalMode::Off, "off"),
    ];
    for (m, n) in all {
        assert_eq!(m.name(), n);
        assert_eq!(JournalMode::from_name(n), Some(m));
        assert_eq!(m.statement(), format!("pragma journal_mode = {}", n));
    }
    assert_eq!(JournalMode::from_name("WAL"), None);
    assert_eq!(JournalMode::from_name(""), None);
    assert_eq!(JournalMode::from_name("wal; drop table version"), None);
    assert_eq!(JournalMode::from_name("wa"), None);
}

#[test]
fn durability_statements() {
    assert_eq!(Durability::ForeignKeys.statement(), "pragma foreign_keys = on");
    assert_eq!(Durability::FullFsync.statement(), "pragma fullfsync = on");
    assert_eq!(Durability::SynchronousFull.statement(), "pragma synchronous = 2");
}

#[test]
fn unknown_preset_journal_is_refused() {
    let r = Upgrader::new(&args("delete;", false), EXPECTED_VERSION);
    assert_eq!(r.err(), Some(UpgradeError::UnsupportedJournalMode));
}

#[test]
fn full_run_from_zero() {
    let mut db = FakeDb::at(0);
    let (r, done) = drive(&args("truncate", false), EXPECTED_VERSION, &mut db);
    assert_eq!(r, Ok(()));
    let mut expected = setup(JournalMode::Truncate);
    for v in 0..EXPECTED_VERSION {
        expected.push(Action::ApplyStep { from: v, to: v + 1 });
    }
    expected.push(Action::SetJournal(JournalMode::Wal));
    expected.push(Action::Compact { page_size: COMPACT_PAGE_SIZE });
    assert_eq!(done, expected);
    assert_eq!(db.version(), EXPECTED_VERSION);
}

#[test]
fn every_start_reaches_expected() {
    for start in 0..=EXPECTED_VERSION {
        let mut db = FakeDb::at(start);
        let (r, done) = drive(&args("delete", true), EXPECTED_VERSION, &mut db);
        assert_eq!(r, Ok(()));
        let expected: Vec<(i32, i32)> = (start..EXPECTED_VERSION).map(|v| (v, v + 1)).collect();
        assert_eq!(steps(&done), expected);
        assert_eq!(db.version(), EXPECTED_VERSION);
        assert_eq!(done.last(), Some(&Action::SetJournal(JournalMode::Wal)));
    }
}

#[test]
fn at_target_applies_no_step() {
    let mut db = FakeDb::at(EXPECTED_VERSION);
    let rows = db.log.len();
    let (r, done) = drive(&args("delete", false), EXPECTED_VERSION, &mut db);
    assert_eq!(r, Ok(()));
    assert!(steps(&done).is_empty());
    assert_eq!(db.log.len(), rows);

    let mut db = FakeDb::at(2);
    let (r, done) = drive(&args("delete", false), 2, &mut db);
    assert_eq!(r, Ok(()));
    assert!(steps(&done).is_empty());
    assert_eq!(db.log.len(), 3);
}

#[test]
fn newer_database_is_refused_untouched() {
    let mut db = FakeDb::at(EXPECTED_VERSION + 1);
    let (r, done) = drive(&args("delete", false), EXPECTED_VERSION, &mut db);
    assert_eq!(
        r,
        Err(UpgradeError::VersionOutOfRange { found: EXPECTED_VERSION + 1, expected: 5 })
    );
    assert_eq!(done, vec![Action::ReadVersion]);
    assert_eq!(db.journal, "delete");
}

#[test]
fn negative_version_is_refused_untouched() {
    let mut db = FakeDb::at(0);
    db.log = vec![(-1, 0)];
    let (r, done) = drive(&args("wal", false), EXPECTED_VERSION, &mut db);
    assert_eq!(r, Err(UpgradeError::CorruptVersion { found: -1 }));
    assert_eq!(done, vec![Action::ReadVersion]);
    assert_eq!(db.journal, "delete");
}

#[test]
fn failed_step_keeps_version_and_resumes() {
    let mut db = FakeDb::at(0);
    db.broken_step = Some(2);
    let (r, done) = drive(&args("delete", false), EXPECTED_VERSION, &mut db);
    assert_eq!(r, Err(UpgradeError::StepFailure { from: 2 }));
    assert_eq!(db.version(), 2);
    assert_eq!(done.last(), Some(&Action::ApplyStep { from: 2, to: 3 }));
    assert_eq!(steps(&done), vec![(0, 1), (1, 2), (2, 3)]);
    assert_eq!(db.page_size, 4096);

    db.broken_step = None;
    let (r, done) = drive(&args("delete", false), EXPECTED_VERSION, &mut db);
    assert_eq!(r, Ok(()));
    assert_eq!(steps(&done), vec![(2, 3), (3, 4), (4, 5)]);
    assert_eq!(db.version(), EXPECTED_VERSION);
}

#[test]
fn compaction_ends_in_wal_at_page_size() {
    let mut db = FakeDb::at(1);
    let (r, done) = drive(&args("persist", false), EXPECTED_VERSION, &mut db);
    assert_eq!(r, Ok(()));
    assert_eq!(db.journal, "wal");
    assert_eq!(db.page_size, 16384);
    let n = done.len();
    assert_eq!(done[n - 2], Action::SetJournal(JournalMode::Wal));
    assert_eq!(done[n - 1], Action::Compact { page_size: 16384 });
}

#[test]
fn skipped_compaction_keeps_page_size() {
    let mut db = FakeDb::at(1);
    let (r, done) = drive(&args("persist", true), EXPECTED_VERSION, &mut db);
    assert_eq!(r, Ok(()));
    assert_eq!(db.page_size, 4096);
    assert!(!done.iter().any(|a| matches!(a, Action::Compact { .. })));
}

#[test]
fn chain_to_three_logs_each_version_once() {
    let mut db = FakeDb::at(0);
    let (r, _) = drive(&args("delete", false), 3, &mut db);
    assert_eq!(r, Ok(()));
    let added = &db.log[1..];
    let ids: Vec<i32> = added.iter().map(|r| r.0).collect();
    assert_eq!(ids, vec![1, 2, 3]);
    assert!(added.windows(2).all(|w| w[0].1 < w[1].1));
}

#[test]
fn failed_pragma_stops_before_steps() {
    let mut db = FakeDb::at(0);
    db.fail_pragma = Some(Durability::FullFsync);
    let (r, done) = drive(&args("delete", false), EXPECTED_VERSION, &mut db);
    assert_eq!(r, Err(UpgradeError::Database));
    assert_eq!(
        done,
        vec![
            Action::ReadVersion,
            Action::Pragma(Durability::ForeignKeys),
            Action::Pragma(Durability::FullFsync),
        ]
    );
    assert_eq!(db.version(), 0);
}

#[test]
fn failed_compaction_keeps_committed_steps() {
    let mut db = FakeDb::at(3);
    db.fail_compaction = true;
    let (r, _) = drive(&args("delete", false), EXPECTED_VERSION, &mut db);
    assert_eq!(r, Err(UpgradeError::CompactionFailure));
    assert_eq!(db.version(), EXPECTED_VERSION);
}

#[test]
fn journal_mismatch_is_not_fatal() {
    let mut db = FakeDb::at(0);
    db.refused_journal = vec![JournalMode::Wal];
    let a = args("truncate", true);
    let mut u = Upgrader::new(&a, EXPECTED_VERSION).unwrap();
    loop {
        let action = u.next_action();
        if action == Action::Finish {
            break;
        }
        let o = db.perform(action);
        u.advance(o);
        if action == Action::SetJournal(JournalMode::Truncate) {
            assert_eq!(u.granted_journal(), Some(JournalMode::Truncate));
            assert_eq!(u.phase(), Phase::Migrating(0));
        }
    }
    assert_eq!(u.result(), Some(Ok(())));
    assert_eq!(u.granted_journal(), Some(JournalMode::Truncate));
    assert_eq!(u.version(), EXPECTED_VERSION);
    assert_eq!(u.start_version(), 0);
    assert_eq!(u.target(), EXPECTED_VERSION);
    assert_eq!(u.preset_journal(), JournalMode::Truncate);
}

#[test]
fn unreadable_journal_answer_is_not_fatal() {
    let mut db = FakeDb::at(4);
    db.corrupt_reply = true;
    let a = args("delete", true);
    let mut u = Upgrader::new(&a, EXPECTED_VERSION).unwrap();
    while u.next_action() != Action::Finish {
        let o = db.perform(u.next_action());
        u.advance(o);
    }
    assert_eq!(u.result(), Some(Ok(())));
    assert_eq!(u.granted_journal(), None);
}

#[test]
fn report_of_wrong_kind_counts_as_failure() {
    let a = args("delete", false);
    let mut u = Upgrader::new(&a, EXPECTED_VERSION).unwrap();
    assert_eq!(u.phase(), Phase::Validating);
    assert_eq!(u.result(), None);
    u.advance(Outcome::Completed);
    assert_eq!(u.result(), Some(Err(UpgradeError::Database)));
    assert_eq!(u.next_action(), Action::Finish);
    u.advance(Outcome::Version(0));
    assert_eq!(u.phase(), Phase::Failed(UpgradeError::Database));

    let mut u = Upgrader::new(&a, EXPECTED_VERSION).unwrap();
    u.advance(Outcome::Version(1));
    u.advance(Outcome::Completed);
    u.advance(Outcome::Completed);
    u.advance(Outcome::Completed);
    u.advance(Outcome::Journal(Some(JournalMode::Delete)));
    assert_eq!(u.next_action(), Action::ApplyStep { from: 1, to: 2 });
    u.advance(Outcome::Version(2));
    assert_eq!(u.result(), Some(Err(UpgradeError::StepFailure { from: 1 })));
    assert_eq!(u.version(), 1);
}

#[test]
fn granted_journal_is_checked() {
    assert_eq!(check_granted(JournalMode::Wal, Some(JournalMode::Wal)), Ok(JournalMode::Wal));
    assert_eq!(
        check_granted(JournalMode::Wal, Some(JournalMode::Memory)),
        Err(UpgradeError::PragmaMismatch {
            requested: JournalMode::Wal,
            granted: Some(JournalMode::Memory)
        })
    );
    assert_eq!(
        check_granted(JournalMode::Delete, None),
        Err(UpgradeError::PragmaMismatch { requested: JournalMode::Delete, granted: None })
    );
}
