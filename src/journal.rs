use vstd::prelude::*;
use vstd::string::*;

verus! {

/// Tells whether two strings hold the same characters.
pub fn same_text(a: &str, b: &str) -> (r: bool)
    ensures
        r == (a@ == b@),
{
    let n = a.unicode_len();
    let m = b.unicode_len();
    if n != m {
        return false;
    }
    let mut i: usize = 0;
    while i < n
        invariant
            n == a@.len(),
            m == b@.len(),
            n == m,
            i <= n,
            forall|j: int| 0 <= j < i ==> a@[j] == b@[j],
        decreases n - i,
    {
        if a.get_char(i) != b.get_char(i) {
            assert(a@[i as int] != b@[i as int]);
            return false;
        }
        i += 1;
    }
    assert(a@ =~= b@);
    true
}

/// The journal modes that the database engine knows. Only these names are
/// ever placed in a `journal_mode` pragma.
#[derive(Clone, Copy, Debug, PartialEq, Eq, Structural)]
pub enum JournalMode {
    Delete,
    Truncate,
    Persist,
    Memory,
    Wal,
    Off,
}

/// The name of a journal mode, as the engine spells it.
pub open spec fn mode_name(m: JournalMode) -> Seq<char> {
    match m {
        JournalMode::Delete => "delete"@,
        JournalMode::Truncate => "truncate"@,
        JournalMode::Persist => "persist"@,
        JournalMode::Memory => "memory"@,
        JournalMode::Wal => "wal"@,
        JournalMode::Off => "off"@,
    }
}

/// The journal mode with the given name, if there is one.
pub open spec fn mode_named(s: Seq<char>) -> Option<JournalMode> {
    if s == mode_name(JournalMode::Delete) {
        Some(JournalMode::Delete)
    } else if s == mode_name(JournalMode::Truncate) {
        Some(JournalMode::Truncate)
    } else if s == mode_name(JournalMode::Persist) {
        Some(JournalMode::Persist)
    } else if s == mode_name(JournalMode::Memory) {
        Some(JournalMode::Memory)
    } else if s == mode_name(JournalMode::Wal) {
        Some(JournalMode::Wal)
    } else if s == mode_name(JournalMode::Off) {
        Some(JournalMode::Off)
    } else {
        None
    }
}

/// The statement that asks the engine for a journal mode.
pub open spec fn journal_statement(m: JournalMode) -> Seq<char> {
    "pragma journal_mode = "@ + mode_name(m)
}

impl JournalMode {
    /// Reads a journal mode from its name; any other text is refused.
    pub fn from_name(s: &str) -> (r: Option<JournalMode>)
        ensures
            r == mode_named(s@),
    {
        if same_text(s, "delete") {
            Some(JournalMode::Delete)
        } else if same_text(s, "truncate") {
            Some(JournalMode::Truncate)
        } else if same_text(s, "persist") {
            Some(JournalMode::Persist)
        } else if same_text(s, "memory") {
            Some(JournalMode::Memory)
        } else if same_text(s, "wal") {
            Some(JournalMode::Wal)
        } else if same_text(s, "off") {
            Some(JournalMode::Off)
        } else {
            None
        }
    }

    /// The engine's name for this mode.
    pub fn name(&self) -> (r: &'static str)
        ensures
            r@ == mode_name(*self),
    {
        match self {
            JournalMode::Delete => "delete",
            JournalMode::Truncate => "truncate",
            JournalMode::Persist => "persist",
            JournalMode::Memory => "memory",
            JournalMode::Wal => "wal",
            JournalMode::Off => "off",
        }
    }

    /// The pragma that requests this mode; the engine answers with the mode
    /// it actually granted.
    pub fn statement(&self) -> (r: &'static str)
        ensures
            r@ == journal_statement(*self),
    {
        proof {
            reveal_strlit("pragma journal_mode = ");
        }
        match self {
            JournalMode::Delete => {
                proof {
                    reveal_strlit("pragma journal_mode = delete");
                    reveal_strlit("delete");
                }
                assert("pragma journal_mode = delete"@ =~= journal_statement(*self));
                "pragma journal_mode = delete"
            },
            JournalMode::Truncate => {
                proof {
                    reveal_strlit("pragma journal_mode = truncate");
                    reveal_strlit("truncate");
                }
                assert("pragma journal_mode = truncate"@ =~= journal_statement(*self));
                "pragma journal_mode = truncate"
            },
            JournalMode::Persist => {
                proof {
                    reveal_strlit("pragma journal_mode = persist");
                    reveal_strlit("persist");
                }
                assert("pragma journal_mode = persist"@ =~= journal_statement(*self));
                "pragma journal_mode = persist"
            },
            JournalMode::Memory => {
                proof {
                    reveal_strlit("pragma journal_mode = memory");
                    reveal_strlit("memory");
                }
                assert("pragma journal_mode = memory"@ =~= journal_statement(*self));
                "pragma journal_mode = memory"
            },
            JournalMode::Wal => {
                proof {
                    reveal_strlit("pragma journal_mode = wal");
                    reveal_strlit("wal");
                }
                assert("pragma journal_mode = wal"@ =~= journal_statement(*self));
                "pragma journal_mode = wal"
            },
            JournalMode::Off => {
                proof {
                    reveal_strlit("pragma journal_mode = off");
                    reveal_strlit("off");
                }
                assert("pragma journal_mode = off"@ =~= journal_statement(*self));
                "pragma journal_mode = off"
            },
        }
    }
}

/// Reading back the name of a mode gives the same mode.
pub proof fn lemma_mode_name_round_trip(m: JournalMode)
    ensures
        mode_named(mode_name(m)) == Some(m),
{
    reveal_strlit("delete");
    reveal_strlit("truncate");
    reveal_strlit("persist");
    reveal_strlit("memory");
    reveal_strlit("wal");
    reveal_strlit("off");
    assert("delete"@[0] == 'd');
    assert("truncate"@[0] == 't');
    assert("persist"@[0] == 'p');
    assert("memory"@[0] == 'm');
    assert("wal"@[0] == 'w');
    assert("off"@[0] == 'o');
}

/// The settings forced on before any step runs: they favour durability over
/// speed while the schema changes.
#[derive(Clone, Copy, Debug, PartialEq, Eq, Structural)]
pub enum Durability {
    /// Enforce foreign keys.
    ForeignKeys,
    /// Ask the platform for full file syncs where it has them.
    FullFsync,
    /// Sync fully on every commit.
    SynchronousFull,
}

pub open spec fn durability_statement(d: Durability) -> Seq<char> {
    match d {
        Durability::ForeignKeys => "pragma foreign_keys = on"@,
        Durability::FullFsync => "pragma fullfsync = on"@,
        Durability::SynchronousFull => "pragma synchronous = 2"@,
    }
}

impl Durability {
    /// The statement that applies this setting.
    pub fn statement(&self) -> (r: &'static str)
        ensures
            r@ == durability_statement(*self),
    {
        match self {
            Durability::ForeignKeys => "pragma foreign_keys = on",
            Durability::FullFsync => "pragma fullfsync = on",
            Durability::SynchronousFull => "pragma synchronous = 2",
        }
    }
}

} // verus!
