//! The migration runner: bringing a database from whatever schema version it
//! is at to the latest one in a fixed list of scripts.
//!
//! The runner never touches the database. Every [`MigrationState`] names the
//! [`MigrationAction`] it waits on; the driver performs it (reading the
//! version recorded in the database, or running one script in a transaction
//! of its own and recording its version) and reports a [`MigrationEvent`].

use vstd::prelude::*;
use vstd::string::StringExecFns;
use crate::error::{Error, ErrorKind};

verus! {

/// Version numbers start at one and strictly increase along the list.
pub open spec fn ascending(versions: Seq<u64>) -> bool {
    &&& forall|i: int| 0 <= i < versions.len() ==> #[trigger] versions[i] >= 1
    &&& forall|i: int, j: int| 0 <= i < j < versions.len() ==> versions[i] < versions[j]
}

/// The highest version in the list; zero when the list is empty.
pub open spec fn latest(versions: Seq<u64>) -> u64 {
    if versions.len() == 0 {
        0
    } else {
        versions.last()
    }
}

/// The predicate "greater than `current`".
pub open spec fn newer_than(current: u64) -> spec_fn(u64) -> bool {
    |version: u64| version > current
}

/// The scripts a database at version `current` has yet to run, in the order
/// of the list.
pub open spec fn pending(versions: Seq<u64>, current: u64) -> Seq<u64> {
    versions.filter(newer_than(current))
}

/// How many scripts of the list a database at version `current` has behind
/// it.
pub open spec fn applied_count(versions: Seq<u64>, current: u64) -> nat {
    (versions.len() - pending(versions, current).len()) as nat
}

/// The versions one to `count`, in order.
pub open spec fn numbered(count: nat) -> Seq<u64> {
    Seq::new(count, |i: int| (i + 1) as u64)
}

/// The message of the error that refuses a list of versions out of order.
pub open spec fn disorder_message() -> Seq<char> {
    "Migration versions must start above zero and strictly increase"@
}

/// In an ascending list the pending scripts are a suffix: everything before
/// them is at most `current`, everything from there on is greater.
pub proof fn lemma_pending_is_suffix(versions: Seq<u64>, current: u64)
    requires
        ascending(versions),
    ensures
        pending(versions, current).len() <= versions.len(),
        pending(versions, current) == versions.skip(applied_count(versions, current) as int),
        forall|i: int|
            0 <= i < applied_count(versions, current) ==> #[trigger] versions[i] <= current,
        forall|i: int|
            applied_count(versions, current) <= i < versions.len() ==> #[trigger] versions[i]
                > current,
    decreases versions.len(),
{
    reveal(Seq::filter);
    if versions.len() > 0 {
        let front = versions.drop_last();
        lemma_pending_is_suffix(front, current);
        let k = applied_count(front, current) as int;
        assert forall|i: int| 0 <= i < front.len() implies front[i] == versions[i] by {}
        if versions.last() > current {
            assert(pending(versions, current) == pending(front, current).push(versions.last()));
            assert(front.skip(k).push(versions.last()) =~= versions.skip(k));
            assert(applied_count(versions, current) == k);
            assert forall|i: int| 0 <= i < k implies #[trigger] versions[i] <= current by {
                assert(front[i] <= current);
            }
        } else {
            assert(pending(versions, current) == pending(front, current));
            if k < front.len() {
                assert(front[k] > current);
                assert(versions[k] < versions[versions.len() - 1]);
            }
            assert(k == front.len());
            assert(pending(versions, current) =~= versions.skip(versions.len() as int));
            assert forall|i: int| 0 <= i < versions.len() implies #[trigger] versions[i]
                <= current by {
                if i < front.len() {
                    assert(front[i] <= current);
                }
            }
        }
    } else {
        assert(pending(versions, current) =~= versions.skip(0));
    }
}

/// The index that splits an ascending list at `current` is
/// `applied_count`, and no other.
pub proof fn lemma_applied_count_is(versions: Seq<u64>, current: u64, index: int)
    requires
        ascending(versions),
        0 <= index <= versions.len(),
        forall|i: int| 0 <= i < index ==> #[trigger] versions[i] <= current,
        index < versions.len() ==> versions[index] > current,
    ensures
        applied_count(versions, current) == index,
{
    lemma_pending_is_suffix(versions, current);
    let k = applied_count(versions, current) as int;
    if index < k {
        assert(versions[index] <= current);
    } else if k < index {
        assert(versions[k] > current);
    }
}

/// The fixed, ordered list of schema-change scripts, each known by its
/// version number.
pub struct Registry {
    versions: Vec<u64>,
}

impl View for Registry {
    type V = Seq<u64>;

    closed spec fn view(&self) -> Seq<u64> {
        self.versions@
    }
}

/// Something the driver must do next.
#[derive(Clone, Copy, Debug, PartialEq, Eq, Structural)]
pub enum MigrationAction {
    /// Read the schema version recorded in the database.
    ReadVersion,
    /// Run the script of this version in a transaction and record the
    /// version as applied.
    Apply { version: u64 },
    /// Report success: the database is at `version`, the latest.
    Finish { version: u64 },
    /// Stop and report a failure of `kind`.
    Abort { kind: ErrorKind },
}

/// What came of the action the driver performed.
#[derive(Clone, Copy, Debug, PartialEq, Eq, Structural)]
pub enum MigrationEvent {
    /// The database is at `version`; zero means that no script has run.
    VersionRead { version: u64 },
    /// The script ran and its version is recorded.
    Applied,
    /// The version could not be read, or the script failed and its
    /// transaction was rolled back.
    StoreFailed,
}

/// Where a run of the migrations stands.
#[derive(Clone, Copy, Debug, PartialEq, Eq, Structural)]
pub enum MigrationState {
    /// Waiting for the version recorded in the database.
    ReadingVersion,
    /// Waiting for the script of this `version` to run.
    Applying { version: u64 },
    /// The database is at `version`, the latest.
    Done { version: u64 },
    /// The run was given up.
    Failed { kind: ErrorKind },
}

impl Registry {
    #[verifier::type_invariant]
    spec fn ordered(self) -> bool {
        ascending(self.versions@)
    }

    /// Builds the registry from the versions of its scripts, in order.
    /// Versions that do not start above zero or do not strictly increase are
    /// refused.
    pub fn new(versions: Vec<u64>) -> (result: Result<Registry, Error>)
        ensures
            match result {
                Ok(registry) => ascending(versions@) && registry@ == versions@,
                Err(error) => {
                    &&& !ascending(versions@)
                    &&& error.kind == ErrorKind::Migration
                    &&& error.message@ == disorder_message()
                },
            },
    {
        let mut previous: u64 = 0;
        let mut i: usize = 0;
        while i < versions.len()
            invariant
                0 <= i <= versions.len(),
                i == 0 ==> previous == 0,
                i > 0 ==> previous == versions@[i - 1],
                ascending(versions@.take(i as int)),
            decreases versions.len() - i,
        {
            let version = versions[i];
            if version <= previous {
                proof {
                    if ascending(versions@) {
                        if i > 0 {
                            assert(versions@[i - 1] < versions@[i as int]);
                        } else {
                            assert(versions@[0] >= 1);
                        }
                    }
                }
                return Err(
                    Error {
                        kind: ErrorKind::Migration,
                        message: String::from_str(
                            "Migration versions must start above zero and strictly increase",
                        ),
                    },
                );
            }
            proof {
                let shorter = versions@.take(i as int);
                let longer = versions@.take(i + 1);
                assert forall|a: int, b: int| 0 <= a < b < longer.len() implies longer[a]
                    < longer[b] by {
                    if b < i {
                        assert(shorter[a] < shorter[b]);
                    } else if a < i - 1 {
                        assert(shorter[a] < shorter[i - 1]);
                    }
                }
                assert forall|a: int| 0 <= a < longer.len() implies #[trigger] longer[a] >= 1 by {
                    if a < i {
                        assert(shorter[a] >= 1);
                    }
                }
            }
            previous = version;
            i = i + 1;
        }
        proof {
            assert(versions@.take(versions.len() as int) =~= versions@);
        }
        Ok(Registry { versions })
    }

    /// The registry of `count` scripts that are numbered from one without a
    /// gap.
    pub fn numbered(count: usize) -> (registry: Registry)
        ensures
            registry@ == numbered(count as nat),
    {
        let mut versions: Vec<u64> = Vec::new();
        let mut i: usize = 0;
        while i < count
            invariant
                0 <= i <= count,
                versions@ == numbered(i as nat),
            decreases count - i,
        {
            versions.push(i as u64 + 1);
            i = i + 1;
            proof {
                assert(versions@ =~= numbered(i as nat));
            }
        }
        Registry { versions }
    }

    /// The versions of the scripts, in order.
    pub fn versions(&self) -> (versions: &Vec<u64>)
        ensures
            versions@ == self@,
            ascending(self@),
    {
        proof {
            use_type_invariant(self);
        }
        &self.versions
    }

    /// The number of scripts.
    pub fn len(&self) -> (n: usize)
        ensures
            n == self@.len(),
    {
        self.versions.len()
    }

    /// The highest version of the list; zero when it has no script.
    pub fn latest(&self) -> (version: u64)
        ensures
            version == latest(self@),
    {
        let n = self.versions.len();
        if n == 0 {
            0
        } else {
            self.versions[n - 1]
        }
    }

    /// How many scripts a database at version `current` has behind it.
    pub fn applied_count(&self, current: u64) -> (count: usize)
        ensures
            count == applied_count(self@, current),
    {
        proof {
            use_type_invariant(self);
        }
        let mut i: usize = 0;
        while i < self.versions.len() && self.versions[i] <= current
            invariant
                0 <= i <= self.versions.len(),
                forall|a: int| 0 <= a < i ==> #[trigger] self.versions@[a] <= current,
            decreases self.versions.len() - i,
        {
            i = i + 1;
        }
        proof {
            lemma_applied_count_is(self.versions@, current, i as int);
        }
        i
    }

    /// Goes on from version `current`.
    fn proceed(&self, current: u64) -> (state: MigrationState)
        ensures
            state == MigrationState::proceed(self@, current),
    {
        let index = self.applied_count(current);
        proof {
            use_type_invariant(self);
            lemma_pending_is_suffix(self@, current);
        }
        if index < self.versions.len() {
            MigrationState::Applying { version: self.versions[index] }
        } else {
            MigrationState::Done { version: current }
        }
    }

}

impl MigrationState {
    /// The state of a fresh run. A list without scripts has no latest
    /// version to reach: the run fails at once.
    pub open spec fn initial(versions: Seq<u64>) -> MigrationState {
        if versions.len() == 0 {
            MigrationState::Failed { kind: ErrorKind::Migration }
        } else {
            MigrationState::ReadingVersion
        }
    }

    /// The state of a run that has reached version `current`: waiting for
    /// the first script still pending, or done when none is.
    pub open spec fn proceed(versions: Seq<u64>, current: u64) -> MigrationState {
        let todo = pending(versions, current);
        if todo.len() > 0 {
            MigrationState::Applying { version: todo.first() }
        } else {
            MigrationState::Done { version: current }
        }
    }

    /// Whether the run has ended, in success or in failure.
    pub open spec fn finished(self) -> bool {
        self is Done || self is Failed
    }

    /// The action this state waits on.
    pub open spec fn spec_action(self) -> MigrationAction {
        match self {
            MigrationState::ReadingVersion => MigrationAction::ReadVersion,
            MigrationState::Applying { version } => MigrationAction::Apply { version },
            MigrationState::Done { version } => MigrationAction::Finish { version },
            MigrationState::Failed { kind } => MigrationAction::Abort { kind },
        }
    }

    /// The state that follows `event`.
    ///
    /// A finished run stays as it is. A failure ends the run at once: no
    /// later script is asked for. A database that is ahead of the list is
    /// refused. Otherwise the run goes on with the first script whose
    /// version is greater than the one the database has reached, and is
    /// done when there is none.
    pub open spec fn after(self, versions: Seq<u64>, event: MigrationEvent) -> MigrationState {
        match (self, event) {
            (MigrationState::Done { .. }, _) => self,
            (MigrationState::Failed { .. }, _) => self,
            (_, MigrationEvent::StoreFailed) => MigrationState::Failed {
                kind: ErrorKind::Migration,
            },
            (MigrationState::ReadingVersion, MigrationEvent::VersionRead { version }) => {
                if version > latest(versions) {
                    MigrationState::Failed { kind: ErrorKind::Migration }
                } else {
                    MigrationState::proceed(versions, version)
                }
            },
            (MigrationState::Applying { version }, MigrationEvent::Applied) => {
                MigrationState::proceed(versions, version)
            },
            _ => MigrationState::Failed { kind: ErrorKind::Protocol },
        }
    }

    /// Starts a run of the migrations in `registry`.
    pub fn begin(registry: &Registry) -> (state: MigrationState)
        ensures
            state == MigrationState::initial(registry@),
    {
        if registry.len() == 0 {
            MigrationState::Failed { kind: ErrorKind::Migration }
        } else {
            MigrationState::ReadingVersion
        }
    }

    /// What the driver must do now.
    #[verifier::when_used_as_spec(spec_action)]
    pub fn action(self) -> (action: MigrationAction)
        ensures
            action == self.spec_action(),
    {
        match self {
            MigrationState::ReadingVersion => MigrationAction::ReadVersion,
            MigrationState::Applying { version } => MigrationAction::Apply { version },
            MigrationState::Done { version } => MigrationAction::Finish { version },
            MigrationState::Failed { kind } => MigrationAction::Abort { kind },
        }
    }

    /// Takes in what came of the action and moves on.
    pub fn on(self, registry: &Registry, event: MigrationEvent) -> (state: MigrationState)
        ensures
            state == self.after(registry@, event),
    {
        match (self, event) {
            (MigrationState::Done { .. }, _) => self,
            (MigrationState::Failed { .. }, _) => self,
            (_, MigrationEvent::StoreFailed) => MigrationState::Failed {
                kind: ErrorKind::Migration,
            },
            (MigrationState::ReadingVersion, MigrationEvent::VersionRead { version }) => {
                if version > registry.latest() {
                    MigrationState::Failed { kind: ErrorKind::Migration }
                } else {
                    registry.proceed(version)
                }
            },
            (MigrationState::Applying { version }, MigrationEvent::Applied) => {
                registry.proceed(version)
            },
            _ => MigrationState::Failed { kind: ErrorKind::Protocol },
        }
    }
}

} // verus!
