//! What a run of the migrations achieves, proved against a model of the
//! database's ledger.
//!
//! The model records the schema version and, beside it, every script that
//! ever ran, in the order in which it ran. A script that succeeds records its
//! version; one that fails leaves the ledger as it was, its transaction
//! rolled back. Whether an action succeeds is not the runner's to decide: it
//! is given, turn by turn, as a sequence of booleans.

use vstd::prelude::*;
use crate::migration::{
    applied_count, ascending, latest, lemma_applied_count_is, lemma_pending_is_suffix, pending,
    MigrationAction, MigrationEvent, MigrationState,
};

verus! {

/// The migration ledger of a database.
pub struct Ledger {
    /// The schema version; zero before any script has run.
    pub version: u64,
    /// The versions of the scripts that ran, oldest first.
    pub history: Seq<u64>,
}

/// A run under way: the runner's state and the ledger it acts on.
pub struct MigrationRun {
    pub state: MigrationState,
    pub ledger: Ledger,
}

impl Ledger {
    /// The ledger after `action` was performed, successfully or not, and the
    /// event that reports it.
    pub open spec fn perform(self, action: MigrationAction, ok: bool) -> (Ledger, MigrationEvent) {
        match action {
            MigrationAction::ReadVersion => {
                if ok {
                    (self, MigrationEvent::VersionRead { version: self.version })
                } else {
                    (self, MigrationEvent::StoreFailed)
                }
            },
            MigrationAction::Apply { version } => {
                if ok {
                    (
                        Ledger { version, history: self.history.push(version) },
                        MigrationEvent::Applied,
                    )
                } else {
                    (self, MigrationEvent::StoreFailed)
                }
            },
            MigrationAction::Finish { .. } => (self, MigrationEvent::Applied),
            MigrationAction::Abort { .. } => (self, MigrationEvent::StoreFailed),
        }
    }

    /// The version a ledger at `self.version` shows after the first `count`
    /// of `scripts` ran.
    pub open spec fn version_after(self, scripts: Seq<u64>, count: int) -> u64 {
        if count <= 0 {
            self.version
        } else {
            scripts[count - 1]
        }
    }
}

impl MigrationRun {
    /// A fresh run of the scripts `versions` on `ledger`.
    pub open spec fn start(versions: Seq<u64>, ledger: Ledger) -> MigrationRun {
        MigrationRun { state: MigrationState::initial(versions), ledger }
    }

    /// One turn of the driver: perform the action the state waits on, report
    /// the event.
    pub open spec fn turn(self, versions: Seq<u64>, ok: bool) -> MigrationRun {
        let (ledger, event) = self.ledger.perform(self.state.action(), ok);
        MigrationRun { state: self.state.after(versions, event), ledger }
    }

    /// As many turns as there are outcomes.
    pub open spec fn turns(self, versions: Seq<u64>, outcomes: Seq<bool>) -> MigrationRun
        decreases outcomes.len(),
    {
        if outcomes.len() == 0 {
            self
        } else {
            self.turns(versions, outcomes.drop_last()).turn(versions, outcomes.last())
        }
    }

    /// The number of scripts that ran since the ledger was `before`.
    pub open spec fn progress(self, before: Ledger) -> int {
        self.ledger.history.len() - before.history.len()
    }

    /// How the runner's state and the ledger hang together in a run that
    /// started on the ledger `before`.
    pub open spec fn coherent(self, versions: Seq<u64>, before: Ledger) -> bool {
        let todo = pending(versions, before.version);
        let done = self.progress(before);
        &&& 0 <= done <= todo.len()
        &&& self.ledger.history == before.history + todo.take(done)
        &&& self.ledger.version == before.version_after(todo, done)
        &&& match self.state {
            MigrationState::ReadingVersion => done == 0 && versions.len() > 0,
            MigrationState::Applying { version } => {
                &&& before.version <= latest(versions)
                &&& done < todo.len()
                &&& version == todo[done]
            },
            MigrationState::Done { version } => {
                &&& before.version <= latest(versions)
                &&& versions.len() > 0
                &&& done == todo.len()
                &&& version == self.ledger.version
            },
            MigrationState::Failed { .. } => true,
        }
    }
}

/// One turn keeps the runner and the ledger coherent.
pub proof fn lemma_turn_coherent(run: MigrationRun, versions: Seq<u64>, before: Ledger, ok: bool)
    requires
        ascending(versions),
        run.coherent(versions, before),
    ensures
        run.turn(versions, ok).coherent(versions, before),
{
    let todo = pending(versions, before.version);
    let done = run.progress(before);
    lemma_pending_is_suffix(versions, before.version);
    match run.state {
        MigrationState::ReadingVersion => {
            assert(todo.take(0) =~= Seq::<u64>::empty());
        },
        MigrationState::Applying { version } => {
            if ok {
                assert(before.history + todo.take(done + 1) =~= (before.history + todo.take(
                    done,
                )).push(version));
                lemma_pending_after(versions, before.version, done);
            }
        },
        _ => {},
    }
}

/// Behind the script at place `done` of those pending for `current`, the
/// scripts pending are the rest of them.
pub proof fn lemma_pending_after(versions: Seq<u64>, current: u64, done: int)
    requires
        ascending(versions),
        0 <= done < pending(versions, current).len(),
    ensures
        pending(versions, pending(versions, current)[done]) == pending(versions, current).skip(
            done + 1,
        ),
{
    let todo = pending(versions, current);
    lemma_pending_is_suffix(versions, current);
    let k = applied_count(versions, current) as int;
    let reached = todo[done];
    assert(reached == versions[k + done]);
    assert forall|i: int| 0 <= i < k + done + 1 implies #[trigger] versions[i] <= reached by {
        if i < k + done {
            assert(versions[i] < versions[k + done]);
        }
    }
    if k + done + 1 < versions.len() {
        assert(versions[k + done] < versions[k + done + 1]);
    }
    lemma_applied_count_is(versions, reached, k + done + 1);
    lemma_pending_is_suffix(versions, reached);
    assert(versions.skip(k + done + 1) =~= todo.skip(done + 1));
}

/// Every run that starts on a ledger stays coherent with it, whatever
/// succeeds and whatever fails.
pub proof fn lemma_turns_coherent(versions: Seq<u64>, before: Ledger, outcomes: Seq<bool>)
    requires
        ascending(versions),
    ensures
        MigrationRun::start(versions, before).turns(versions, outcomes).coherent(versions, before),
    decreases outcomes.len(),
{
    let todo = pending(versions, before.version);
    if outcomes.len() > 0 {
        lemma_turns_coherent(versions, before, outcomes.drop_last());
        lemma_turn_coherent(
            MigrationRun::start(versions, before).turns(versions, outcomes.drop_last()),
            versions,
            before,
            outcomes.last(),
        );
    } else {
        lemma_pending_is_suffix(versions, before.version);
        assert(before.history + todo.take(0) =~= before.history);
    }
}

/// Ordered application: whatever succeeds and whatever fails, the scripts
/// that ran are the first few of those with a version greater than the one
/// the database was at, in ascending order and without a gap; the database
/// is at the version of the last of them, or where it was if none ran. A run
/// that is `Done` has run them all and left the database at the latest
/// version.
pub proof fn law_ordered_application(versions: Seq<u64>, before: Ledger, outcomes: Seq<bool>)
    requires
        ascending(versions),
    ensures
        ({
            let run = MigrationRun::start(versions, before).turns(versions, outcomes);
            let todo = pending(versions, before.version);
            let done = run.progress(before);
            &&& 0 <= done <= todo.len()
            &&& run.ledger.history == before.history + todo.take(done)
            &&& run.ledger.version == before.version_after(todo, done)
            &&& run.ledger.version >= before.version
            &&& run.state is Done ==> done == todo.len() && run.ledger.version == latest(versions)
        }),
{
    let run = MigrationRun::start(versions, before).turns(versions, outcomes);
    let todo = pending(versions, before.version);
    let done = run.progress(before);
    lemma_turns_coherent(versions, before, outcomes);
    lemma_pending_is_suffix(versions, before.version);
    if done > 0 {
        assert(todo[done - 1] > before.version);
    }
    if run.state is Done {
        if todo.len() > 0 {
            assert(todo[todo.len() - 1] == versions[versions.len() - 1]);
        } else {
            assert(versions[versions.len() - 1] <= before.version);
        }
    }
}

/// The end is final: once a run has ended, in failure or in success, no
/// further turn changes its state or the ledger. After the first failure no
/// later script ever runs.
pub proof fn law_end_is_final(
    versions: Seq<u64>,
    before: Ledger,
    outcomes: Seq<bool>,
    later: Seq<bool>,
)
    requires
        MigrationRun::start(versions, before).turns(versions, outcomes).state.finished(),
    ensures
        MigrationRun::start(versions, before).turns(versions, outcomes + later)
            == MigrationRun::start(versions, before).turns(versions, outcomes),
    decreases later.len(),
{
    if later.len() == 0 {
        assert(outcomes + later =~= outcomes);
    } else {
        law_end_is_final(versions, before, outcomes, later.drop_last());
        assert((outcomes + later).drop_last() =~= outcomes + later.drop_last());
        assert((outcomes + later).last() == later.last());
    }
}

/// Idempotence: after a run that was `Done`, a second run over the same
/// scripts finds nothing to do. As soon as it has read the version it is
/// `Done` at that same version, and the ledger is as the first run left it,
/// whatever the later outcomes.
pub proof fn law_idempotent(
    versions: Seq<u64>,
    before: Ledger,
    first: Seq<bool>,
    second: Seq<bool>,
)
    requires
        ascending(versions),
        MigrationRun::start(versions, before).turns(versions, first).state is Done,
        second.len() > 0,
        second[0],
    ensures
        ({
            let once = MigrationRun::start(versions, before).turns(versions, first);
            let twice = MigrationRun::start(versions, once.ledger).turns(versions, second);
            &&& twice.state == once.state
            &&& twice.ledger == once.ledger
        }),
    decreases second.len(),
{
    let once = MigrationRun::start(versions, before).turns(versions, first);
    let again = MigrationRun::start(versions, once.ledger);
    law_ordered_application(versions, before, first);
    lemma_turns_coherent(versions, before, first);
    if second.len() == 1 {
        assert(second.drop_last() =~= Seq::<bool>::empty());
        assert(again.turns(versions, second.drop_last()) == again);
        lemma_pending_is_suffix(versions, once.ledger.version);
        let k = applied_count(versions, once.ledger.version) as int;
        if k < versions.len() {
            assert(versions[k] <= versions[versions.len() - 1]);
        }
    } else {
        assert(second.drop_last()[0] == second[0]);
        law_idempotent(versions, before, first, second.drop_last());
    }
}

/// Completion: where the list has a script, the database is not ahead of
/// it, and nothing fails, the run is `Done` after one turn for reading the
/// version and one for each pending script.
pub proof fn law_completes(versions: Seq<u64>, before: Ledger, outcomes: Seq<bool>)
    requires
        ascending(versions),
        versions.len() > 0,
        before.version <= latest(versions),
        forall|i: int| 0 <= i < outcomes.len() ==> outcomes[i],
        outcomes.len() > pending(versions, before.version).len(),
    ensures
        MigrationRun::start(versions, before).turns(versions, outcomes).state is Done,
{
    lemma_progress(versions, before, outcomes);
    lemma_turns_coherent(versions, before, outcomes);
}

/// With outcomes that all succeed, a run that can succeed has not failed,
/// and has run one script per turn after the first until it is `Done`.
pub proof fn lemma_progress(versions: Seq<u64>, before: Ledger, outcomes: Seq<bool>)
    requires
        ascending(versions),
        versions.len() > 0,
        before.version <= latest(versions),
        forall|i: int| 0 <= i < outcomes.len() ==> outcomes[i],
    ensures
        ({
            let run = MigrationRun::start(versions, before).turns(versions, outcomes);
            match run.state {
                MigrationState::ReadingVersion => outcomes.len() == 0,
                MigrationState::Applying { .. } => run.progress(before) + 1 == outcomes.len(),
                MigrationState::Done { .. } => true,
                MigrationState::Failed { .. } => false,
            }
        }),
    decreases outcomes.len(),
{
    if outcomes.len() > 0 {
        let earlier = outcomes.drop_last();
        lemma_progress(versions, before, earlier);
        lemma_turns_coherent(versions, before, earlier);
        lemma_pending_is_suffix(versions, before.version);
        let run = MigrationRun::start(versions, before).turns(versions, earlier);
        lemma_turn_coherent(run, versions, before, outcomes.last());
    }
}

} // verus!
