//! Bringing the components index up to date: the decisions between the calls to the
//! components servers. The caller makes the calls; these functions say which call comes next
//! and what the outcome is.
use vstd::prelude::*;

use crate::text::owned;

verus! {

/// What the check of the local components index found.
#[derive(Debug, PartialEq, Eq)]
pub enum IndexState {
    /// The index is up to date.
    UpToDate,
    /// The index is out of date and has to be synced from a mirror.
    Outdated,
    /// The check failed with this error.
    CheckFailed(String),
}

/// What to do next while syncing.
#[derive(Debug, PartialEq, Eq)]
pub enum SyncStep {
    /// Sync from the mirror at this position of the configured list.
    TryMirror(usize),
    /// Syncing is over, with this outcome.
    Finished(Result<(), String>),
}

/// The content of a [`SyncStep`].
pub enum SyncStepModel {
    TryMirror(nat),
    Finished(Result<(), Seq<char>>),
}

impl View for SyncStep {
    type V = SyncStepModel;

    open spec fn view(&self) -> SyncStepModel {
        match self {
            SyncStep::TryMirror(i) => SyncStepModel::TryMirror(*i as nat),
            SyncStep::Finished(Ok(())) => SyncStepModel::Finished(Ok(())),
            SyncStep::Finished(Err(e)) => SyncStepModel::Finished(Err(e@)),
        }
    }
}

/// The error when no mirror could be synced from.
pub open spec fn all_mirrors_failed() -> Seq<char> {
    "All component mirror servers failed to respond."@
}

/// The first step after the index was checked, with `mirrors` mirrors configured.
pub open spec fn begin_model(state: IndexState, mirrors: nat) -> SyncStepModel {
    match state {
        IndexState::UpToDate => SyncStepModel::Finished(Ok(())),
        IndexState::CheckFailed(e) => SyncStepModel::Finished(Err(e@)),
        IndexState::Outdated => if mirrors > 0 {
            SyncStepModel::TryMirror(0)
        } else {
            SyncStepModel::Finished(Err(all_mirrors_failed()))
        },
    }
}

/// The step after the mirror at position `tried` answered with `succeeded`.
pub open spec fn after_attempt_model(tried: nat, mirrors: nat, succeeded: bool) -> SyncStepModel {
    if succeeded {
        SyncStepModel::Finished(Ok(()))
    } else if tried + 1 < mirrors {
        SyncStepModel::TryMirror(tried + 1)
    } else {
        SyncStepModel::Finished(Err(all_mirrors_failed()))
    }
}

/// Where syncing starts after the index was checked.
pub fn sync_begin(state: IndexState, mirrors: usize) -> (r: SyncStep)
    ensures
        r@ == begin_model(state, mirrors as nat),
{
    match state {
        IndexState::UpToDate => SyncStep::Finished(Ok(())),
        IndexState::CheckFailed(e) => SyncStep::Finished(Err(e)),
        IndexState::Outdated => {
            if mirrors > 0 {
                SyncStep::TryMirror(0)
            } else {
                SyncStep::Finished(Err(owned("All component mirror servers failed to respond.")))
            }
        },
    }
}

/// Where syncing goes after the mirror at position `tried` (of `mirrors`) answered: done at
/// the first success, on to the next mirror after a failure, and an error when the last one
/// failed too.
pub fn sync_after_attempt(tried: usize, mirrors: usize, succeeded: bool) -> (r: SyncStep)
    requires
        tried < mirrors,
    ensures
        r@ == after_attempt_model(tried as nat, mirrors as nat, succeeded),
{
    if succeeded {
        SyncStep::Finished(Ok(()))
    } else if tried + 1 < mirrors {
        SyncStep::TryMirror(tried + 1)
    } else {
        SyncStep::Finished(Err(owned("All component mirror servers failed to respond.")))
    }
}

/// The outcome of driving the steps from mirror `i` on, where `results[k]` is how mirror `k`
/// answers.
pub open spec fn run_mirrors(i: nat, results: Seq<bool>) -> Result<(), Seq<char>>
    decreases results.len() - i,
{
    if i < results.len() {
        if results[i as int] {
            Ok(())
        } else if i + 1 < results.len() {
            run_mirrors(i + 1, results)
        } else {
            Err(all_mirrors_failed())
        }
    } else {
        Err(all_mirrors_failed())
    }
}

/// The outcome of a whole sync after the check found `state`, where `results[k]` is how
/// mirror `k` would answer.
pub open spec fn sync_outcome(state: IndexState, results: Seq<bool>) -> Result<(), Seq<char>> {
    match begin_model(state, results.len()) {
        SyncStepModel::Finished(r) => r,
        SyncStepModel::TryMirror(i) => run_mirrors(i, results),
    }
}

/// Each step of `run_mirrors` is the one that [`sync_after_attempt`] takes.
pub proof fn law_run_follows_steps(i: nat, results: Seq<bool>)
    requires
        i < results.len(),
    ensures
        run_mirrors(i, results) == match after_attempt_model(i, results.len(), results[i as int]) {
            SyncStepModel::Finished(r) => r,
            SyncStepModel::TryMirror(j) => run_mirrors(j, results),
        },
{
}

/// An outdated index is synced exactly when some mirror answers, and then from the first
/// one that does: mirrors after it are not tried.
pub proof fn law_outdated_index_synced_iff_a_mirror_answers(results: Seq<bool>)
    ensures
        sync_outcome(IndexState::Outdated, results) == if results.contains(true) {
            Ok::<(), Seq<char>>(())
        } else {
            Err(all_mirrors_failed())
        },
{
    if results.len() > 0 {
        lemma_run_mirrors(0, results);
        assert(results.subrange(0, results.len() as int) =~= results);
    }
}

proof fn lemma_run_mirrors(i: nat, results: Seq<bool>)
    requires
        i < results.len(),
    ensures
        run_mirrors(i, results) == if results.subrange(i as int, results.len() as int).contains(
            true,
        ) {
            Ok::<(), Seq<char>>(())
        } else {
            Err(all_mirrors_failed())
        },
    decreases results.len() - i,
{
    let tail = results.subrange(i as int, results.len() as int);
    if results[i as int] {
        assert(tail[0] == true);
    } else if i + 1 < results.len() {
        lemma_run_mirrors(i + 1, results);
        let rest = results.subrange(i + 1 as int, results.len() as int);
        assert(tail =~= seq![false] + rest);
        if rest.contains(true) {
            let k = choose|k: int| 0 <= k < rest.len() && rest[k] == true;
            assert(tail[k + 1] == true);
        }
        if tail.contains(true) {
            let k = choose|k: int| 0 <= k < tail.len() && tail[k] == true;
            assert(k != 0);
            assert(rest[k - 1] == true);
        }
    } else {
        assert(tail =~= seq![false]);
    }
}

} // verus!
