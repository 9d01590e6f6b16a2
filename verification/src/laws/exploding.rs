//! Laws on exploding a change.

use vstd::prelude::*;
use vstd::string::*;

use crate::error_model::AnyError;
use crate::explode::{
    check_explodable, entry_views, hex_ids, EvologEntry, Explode, ExplodeStep, NewCommit,
    PendingExplode, NOTHING_TO_EXPLODE,
};
use crate::ids::CommitId;
use crate::laws::text::{is_decimal, lemma_decimal};
use crate::text::decimal;
use crate::user_error::{UserError, UserErrorKind};

verus! {

/// The states `states` follow from one another: each but the last tells to write the next
/// of `commits`, and the next state goes on from the identifier in `ids` that it was given.
pub open spec fn follows<T>(
    states: Seq<Explode<T>>,
    commits: Seq<NewCommit<T>>,
    pending: Seq<PendingExplode<T>>,
    ids: Seq<CommitId>,
) -> bool {
    &&& states.len() == commits.len() + 1
    &&& pending.len() == commits.len()
    &&& ids.len() == commits.len()
    &&& forall|k: int|
        0 <= k < commits.len() ==> {
            &&& call_ensures(
                Explode::<T>::step,
                (#[trigger] states[k],),
                ExplodeStep::Create(commits[k], pending[k]),
            )
            &&& call_ensures(PendingExplode::<T>::created, (pending[k], ids[k]), states[k + 1])
        }
}

proof fn lemma_state<T>(
    parent_ids: Vec<CommitId>,
    log: Vec<EvologEntry<T>>,
    states: Seq<Explode<T>>,
    commits: Seq<NewCommit<T>>,
    pending: Seq<PendingExplode<T>>,
    ids: Seq<CommitId>,
    m: int,
)
    requires
        call_ensures(Explode::<T>::start, (parent_ids, log), Some(states[0])),
        follows(states, commits, pending, ids),
        0 <= m <= commits.len(),
    ensures
        m <= log@.len(),
        states[m]@.entries == entry_views(log@).take(log@.len() - m),
        states[m]@.parent_ids == (if m == 0 {
            hex_ids(parent_ids@)
        } else {
            seq![ids[m - 1]@]
        }),
        states[m]@.num_commits == log@.len(),
    decreases m,
{
    if m == 0 {
        assert(entry_views(log@).take(log@.len() as int) =~= entry_views(log@));
    } else {
        lemma_state(parent_ids, log, states, commits, pending, ids, m - 1);
        let before = states[m - 1];
        assert(before@.entries.drop_last() =~= entry_views(log@).take(log@.len() - m));
    }
}

/// Exploding writes one commit per entry of the evolution log, however long the log is:
/// each with the tree and the description of its entry, oldest entry first, the first
/// commit on the parents of the original one and each other commit on the one written
/// before it. Nothing is done where the log has fewer than two entries, and only there.
pub proof fn law_every_entry_is_written<T>(
    parent_ids: Vec<CommitId>,
    log: Vec<EvologEntry<T>>,
    started: Option<Explode<T>>,
    states: Seq<Explode<T>>,
    commits: Seq<NewCommit<T>>,
    pending: Seq<PendingExplode<T>>,
    ids: Seq<CommitId>,
    step: ExplodeStep<T>,
)
    requires
        call_ensures(Explode::<T>::start, (parent_ids, log), started),
        started is Some ==> {
            &&& follows(states, commits, pending, ids)
            &&& states[0] == started->0
            &&& call_ensures(Explode::<T>::step, (states.last(),), step)
        },
    ensures
        started is None <==> log@.len() < 2,
        started is Some ==> {
            // Writing ends when every entry is written, and not before
            &&& commits.len() <= log@.len()
            &&& step is Finish <==> commits.len() == log@.len()
            &&& forall|k: int|
                0 <= k < commits.len() ==> {
                    let entry = log@[log@.len() - 1 - k];
                    &&& (#[trigger] commits[k]).tree == entry.tree
                    &&& commits[k].description@ == entry.description@
                }
            &&& commits.len() > 0 ==> {
                &&& commits[0].parent_ids@.len() == parent_ids@.len()
                &&& forall|p: int|
                    0 <= p < parent_ids@.len() ==> (#[trigger] commits[0].parent_ids@[p]).hex@
                        == parent_ids@[p].hex@
            }
            &&& forall|k: int|
                0 < k < commits.len() ==> {
                    &&& (#[trigger] commits[k]).parent_ids@.len() == 1
                    &&& commits[k].parent_ids@[0].hex@ == ids[k - 1].hex@
                }
        },
{
    if started is Some {
        let n = log@.len();
        let m = commits.len() as int;
        lemma_state(parent_ids, log, states, commits, pending, ids, m);
        assert forall|k: int| 0 <= k < commits.len() implies {
            let entry = log@[log@.len() - 1 - k];
            &&& (#[trigger] commits[k]).tree == entry.tree
            &&& commits[k].description@ == entry.description@
        } by {
            lemma_state(parent_ids, log, states, commits, pending, ids, k);
            assert(states[k]@.entries.last() == entry_views(log@)[n - 1 - k]);
        }
        assert forall|k: int| 0 < k < commits.len() implies {
            &&& (#[trigger] commits[k]).parent_ids@.len() == 1
            &&& commits[k].parent_ids@[0].hex@ == ids[k - 1].hex@
        } by {
            lemma_state(parent_ids, log, states, commits, pending, ids, k);
            assert(hex_ids(commits[k].parent_ids@) == seq![ids[k - 1]@]);
            assert(hex_ids(commits[k].parent_ids@).len() == 1);
            assert(hex_ids(commits[k].parent_ids@)[0] == ids[k - 1]@);
        }
        if commits.len() > 0 {
            lemma_state(parent_ids, log, states, commits, pending, ids, 0);
            assert(hex_ids(commits[0].parent_ids@) == hex_ids(parent_ids@));
            assert(hex_ids(commits[0].parent_ids@).len() == parent_ids@.len());
            assert forall|p: int| 0 <= p < parent_ids@.len() implies (
            #[trigger] commits[0].parent_ids@[p]).hex@ == parent_ids@[p].hex@ by {
                assert(hex_ids(commits[0].parent_ids@)[p] == hex_ids(parent_ids@)[p]);
            }
        }
    }
}

/// The transaction tells how many commits were written in it.
pub proof fn law_transaction_tells_the_number<T>(
    parent_ids: Vec<CommitId>,
    log: Vec<EvologEntry<T>>,
    states: Seq<Explode<T>>,
    commits: Seq<NewCommit<T>>,
    pending: Seq<PendingExplode<T>>,
    ids: Seq<CommitId>,
    description: String,
) -> (number: Seq<char>)
    requires
        call_ensures(Explode::<T>::start, (parent_ids, log), Some(states[0])),
        follows(states, commits, pending, ids),
        call_ensures(Explode::<T>::step, (states.last(),), ExplodeStep::Finish(description)),
    ensures
        description@ == "explode "@ + number + " commit(s) from evolution history"@,
        is_decimal(number, commits.len() as int),
{
    lemma_state(parent_ids, log, states, commits, pending, ids, commits.len() as int);
    lemma_decimal(commits.len());
    decimal(commits.len())
}

/// The root commit, and no other one, is refused: the user is told so, and that it is
/// their error.
pub proof fn law_only_the_root_is_refused(
    commit_id: &CommitId,
    root_commit_id: &CommitId,
    r: Result<(), UserError>,
)
    requires
        call_ensures(check_explodable, (commit_id, root_commit_id), r),
    ensures
        r is Err <==> commit_id.hex@ == root_commit_id.hex@,
        r matches Err(err) ==> {
            &&& err.kind == UserErrorKind::User
            &&& *err.error matches AnyError::Message(text)
            &&& text@ == "Cannot explode the root commit"@
            &&& err.hints@.len() == 0
        },
{
    if let Err(err) = r {
        assert(err@.hints.len() == err.hints@.len());
    }
}

/// What the user is told where there is nothing to do.
pub proof fn law_nothing_to_explode()
    ensures
        NOTHING_TO_EXPLODE@ == "Nothing to explode."@,
{
}

} // verus!
