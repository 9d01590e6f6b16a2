//! Create a chain of commits from a change's evolution history.
//!
//! Takes the evolution log (evolog) of a revision and creates a new chain of commits,
//! one per evolog entry, ordered oldest-to-newest. Each commit in the chain has the tree
//! and description from the corresponding evolog entry. The original commit is left
//! untouched.
//!
//! The commits are written elsewhere. [`Explode::step`] says which commit to write next,
//! and [`PendingExplode::created`] takes the identifier that it was given.

use vstd::prelude::*;
use vstd::string::*;

use crate::error_model::ErrorView;
use crate::ids::CommitId;
use crate::text::{decimal, decimal_text};
use crate::user_error::{user_error, UserError, UserErrorKind, UserErrorView};

verus! {

/// What the user is told where a history has a single entry.
pub const NOTHING_TO_EXPLODE: &'static str = "Nothing to explode.";

/// An entry of an evolution log: the state of a commit at some time. Trees are of type
/// `T`.
#[derive(Debug)]
pub struct EvologEntry<T> {
    pub tree: T,
    pub description: String,
}

/// A commit to write, under a change ID of its own.
#[derive(Debug)]
pub struct NewCommit<T> {
    pub parent_ids: Vec<CommitId>,
    pub tree: T,
    pub description: String,
}

/// An entry as a value.
pub struct EntryView<T> {
    pub tree: T,
    pub description: Seq<char>,
}

/// A commit as a value.
#[verifier::ext_equal]
pub struct CommitView<T> {
    pub parent_ids: Seq<Seq<char>>,
    pub tree: T,
    pub description: Seq<char>,
}

/// The identifiers of a list.
pub open spec fn hex_ids(ids: Seq<CommitId>) -> Seq<Seq<char>> {
    ids.map_values(|id: CommitId| id@)
}

/// The entries of a list.
pub open spec fn entry_views<T>(entries: Seq<EvologEntry<T>>) -> Seq<EntryView<T>> {
    entries.map_values(|entry: EvologEntry<T>| entry@)
}

impl<T> View for EvologEntry<T> {
    type V = EntryView<T>;

    open spec fn view(&self) -> EntryView<T> {
        EntryView { tree: self.tree, description: self.description@ }
    }
}

impl<T> View for NewCommit<T> {
    type V = CommitView<T>;

    open spec fn view(&self) -> CommitView<T> {
        CommitView {
            parent_ids: hex_ids(self.parent_ids@),
            tree: self.tree,
            description: self.description@,
        }
    }
}

/// A chain that is being written: the next commit can be told.
#[derive(Debug)]
pub struct Explode<T> {
    entries: Vec<EvologEntry<T>>,
    parent_ids: Vec<CommitId>,
    num_commits: usize,
}

/// A chain that is being written: the last commit has no identifier yet.
#[derive(Debug)]
pub struct PendingExplode<T> {
    entries: Vec<EvologEntry<T>>,
    num_commits: usize,
}

/// A chain that is being written, as a value.
pub struct ExplodeView<T> {
    /// The entries that are still to be written, newest first.
    pub entries: Seq<EntryView<T>>,
    /// The parents of the next commit.
    pub parent_ids: Seq<Seq<char>>,
    /// The length of the whole chain.
    pub num_commits: nat,
}

/// A chain that waits for an identifier, as a value.
pub struct PendingView<T> {
    pub entries: Seq<EntryView<T>>,
    pub num_commits: nat,
}

impl<T> View for Explode<T> {
    type V = ExplodeView<T>;

    closed spec fn view(&self) -> ExplodeView<T> {
        ExplodeView {
            entries: entry_views(self.entries@),
            parent_ids: hex_ids(self.parent_ids@),
            num_commits: self.num_commits as nat,
        }
    }
}

impl<T> View for PendingExplode<T> {
    type V = PendingView<T>;

    closed spec fn view(&self) -> PendingView<T> {
        PendingView { entries: entry_views(self.entries@), num_commits: self.num_commits as nat }
    }
}

/// What to do next.
#[derive(Debug)]
pub enum ExplodeStep<T> {
    /// Write the commit, then go on with its identifier.
    Create(NewCommit<T>, PendingExplode<T>),
    /// The chain is complete: finish the transaction under this description.
    Finish(String),
}

/// What the transaction that wrote `num_commits` commits is called.
pub open spec fn transaction_description(num_commits: nat) -> Seq<char> {
    "explode "@ + decimal(num_commits) + " commit(s) from evolution history"@
}

impl<T> ExplodeView<T> {
    /// The chain as it starts, over the parents of the original commit and its evolution
    /// log, newest entry first.
    pub open spec fn started(parent_ids: Seq<Seq<char>>, entries: Seq<EntryView<T>>) -> Self {
        ExplodeView { entries, parent_ids, num_commits: entries.len() }
    }

    /// The commit to write next: the oldest entry that is left.
    pub open spec fn next_commit(self) -> CommitView<T> {
        CommitView {
            parent_ids: self.parent_ids,
            tree: self.entries.last().tree,
            description: self.entries.last().description,
        }
    }

    /// The chain after the next commit, before it has an identifier.
    pub open spec fn pending(self) -> PendingView<T> {
        PendingView { entries: self.entries.drop_last(), num_commits: self.num_commits }
    }
}

impl<T> PendingView<T> {
    /// The chain after the last commit was written as `id`.
    pub open spec fn created(self, id: Seq<char>) -> ExplodeView<T> {
        ExplodeView { entries: self.entries, parent_ids: seq![id], num_commits: self.num_commits }
    }
}

/// Refuses to explode the root commit.
pub fn check_explodable(commit_id: &CommitId, root_commit_id: &CommitId) -> (r: Result<
    (),
    UserError,
>)
    ensures
        match r {
            Ok(()) => commit_id@ != root_commit_id@,
            Err(err) => commit_id@ == root_commit_id@ && err@ == (UserErrorView {
                kind: UserErrorKind::User,
                error: ErrorView::Message("Cannot explode the root commit"@),
                hints: seq![],
            }),
        },
{
    if commit_id.same_as(root_commit_id) {
        Err(user_error("Cannot explode the root commit"))
    } else {
        Ok(())
    }
}

impl<T> Explode<T> {
    /// Starts the chain over the parents of the original commit, from its evolution log,
    /// newest entry first. There is nothing to do where the log has a single entry.
    pub fn start(parent_ids: Vec<CommitId>, entries: Vec<EvologEntry<T>>) -> (r: Option<Self>)
        ensures
            match r {
                Some(explode) => entries@.len() > 1 && explode@ == ExplodeView::started(
                    hex_ids(parent_ids@),
                    entry_views(entries@),
                ),
                None => entries@.len() <= 1,
            },
    {
        let num_commits: usize = entries.len();
        if num_commits <= 1 {
            None
        } else {
            Some(Explode { entries, parent_ids, num_commits })
        }
    }

    /// Tells what to do next.
    pub fn step(self) -> (r: ExplodeStep<T>)
        ensures
            match r {
                ExplodeStep::Create(commit, pending) => {
                    &&& self@.entries.len() > 0
                    &&& commit@ == self@.next_commit()
                    &&& pending@ == self@.pending()
                },
                ExplodeStep::Finish(description) => {
                    &&& self@.entries.len() == 0
                    &&& description@ == transaction_description(self@.num_commits)
                },
            },
    {
        let mut entries = self.entries;
        match entries.pop() {
            Some(entry) => {
                proof {
                    assert(self@.entries.last() == entry@);
                    assert(entry_views(entries@) =~= self@.entries.drop_last());
                }
                ExplodeStep::Create(
                    NewCommit {
                        parent_ids: self.parent_ids,
                        tree: entry.tree,
                        description: entry.description,
                    },
                    PendingExplode { entries, num_commits: self.num_commits },
                )
            },
            None => ExplodeStep::Finish(
                "explode ".to_string().concat(decimal_text(self.num_commits).as_str()).concat(
                    " commit(s) from evolution history",
                ),
            ),
        }
    }
}

impl<T> PendingExplode<T> {
    /// Goes on, after the last commit was written as `id`.
    pub fn created(self, id: CommitId) -> (r: Explode<T>)
        ensures
            r@ == self@.created(id@),
    {
        let mut parent_ids: Vec<CommitId> = Vec::new();
        parent_ids.push(id);
        assert(hex_ids(parent_ids@) =~= seq![id@]);
        Explode { entries: self.entries, parent_ids, num_commits: self.num_commits }
    }
}

/// The commits that are written from `explode` on, where the one after the other is given
/// the identifiers `ids`.
pub open spec fn written<T>(explode: ExplodeView<T>, ids: Seq<Seq<char>>) -> Seq<CommitView<T>>
    decreases explode.entries.len(),
{
    if explode.entries.len() == 0 {
        seq![]
    } else {
        seq![explode.next_commit()] + written(explode.pending().created(ids[0]), ids.drop_first())
    }
}

/// The chain that an evolution log, newest entry first, stands for: one commit per entry,
/// oldest first, each on top of the one before it.
pub open spec fn chain<T>(
    parent_ids: Seq<Seq<char>>,
    entries: Seq<EntryView<T>>,
    ids: Seq<Seq<char>>,
) -> Seq<CommitView<T>> {
    Seq::new(
        entries.len(),
        |k: int|
            CommitView {
                parent_ids: if k == 0 {
                    parent_ids
                } else {
                    seq![ids[k - 1]]
                },
                tree: entries[entries.len() - 1 - k].tree,
                description: entries[entries.len() - 1 - k].description,
            },
    )
}

/// Following the steps to the end writes the chain: one commit per entry of the log,
/// oldest to newest, with the tree and description of its entry, the first on the parents
/// of the original commit and each other one on the commit before it.
pub proof fn law_steps_write_the_chain<T>(explode: ExplodeView<T>, ids: Seq<Seq<char>>)
    requires
        ids.len() >= explode.entries.len(),
    ensures
        written(explode, ids) == chain(explode.parent_ids, explode.entries, ids),
    decreases explode.entries.len(),
{
    let n = explode.entries.len();
    if n > 0 {
        let rest = explode.pending().created(ids[0]);
        law_steps_write_the_chain(rest, ids.drop_first());
        let expected = chain(explode.parent_ids, explode.entries, ids);
        let tail = chain(rest.parent_ids, rest.entries, ids.drop_first());
        assert forall|k: int| 0 <= k < n implies #[trigger] (seq![explode.next_commit()] + tail)[k]
            == expected[k] by {
            if k > 0 {
                assert(tail[k - 1] == expected[k]);
            }
        }
        assert(seq![explode.next_commit()] + tail =~= expected);
    } else {
        assert(chain(explode.parent_ids, explode.entries, ids) =~= seq![]);
    }
}

/// The chain after all of its commits were written as `ids`.
pub open spec fn completed<T>(explode: ExplodeView<T>, ids: Seq<Seq<char>>) -> ExplodeView<T>
    decreases explode.entries.len(),
{
    if explode.entries.len() == 0 {
        explode
    } else {
        completed(explode.pending().created(ids[0]), ids.drop_first())
    }
}

/// Once a chain is complete, nothing is left to write, and the transaction is described by
/// the number of commits that were written.
pub proof fn law_description_counts_the_chain<T>(
    parent_ids: Seq<Seq<char>>,
    entries: Seq<EntryView<T>>,
    ids: Seq<Seq<char>>,
)
    requires
        ids.len() >= entries.len(),
    ensures
        ({
            let explode = ExplodeView::started(parent_ids, entries);
            &&& completed(explode, ids).entries.len() == 0
            &&& completed(explode, ids).num_commits == written(explode, ids).len()
        }),
{
    let explode = ExplodeView::started(parent_ids, entries);
    law_steps_write_the_chain(explode, ids);
    lemma_completed(explode, ids);
}

proof fn lemma_completed<T>(explode: ExplodeView<T>, ids: Seq<Seq<char>>)
    requires
        ids.len() >= explode.entries.len(),
    ensures
        completed(explode, ids).entries.len() == 0,
        completed(explode, ids).num_commits == explode.num_commits,
    decreases explode.entries.len(),
{
    if explode.entries.len() > 0 {
        lemma_completed(explode.pending().created(ids[0]), ids.drop_first());
    }
}

/// The commits of a repository after `commits` were written to it as `ids`, one after the
/// other.
pub open spec fn recorded<T>(
    repo: Map<Seq<char>, CommitView<T>>,
    commits: Seq<CommitView<T>>,
    ids: Seq<Seq<char>>,
) -> Map<Seq<char>, CommitView<T>>
    decreases commits.len(),
{
    if commits.len() == 0 {
        repo
    } else {
        recorded(repo.insert(ids[0], commits[0]), commits.drop_first(), ids.drop_first())
    }
}

/// New commits get identifiers that were not in use: no two the same.
pub open spec fn fresh<T>(repo: Map<Seq<char>, CommitView<T>>, ids: Seq<Seq<char>>) -> bool {
    &&& forall|k: int| 0 <= k < ids.len() ==> !repo.contains_key(#[trigger] ids[k])
    &&& forall|j: int, k: int| 0 <= j < k < ids.len() ==> ids[j] != ids[k]
}

/// Exploding leaves every commit that was there untouched, the original one included.
pub proof fn law_existing_commits_are_untouched<T>(
    repo: Map<Seq<char>, CommitView<T>>,
    explode: ExplodeView<T>,
    ids: Seq<Seq<char>>,
    id: Seq<char>,
)
    requires
        ids.len() == explode.entries.len(),
        fresh(repo, ids),
        repo.contains_key(id),
    ensures
        recorded(repo, written(explode, ids), ids).contains_key(id),
        recorded(repo, written(explode, ids), ids)[id] == repo[id],
{
    law_steps_write_the_chain(explode, ids);
    lemma_recorded(repo, written(explode, ids), ids);
}

/// Exploding adds the whole chain to the repository, and nothing but the chain.
pub proof fn law_chain_is_recorded<T>(
    repo: Map<Seq<char>, CommitView<T>>,
    explode: ExplodeView<T>,
    ids: Seq<Seq<char>>,
)
    requires
        ids.len() == explode.entries.len(),
        fresh(repo, ids),
    ensures
        ({
            let after = recorded(repo, written(explode, ids), ids);
            let commits = chain(explode.parent_ids, explode.entries, ids);
            &&& forall|k: int|
                0 <= k < ids.len() ==> after.contains_key(#[trigger] ids[k]) && after[ids[k]]
                    == commits[k]
            &&& forall|id: Seq<char>| #[trigger]
                after.contains_key(id) ==> repo.contains_key(id) || ids.contains(id)
        }),
{
    law_steps_write_the_chain(explode, ids);
    lemma_recorded(repo, written(explode, ids), ids);
}

proof fn lemma_recorded<T>(
    repo: Map<Seq<char>, CommitView<T>>,
    commits: Seq<CommitView<T>>,
    ids: Seq<Seq<char>>,
)
    requires
        ids.len() == commits.len(),
        fresh(repo, ids),
    ensures
        ({
            let after = recorded(repo, commits, ids);
            &&& forall|id: Seq<char>|
                repo.contains_key(id) ==> #[trigger] after.contains_key(id) && after[id] == repo[id]
            &&& forall|k: int|
                0 <= k < ids.len() ==> after.contains_key(#[trigger] ids[k]) && after[ids[k]]
                    == commits[k]
            &&& forall|id: Seq<char>| #[trigger]
                after.contains_key(id) ==> repo.contains_key(id) || ids.contains(id)
        }),
    decreases commits.len(),
{
    if commits.len() > 0 {
        let next = repo.insert(ids[0], commits[0]);
        let rest = ids.drop_first();
        let after = recorded(repo, commits, ids);
        assert forall|k: int| 0 <= k < rest.len() implies !next.contains_key(#[trigger] rest[k]) by {
            assert(rest[k] == ids[k + 1]);
        }
        assert forall|j: int, k: int| 0 <= j < k < rest.len() implies rest[j] != rest[k] by {
            assert(rest[j] == ids[j + 1] && rest[k] == ids[k + 1]);
        }
        lemma_recorded(next, commits.drop_first(), rest);
        assert(after == recorded(next, commits.drop_first(), rest));
        assert forall|k: int| 0 <= k < ids.len() implies after.contains_key(#[trigger] ids[k])
            && after[ids[k]] == commits[k] by {
            if k == 0 {
                assert(next.contains_key(ids[0]));
            } else {
                assert(rest[k - 1] == ids[k]);
                assert(commits.drop_first()[k - 1] == commits[k]);
            }
        }
        assert forall|id: Seq<char>| #[trigger] after.contains_key(id) implies repo.contains_key(id)
            || ids.contains(id) by {
            if rest.contains(id) {
                let k = choose|k: int| 0 <= k < rest.len() && rest[k] == id;
                assert(ids[k + 1] == id);
            } else {
                assert(next.contains_key(id));
                assert(repo.contains_key(id) || ids[0] == id);
            }
        }
    }
}

} // verus!
