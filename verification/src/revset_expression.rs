//! Revset expressions: descriptions of sets of commits.

use std::sync::Arc;

use vstd::prelude::*;

verus! {

/// A revset expression as written by the user, over parsed expressions of type `P`.
#[derive(Debug)]
pub enum UserRevsetExpression<P> {
    /// The root commit.
    Root,
    Parsed(P),
    /// The commits of an expression and all their ancestors.
    Ancestors(Arc<UserRevsetExpression<P>>),
}

impl<P> UserRevsetExpression<P> {
    pub fn root() -> (r: Arc<Self>)
        ensures
            *r == UserRevsetExpression::<P>::Root,
    {
        Arc::new(UserRevsetExpression::Root)
    }

    /// The commits of `heads` and all their ancestors.
    pub fn ancestors(heads: &Arc<Self>) -> (r: Arc<Self>)
        ensures
            *r == UserRevsetExpression::Ancestors(*heads),
    {
        Arc::new(UserRevsetExpression::Ancestors(heads.clone()))
    }
}

/// A revset expression whose symbols are resolved, over resolved expressions of type `R`.
#[derive(Debug)]
pub enum ResolvedRevsetExpression<R> {
    Resolved(R),
    /// The commits that both expressions hold.
    Intersection(Arc<ResolvedRevsetExpression<R>>, Arc<ResolvedRevsetExpression<R>>),
}

impl<R> ResolvedRevsetExpression<R> {
    /// The commits that both expressions hold.
    pub fn intersection(left: &Arc<Self>, right: &Arc<Self>) -> (r: Arc<Self>)
        ensures
            *r == ResolvedRevsetExpression::Intersection(*left, *right),
    {
        Arc::new(ResolvedRevsetExpression::Intersection(left.clone(), right.clone()))
    }
}

/// Commits by identifier, each with its parents, and the root among them.
pub struct CommitGraph {
    pub parents: Map<Seq<char>, Set<Seq<char>>>,
    pub root: Seq<char>,
}

impl CommitGraph {
    /// `parent` is a parent of `commit`.
    pub open spec fn is_parent(self, parent: Seq<char>, commit: Seq<char>) -> bool {
        self.parents.contains_key(commit) && self.parents[commit].contains(parent)
    }

    /// `path` leads from `commit` to `ancestor`, from each commit to one of its parents.
    pub open spec fn is_path(
        self,
        path: Seq<Seq<char>>,
        commit: Seq<char>,
        ancestor: Seq<char>,
    ) -> bool {
        &&& path.len() > 0
        &&& path[0] == commit
        &&& path.last() == ancestor
        &&& forall|i: int|
            0 <= i < path.len() - 1 ==> self.is_parent(path[i + 1], #[trigger] path[i])
    }

    /// `ancestor` is `commit` or can be reached from it over parents.
    pub open spec fn is_ancestor(self, ancestor: Seq<char>, commit: Seq<char>) -> bool {
        exists|path: Seq<Seq<char>>| self.is_path(path, commit, ancestor)
    }

    /// Every commit descends from the root.
    pub open spec fn is_rooted(self) -> bool {
        forall|commit: Seq<char>|
            self.parents.contains_key(commit) ==> #[trigger] self.is_ancestor(self.root, commit)
    }
}

/// The commits of `graph` that `expression` describes, where parsed expressions describe
/// `parsed`.
pub open spec fn described<P>(
    graph: CommitGraph,
    parsed: spec_fn(P) -> Set<Seq<char>>,
    expression: UserRevsetExpression<P>,
) -> Set<Seq<char>>
    decreases expression,
{
    match expression {
        UserRevsetExpression::Root => set![graph.root],
        UserRevsetExpression::Parsed(p) => parsed(p),
        UserRevsetExpression::Ancestors(heads) => Set::new(
            |ancestor: Seq<char>|
                exists|head: Seq<char>|
                    {
                        &&& described(graph, parsed, *heads).contains(head)
                        &&& #[trigger] graph.is_ancestor(ancestor, head)
                    },
        ),
    }
}

/// The commits that `expression` holds, where resolved expressions hold `resolved`.
pub open spec fn selected<R>(
    resolved: spec_fn(R) -> Set<Seq<char>>,
    expression: ResolvedRevsetExpression<R>,
) -> Set<Seq<char>>
    decreases expression,
{
    match expression {
        ResolvedRevsetExpression::Resolved(r) => resolved(r),
        ResolvedRevsetExpression::Intersection(left, right) => selected(resolved, *left).intersect(
            selected(resolved, *right),
        ),
    }
}

/// The ancestors of some commits include these commits.
pub proof fn law_ancestors_include_heads<P>(
    graph: CommitGraph,
    parsed: spec_fn(P) -> Set<Seq<char>>,
    heads: Arc<UserRevsetExpression<P>>,
    head: Seq<char>,
)
    requires
        described(graph, parsed, *heads).contains(head),
    ensures
        described(graph, parsed, UserRevsetExpression::Ancestors(heads)).contains(head),
{
    assert(graph.is_path(seq![head], head, head));
    assert(graph.is_ancestor(head, head));
}

/// The parents of an ancestor are ancestors.
pub proof fn law_ancestors_include_parents<P>(
    graph: CommitGraph,
    parsed: spec_fn(P) -> Set<Seq<char>>,
    heads: Arc<UserRevsetExpression<P>>,
    commit: Seq<char>,
    parent: Seq<char>,
)
    requires
        described(graph, parsed, UserRevsetExpression::Ancestors(heads)).contains(commit),
        graph.is_parent(parent, commit),
    ensures
        described(graph, parsed, UserRevsetExpression::Ancestors(heads)).contains(parent),
{
    let head = choose|head: Seq<char>|
        {
            &&& described(graph, parsed, *heads).contains(head)
            &&& #[trigger] graph.is_ancestor(commit, head)
        };
    let path = choose|path: Seq<Seq<char>>| graph.is_path(path, head, commit);
    let longer = path.push(parent);
    assert forall|i: int| 0 <= i < longer.len() - 1 implies graph.is_parent(
        longer[i + 1],
        #[trigger] longer[i],
    ) by {
        assert(longer[i] == path[i]);
        if i < path.len() - 1 {
            assert(longer[i + 1] == path[i + 1]);
        }
    }
    assert(graph.is_path(longer, head, parent));
    assert(graph.is_ancestor(parent, head));
}

} // verus!
