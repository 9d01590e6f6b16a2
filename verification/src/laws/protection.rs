//! Laws on reloading the revset expressions of an environment, and on the search for
//! commits that it protects.

use std::sync::Arc;

use vstd::prelude::*;

use crate::error_model::{
    AnyError, ConfigGetError, Reported, RevsetEvaluationError, RevsetParseError,
    RevsetResolutionError,
};
use crate::ids::CommitId;
use crate::laws::environment::same_but_for_time;
use crate::laws::errors::{
    lemma_hints, lemma_same_to_the_user, same_to_the_user, shown_as_is, shown_under,
};
use crate::laws::presenting::is_shown;
use crate::local_time::LocalTime;
use crate::revset_expression::{CommitGraph, ResolvedRevsetExpression, UserRevsetExpression};
use crate::user_error::{UserError, UserErrorKind};
use crate::workspace_util::{
    first_commit_outcome, EnvironmentView, IdPrefixContext, RevsetParseContext,
    WorkspaceEnvironment,
};

verus! {

/// `now` is the time to which the environment's dates are relative: the machine's local time
/// at the configured point, or a reading of its clock where none is configured.
pub open spec fn is_current<P, X>(now: LocalTime, env: EnvironmentView<P, X>) -> bool {
    match env.settings.commit_timestamp {
        Some(t) => now.is_local_time_at(t.timestamp.0),
        None => now.is_clock_reading(),
    }
}

/// The text that decides on short prefixes: that which is configured for them, or that for
/// the log where none is.
pub open spec fn deciding_text(
    config: spec_fn(Seq<char>) -> Result<String, Reported<ConfigGetError>>,
) -> Result<String, Reported<ConfigGetError>> {
    match config("revsets.short-prefixes"@) {
        Err(err) => match err.error {
            ConfigGetError::NotFound => config("revsets.log"@),
            ConfigGetError::Type { source_path } => Err(err),
        },
        Ok(text) => Ok(text),
    }
}

/// A reload parses the immutable heads, then, where a text that is not empty decides on
/// short prefixes, that text. Each is parsed once, with its own diagnostics, in a context of
/// the environment at the current time. What parses is kept, and nothing else of the
/// environment changes. What does not parse is an error in the configuration, and ends the
/// reload: the expressions that come after it stay as they were, and so do their diagnostics.
///
/// Here `known` is a context of the environment. In a context that differs from it in the
/// time alone, the parsers answer what `heads_of` and `parsed` say for that time.
pub proof fn law_reload_keeps_what_parses<P, X, H, G, F, D>(
    env: &mut WorkspaceEnvironment<P, X>,
    heads_diagnostics: &mut D,
    prefixes_diagnostics: &mut D,
    parse_heads: H,
    get_string: G,
    parse: F,
    r: Result<(), UserError>,
    heads_of: spec_fn(D, LocalTime) -> (
        Result<Arc<UserRevsetExpression<P>>, Reported<RevsetParseError>>,
        D,
    ),
    parsed: spec_fn(D, Seq<char>, LocalTime) -> (
        Result<Arc<UserRevsetExpression<P>>, Reported<RevsetParseError>>,
        D,
    ),
    config: spec_fn(Seq<char>) -> Result<String, Reported<ConfigGetError>>,
    now: LocalTime,
    known: RevsetParseContext<'_, P, X>,
    shown: UserError,
) where
    H: FnOnce(&mut D, &RevsetParseContext<'_, P, X>) -> Result<
        Arc<UserRevsetExpression<P>>,
        Reported<RevsetParseError>,
    >,
    G: Fn(&str) -> Result<String, Reported<ConfigGetError>>,
    F: FnOnce(&mut D, &str, &RevsetParseContext<'_, P, X>) -> Result<
        Arc<UserRevsetExpression<P>>,
        Reported<RevsetParseError>,
    >,

    requires
        call_ensures(
            WorkspaceEnvironment::<P, X>::reload_revset_expressions::<H, G, F, D>,
            (env, heads_diagnostics, prefixes_diagnostics, parse_heads, get_string, parse),
            r,
        ),
        call_ensures(
            WorkspaceEnvironment::<P, X>::revset_parse_context_at,
            (&*env, now),
            known,
        ),
        forall|
            d: &mut D,
            context: &RevsetParseContext<'_, P, X>,
            outcome: Result<Arc<UserRevsetExpression<P>>, Reported<RevsetParseError>>,
        | #[trigger]
            call_ensures(parse_heads, (d, context), outcome) && same_but_for_time(*context, known)
                ==> heads_of(*d, context.date_pattern_context.now) == (outcome, *final(d)),
        forall|
            d: &mut D,
            revset: &str,
            context: &RevsetParseContext<'_, P, X>,
            outcome: Result<Arc<UserRevsetExpression<P>>, Reported<RevsetParseError>>,
        | #[trigger]
            call_ensures(parse, (d, revset, context), outcome) && same_but_for_time(
                *context,
                known,
            ) ==> parsed(*d, revset@, context.date_pattern_context.now) == (outcome, *final(d)),
        forall|name: &str, outcome: Result<String, Reported<ConfigGetError>>| #[trigger]
            call_ensures(get_string, (name,), outcome) ==> config(name@) == outcome,
    ensures
        exists|first: LocalTime, second: LocalTime|
            {
                &&& #[trigger] is_current(first, old(env)@)
                &&& #[trigger] is_current(second, old(env)@)
                &&& *final(heads_diagnostics) == heads_of(*old(heads_diagnostics), first).1
                &&& match heads_of(*old(heads_diagnostics), first).0 {
                    Err(cause) => {
                        &&& r matches Err(err)
                        &&& shown_under(
                            err,
                            UserErrorKind::Config,
                            "Invalid `revset-aliases.immutable_heads()`"@,
                            AnyError::RevsetParse(cause),
                        )
                        &&& err.hints@.len() == 0
                        &&& final(env)@ == old(env)@
                        &&& *final(prefixes_diagnostics) == *old(prefixes_diagnostics)
                    },
                    Ok(heads) => {
                        &&& final(env)@ == (EnvironmentView {
                            immutable_heads_expression: heads,
                            short_prefixes_expression: final(env)@.short_prefixes_expression,
                            ..old(env)@
                        })
                        &&& r is Err ==> final(env)@.short_prefixes_expression
                            == old(env)@.short_prefixes_expression
                        &&& match deciding_text(config) {
                            Err(cause) => {
                                &&& r matches Err(err)
                                &&& is_shown(cause, shown) ==> same_to_the_user(err, shown)
                                &&& *final(prefixes_diagnostics) == *old(prefixes_diagnostics)
                            },
                            Ok(text) => if text@.len() == 0 {
                                &&& r is Ok
                                &&& final(env)@.short_prefixes_expression is None
                                &&& *final(prefixes_diagnostics) == *old(prefixes_diagnostics)
                            } else {
                                &&& *final(prefixes_diagnostics) == parsed(
                                    *old(prefixes_diagnostics),
                                    text@,
                                    second,
                                ).1
                                &&& match parsed(*old(prefixes_diagnostics), text@, second).0 {
                                    Err(cause) => {
                                        &&& r matches Err(err)
                                        &&& shown_under(
                                            err,
                                            UserErrorKind::Config,
                                            "Invalid `revsets.short-prefixes`"@,
                                            AnyError::RevsetParse(cause),
                                        )
                                        &&& err.hints@.len() == 0
                                    },
                                    Ok(expression) => {
                                        &&& r is Ok
                                        &&& final(env)@.short_prefixes_expression == Some(
                                            expression,
                                        )
                                    },
                                }
                            },
                        }
                    },
                }
            },
{
    if let Err(err) = r {
        lemma_hints(err);
        if err@ == shown@ {
            lemma_same_to_the_user(err, shown);
        }
    }
    assert forall|context: &RevsetParseContext<'_, P, X>| #[trigger]
        env@.may_parse_in(*context) implies is_current(context.date_pattern_context.now, env@)
        && same_but_for_time(*context, known) by {}
}

/// What the environment holds is what it hands out: the immutable heads, and the commits
/// within which prefixes need to be unique.
pub proof fn law_expressions_are_handed_out<P, X>(
    env: &WorkspaceEnvironment<P, X>,
    heads: &Arc<UserRevsetExpression<P>>,
    prefixes: IdPrefixContext<P, X>,
)
    requires
        call_ensures(WorkspaceEnvironment::<P, X>::immutable_heads_expression, (env,), heads),
        call_ensures(WorkspaceEnvironment::<P, X>::new_id_prefix_context, (env,), prefixes),
    ensures
        *heads == env@.immutable_heads_expression,
        prefixes.disambiguation == env@.short_prefixes_expression,
{
}

/// `commit` must not be rewritten: it is an immutable head or an ancestor of one. Where
/// immutable commits are ignored, it is the root.
pub open spec fn is_protected(
    graph: CommitGraph,
    heads: Set<Seq<char>>,
    ignore_immutable: bool,
    commit: Seq<char>,
) -> bool {
    if ignore_immutable {
        commit == graph.root
    } else {
        exists|head: Seq<char>|
            heads.contains(head) && #[trigger] graph.is_ancestor(commit, head)
    }
}

/// Whatever the environment, the search finds only commits that are to be rewritten and
/// must not be, and misses none: where it comes back without one, no commit is both.
///
/// Here `meaning` tells the commits of an expression: for the root the root alone, for
/// ancestors every commit from which one of the heads descends. `holds` tells those of a
/// resolved expression: for an intersection the ones that both sides hold. Resolving keeps
/// the meaning, and evaluating gives a commit that the expression holds, or none where it
/// holds none.
pub proof fn law_search_misses_no_protected_commit<P, X, R, F, G>(
    env: &WorkspaceEnvironment<P, X>,
    heads: &Arc<UserRevsetExpression<P>>,
    extensions: &Arc<X>,
    resolve: F,
    first: G,
    to_rewrite: &Arc<ResolvedRevsetExpression<R>>,
    ignore_immutable: bool,
    outcome: Result<Option<CommitId>, UserError>,
    graph: CommitGraph,
    meaning: spec_fn(UserRevsetExpression<P>) -> Set<Seq<char>>,
    holds: spec_fn(ResolvedRevsetExpression<R>) -> Set<Seq<char>>,
) where
    F: FnOnce(&IdPrefixContext<P, X>, Arc<UserRevsetExpression<P>>) -> Result<
        Arc<ResolvedRevsetExpression<R>>,
        Reported<RevsetResolutionError>,
    >,
    G: FnOnce(Arc<ResolvedRevsetExpression<R>>) -> Result<
        Option<Result<CommitId, Reported<RevsetEvaluationError>>>,
        Reported<RevsetEvaluationError>,
    >,

    requires
        call_ensures(
            WorkspaceEnvironment::<P, X>::find_immutable_commit::<R, F, G>,
            (env, resolve, first, to_rewrite, ignore_immutable),
            outcome,
        ),
        call_ensures(WorkspaceEnvironment::<P, X>::immutable_heads_expression, (env,), heads),
        call_ensures(WorkspaceEnvironment::<P, X>::revset_extensions, (env,), extensions),
        meaning(UserRevsetExpression::Root) == set![graph.root],
        forall|h: Arc<UserRevsetExpression<P>>, commit: Seq<char>| #[trigger]
            meaning(UserRevsetExpression::Ancestors(h)).contains(commit) <==> is_protected(
                graph,
                meaning(*h),
                false,
                commit,
            ),
        forall|
            a: Arc<ResolvedRevsetExpression<R>>,
            b: Arc<ResolvedRevsetExpression<R>>,
            commit: Seq<char>,
        | #[trigger]
            holds(ResolvedRevsetExpression::Intersection(a, b)).contains(commit) <==> holds(
                *a,
            ).contains(commit) && holds(*b).contains(commit),
        // Prefixes of identifiers are resolved against all commits
        forall|
            context: &IdPrefixContext<P, X>,
            expression: Arc<UserRevsetExpression<P>>,
            resolved: Arc<ResolvedRevsetExpression<R>>,
        | #[trigger]
            call_ensures(resolve, (context, expression), Ok(resolved)) && context.extensions
                == *extensions && context.disambiguation is None ==> holds(*resolved) == meaning(
                *expression,
            ),
        forall|
            expression: Arc<ResolvedRevsetExpression<R>>,
            found: Option<Result<CommitId, Reported<RevsetEvaluationError>>>,
        | #[trigger]
            call_ensures(first, (expression,), Ok(found)) ==> match found {
                Some(Ok(commit_id)) => holds(*expression).contains(commit_id.hex@),
                Some(Err(_)) => true,
                None => forall|commit: Seq<char>| !(#[trigger] holds(*expression).contains(commit)),
            },
    ensures
        outcome matches Ok(Some(commit_id)) ==> {
            &&& is_protected(graph, meaning(**heads), ignore_immutable, commit_id.hex@)
            &&& holds(**to_rewrite).contains(commit_id.hex@)
        },
        outcome matches Ok(None) ==> forall|commit: Seq<char>| #[trigger]
            holds(**to_rewrite).contains(commit) ==> !is_protected(
                graph,
                meaning(**heads),
                ignore_immutable,
                commit,
            ),
{
    let commits = set![graph.root];
    assert(forall|commit: Seq<char>| commits.contains(commit) <==> commit == graph.root);
    if let Ok(None) = outcome {
        assert forall|commit: Seq<char>| #[trigger]
            holds(**to_rewrite).contains(commit) implies !is_protected(
            graph,
            meaning(**heads),
            ignore_immutable,
            commit,
        ) by {
            assert(meaning(env@.protected(ignore_immutable)).contains(commit) == is_protected(
                graph,
                meaning(**heads),
                ignore_immutable,
                commit,
            ));
            assert forall|immutable: Arc<ResolvedRevsetExpression<R>>|
                #[trigger] first_commit_outcome(
                    first,
                    Arc::new(ResolvedRevsetExpression::Intersection(immutable, *to_rewrite)),
                    outcome,
                ) implies !holds(*immutable).contains(commit) by {
                assert(!holds(
                    ResolvedRevsetExpression::Intersection(immutable, *to_rewrite),
                ).contains(commit));
            }
        }
    }
}

/// A search that fails tells why: the definition of the immutable heads is at fault where it
/// cannot be resolved, and an evaluation that fails is shown as it is.
pub proof fn law_failed_search_tells_why<P, X, R, F, G>(
    env: &WorkspaceEnvironment<P, X>,
    resolve: F,
    first: G,
    to_rewrite: &Arc<ResolvedRevsetExpression<R>>,
    ignore_immutable: bool,
    err: UserError,
) where
    F: FnOnce(&IdPrefixContext<P, X>, Arc<UserRevsetExpression<P>>) -> Result<
        Arc<ResolvedRevsetExpression<R>>,
        Reported<RevsetResolutionError>,
    >,
    G: FnOnce(Arc<ResolvedRevsetExpression<R>>) -> Result<
        Option<Result<CommitId, Reported<RevsetEvaluationError>>>,
        Reported<RevsetEvaluationError>,
    >,

    requires
        call_ensures(
            WorkspaceEnvironment::<P, X>::find_immutable_commit::<R, F, G>,
            (env, resolve, first, to_rewrite, ignore_immutable),
            Err(err),
        ),
    ensures
        err.hints@.len() == 0,
        (exists|
            context: &IdPrefixContext<P, X>,
            expression: Arc<UserRevsetExpression<P>>,
            cause: Reported<RevsetResolutionError>,
        |
            #[trigger] call_ensures(resolve, (context, expression), Err(cause)) && shown_under(
                err,
                UserErrorKind::Config,
                "Invalid `revset-aliases.immutable_heads()`"@,
                AnyError::RevsetResolution(cause),
            )) || (exists|
            expression: Arc<ResolvedRevsetExpression<R>>,
            cause: Reported<RevsetEvaluationError>,
        |
            #[trigger] call_ensures(first, (expression,), Err(cause)) && shown_as_is(
                err,
                UserErrorKind::User,
                AnyError::Plain(cause.report),
            )) || (exists|
            expression: Arc<ResolvedRevsetExpression<R>>,
            cause: Reported<RevsetEvaluationError>,
        |
            #[trigger] call_ensures(first, (expression,), Ok(Some(Err(cause)))) && shown_as_is(
                err,
                UserErrorKind::User,
                AnyError::Plain(cause.report),
            )),
{
    lemma_hints(err);
}

} // verus!
