//! Laws on the environment of a workspace: what it is loaded from, and what it hands to
//! parsers.

use std::sync::Arc;

use vstd::prelude::*;

use crate::error_model::{ConfigGetError, Reported};
use crate::laws::errors::{lemma_same_to_the_user, same_to_the_user};
use crate::laws::presenting::is_shown;
use crate::local_time::{LocalTime, MAX_MILLIS, MIN_MILLIS};
use crate::revset_expression::{ResolvedRevsetExpression, UserRevsetExpression};
use crate::user_error::UserError;
use crate::workspace_util::{
    default_ignored_remote_name, load_fileset_aliases, load_revset_aliases, AliasesMap,
    ConflictMarkerStyle, FilesetAliasesMap, FilesetParseContext, FsPath,
    IdPrefixContext, PathConverterRef, RepoPathUiConverter, RevsetAliasesMap, RevsetParseContext,
    Store, UserSettings, Workspace, WorkspaceEnvironment,
};

verus! {

/// Aliases come from their tables, and the built-in aliases that the user redefined are
/// reported of the revset table, after it was read and only if it was.
pub proof fn law_aliases_come_from_their_tables<L, W, D>(
    load: L,
    redefined: W,
    warn: &mut D,
    other: &mut D,
    filesets: Result<FilesetAliasesMap, UserError>,
    revsets: Result<RevsetAliasesMap, UserError>,
    read_filesets: spec_fn(D) -> (Result<AliasesMap, UserError>, D),
    read_revsets: spec_fn(D) -> (Result<AliasesMap, UserError>, D),
    report: spec_fn(D) -> (Result<(), UserError>, D),
) where
    L: Fn(&str, &mut D) -> Result<AliasesMap, UserError>,
    W: FnOnce(&str, &mut D) -> Result<(), UserError>,

    requires
        call_ensures(load_fileset_aliases::<L, D>, (load, warn), filesets),
        call_ensures(load_revset_aliases::<L, W, D>, (load, redefined, other), revsets),
        forall|w: &mut D, outcome: Result<AliasesMap, UserError>| #[trigger]
            call_ensures(load, ("fileset-aliases", w), outcome) ==> read_filesets(*w) == (
                outcome,
                *final(w),
            ),
        forall|w: &mut D, outcome: Result<AliasesMap, UserError>| #[trigger]
            call_ensures(load, ("revset-aliases", w), outcome) ==> read_revsets(*w) == (
                outcome,
                *final(w),
            ),
        forall|w: &mut D, outcome: Result<(), UserError>| #[trigger]
            call_ensures(redefined, ("revset-aliases", w), outcome) ==> report(*w) == (
                outcome,
                *final(w),
            ),
    ensures
        (filesets, *final(warn)) == read_filesets(*old(warn)),
        ({
            let (map, read) = read_revsets(*old(other));
            match map {
                Err(err) => revsets == Err::<RevsetAliasesMap, UserError>(err) && *final(other)
                    == read,
                Ok(map) => {
                    &&& *final(other) == report(read).1
                    &&& match report(read).0 {
                        Err(err) => revsets == Err::<RevsetAliasesMap, UserError>(err),
                        Ok(()) => revsets == Ok::<RevsetAliasesMap, UserError>(map),
                    }
                },
            }
        }),
{
}

/// Loading an environment reads the fileset aliases, then the revset aliases, then reports
/// the redefined ones, then reads the two single values. The first of these that fails is
/// what the loading fails with; the warnings are those of the steps that were taken, in
/// that order; and where none fails there is an environment.
pub proof fn law_loading_takes_its_steps_in_order<P, X, L, W, B, S, D>(
    workspace: &Workspace,
    cwd: FsPath,
    extensions: Arc<X>,
    load: L,
    redefined: W,
    get_bool: B,
    get_style: S,
    warn: &mut D,
    r: Result<WorkspaceEnvironment<P, X>, UserError>,
    read_filesets: spec_fn(D) -> (Result<AliasesMap, UserError>, D),
    read_revsets: spec_fn(D) -> (Result<AliasesMap, UserError>, D),
    report: spec_fn(D) -> (Result<(), UserError>, D),
    glob: Result<bool, Reported<ConfigGetError>>,
    style: Result<ConflictMarkerStyle, Reported<ConfigGetError>>,
    shown: UserError,
) where
    L: Fn(&str, &mut D) -> Result<AliasesMap, UserError>,
    W: FnOnce(&str, &mut D) -> Result<(), UserError>,
    B: FnOnce(&str) -> Result<bool, Reported<ConfigGetError>>,
    S: FnOnce(&str) -> Result<ConflictMarkerStyle, Reported<ConfigGetError>>,

    requires
        call_ensures(
            WorkspaceEnvironment::<P, X>::new::<L, W, B, S, D>,
            (workspace, cwd, extensions, load, redefined, get_bool, get_style, warn),
            r,
        ),
        forall|w: &mut D, outcome: Result<AliasesMap, UserError>| #[trigger]
            call_ensures(load, ("fileset-aliases", w), outcome) ==> read_filesets(*w) == (
                outcome,
                *final(w),
            ),
        forall|w: &mut D, outcome: Result<AliasesMap, UserError>| #[trigger]
            call_ensures(load, ("revset-aliases", w), outcome) ==> read_revsets(*w) == (
                outcome,
                *final(w),
            ),
        forall|w: &mut D, outcome: Result<(), UserError>| #[trigger]
            call_ensures(redefined, ("revset-aliases", w), outcome) ==> report(*w) == (
                outcome,
                *final(w),
            ),
        forall|v: Result<bool, Reported<ConfigGetError>>| #[trigger]
            call_ensures(get_bool, ("ui.revsets-use-glob-by-default",), v) ==> v == glob,
        forall|v: Result<ConflictMarkerStyle, Reported<ConfigGetError>>| #[trigger]
            call_ensures(get_style, ("ui.conflict-marker-style",), v) ==> v == style,
    ensures
        ({
            let (filesets, first) = read_filesets(*old(warn));
            let (revsets, second) = read_revsets(first);
            let (reported, third) = report(second);
            if filesets is Err {
                &&& r matches Err(err)
                &&& err == filesets->Err_0
                &&& *final(warn) == first
            } else if revsets is Err {
                &&& r matches Err(err)
                &&& err == revsets->Err_0
                &&& *final(warn) == second
            } else {
                &&& *final(warn) == third
                &&& if reported is Err {
                    r matches Err(err) && err == reported->Err_0
                } else if glob is Err {
                    r matches Err(err) && (is_shown(glob->Err_0, shown) ==> same_to_the_user(
                        err,
                        shown,
                    ))
                } else if style is Err {
                    r matches Err(err) && (is_shown(style->Err_0, shown) ==> same_to_the_user(
                        err,
                        shown,
                    ))
                } else {
                    r is Ok
                }
            }
        }),
{
    if let Err(err) = r {
        if err@ == shown@ {
            lemma_same_to_the_user(err, shown);
        }
    }
}

/// An environment is loaded from its workspace and its configuration, value by value: each
/// alias table, each single value and each field of the workspace is found again where it
/// is used. Nothing is immutable yet but the root, and no prefixes are short.
pub proof fn law_environment_holds_what_was_loaded<P, X, L, W, B, S, D>(
    workspace: &Workspace,
    cwd: FsPath,
    extensions: Arc<X>,
    load: L,
    redefined: W,
    get_bool: B,
    get_style: S,
    warn: &mut D,
    env: WorkspaceEnvironment<P, X>,
    read_filesets: spec_fn(D) -> (Result<AliasesMap, UserError>, D),
    read_revsets: spec_fn(D) -> (Result<AliasesMap, UserError>, D),
    glob: bool,
    style: ConflictMarkerStyle,
    now: LocalTime,
    context: RevsetParseContext<'_, P, X>,
    current: RevsetParseContext<'_, P, X>,
    filesets: FilesetParseContext<'_>,
    heads: &Arc<UserRevsetExpression<P>>,
    prefixes: IdPrefixContext<P, X>,
    in_calendar: bool,
) where
    L: Fn(&str, &mut D) -> Result<AliasesMap, UserError>,
    W: FnOnce(&str, &mut D) -> Result<(), UserError>,
    B: FnOnce(&str) -> Result<bool, Reported<ConfigGetError>>,
    S: FnOnce(&str) -> Result<ConflictMarkerStyle, Reported<ConfigGetError>>,

    requires
        call_ensures(
            WorkspaceEnvironment::<P, X>::new::<L, W, B, S, D>,
            (workspace, cwd, extensions, load, redefined, get_bool, get_style, warn),
            Ok(env),
        ),
        forall|w: &mut D, outcome: Result<AliasesMap, UserError>| #[trigger]
            call_ensures(load, ("fileset-aliases", w), outcome) ==> read_filesets(*w) == (
                outcome,
                *final(w),
            ),
        forall|w: &mut D, outcome: Result<AliasesMap, UserError>| #[trigger]
            call_ensures(load, ("revset-aliases", w), outcome) ==> read_revsets(*w) == (
                outcome,
                *final(w),
            ),
        forall|v: bool| #[trigger]
            call_ensures(get_bool, ("ui.revsets-use-glob-by-default",), Ok(v)) ==> v == glob,
        forall|v: ConflictMarkerStyle| #[trigger]
            call_ensures(get_style, ("ui.conflict-marker-style",), Ok(v)) ==> v == style,
        call_ensures(
            WorkspaceEnvironment::<P, X>::revset_parse_context_at,
            (&env, now),
            context,
        ),
        call_ensures(WorkspaceEnvironment::<P, X>::revset_parse_context, (&env,), current),
        call_ensures(WorkspaceEnvironment::<P, X>::fileset_parse_context, (&env,), filesets),
        call_ensures(WorkspaceEnvironment::<P, X>::immutable_heads_expression, (&env,), heads),
        call_ensures(WorkspaceEnvironment::<P, X>::new_id_prefix_context, (&env,), prefixes),
        call_ensures(WorkspaceEnvironment::<P, X>::in_calendar, (&env,), in_calendar),
    ensures
        env.conflict_marker_style == style,
        env.workspace_name@ == workspace.workspace_name@,
        env.path_converter matches RepoPathUiConverter::Fs { cwd: c, base: b } && c.bytes@
            == cwd.bytes@ && b.bytes@ == workspace.workspace_root.bytes@,
        context.use_glob_by_default == glob,
        context.user_email@ == workspace.settings.user_email@,
        match context.default_ignored_remote {
            Some(name) => workspace.store.git_backend && name@ == "git"@,
            None => !workspace.store.git_backend,
        },
        *context.extensions == extensions,
        Ok::<AliasesMap, UserError>(*context.fileset_aliases_map) == read_filesets(*old(warn)).0,
        Ok::<AliasesMap, UserError>(*filesets.aliases_map) == read_filesets(*old(warn)).0,
        Ok::<AliasesMap, UserError>(*context.aliases_map) == read_revsets(
            read_filesets(*old(warn)).1,
        ).0,
        **heads == UserRevsetExpression::<P>::Root,
        prefixes.disambiguation is None,
        prefixes.extensions == extensions,
        match workspace.settings.commit_timestamp {
            Some(t) => {
                &&& in_calendar <==> MIN_MILLIS <= t.timestamp.0 <= MAX_MILLIS
                &&& current.date_pattern_context.now.is_local_time_at(t.timestamp.0)
            },
            None => in_calendar && current.date_pattern_context.now.is_clock_reading(),
        },
{
}

/// The local repository of a Git store is the remote to ignore, and there is none in any
/// other store.
pub proof fn law_ignored_remote(store: &Store, r: Option<&'static str>)
    requires
        call_ensures(default_ignored_remote_name, (store,), r),
    ensures
        match r {
            Some(name) => store.git_backend && name@ == "git"@,
            None => !store.git_backend,
        },
{
}

/// The contexts tell parsers the same of the environment but for the time.
pub open spec fn same_but_for_time<P, X>(
    a: RevsetParseContext<'_, P, X>,
    b: RevsetParseContext<'_, P, X>,
) -> bool {
    &&& *a.aliases_map == *b.aliases_map
    &&& a.local_variables@ == b.local_variables@
    &&& *a.user_email == *b.user_email
    &&& a.default_ignored_remote == b.default_ignored_remote
    &&& *a.fileset_aliases_map == *b.fileset_aliases_map
    &&& a.use_glob_by_default == b.use_glob_by_default
    &&& *a.extensions == *b.extensions
    &&& a.workspace matches Some(v)
    &&& b.workspace matches Some(w)
    &&& *v.path_converter == *w.path_converter
    &&& *v.workspace_name == *w.workspace_name
}

/// What the environment tells can be read from its fields, and the contexts for parsers
/// agree with that. Revsets are parsed in the workspace, without variables, relative to the
/// time that is asked for: by default the machine's local time at the configured point, or
/// a reading of its clock where none is configured.
pub proof fn law_contexts_agree_with_the_environment<P, X>(
    env: &WorkspaceEnvironment<P, X>,
    now: LocalTime,
    path_converter: &RepoPathUiConverter,
    workspace_name: &String,
    style: ConflictMarkerStyle,
    extensions: &Arc<X>,
    heads: &Arc<UserRevsetExpression<P>>,
    immutable: Arc<UserRevsetExpression<P>>,
    prefixes: IdPrefixContext<P, X>,
    at: RevsetParseContext<'_, P, X>,
    current: RevsetParseContext<'_, P, X>,
    filesets: FilesetParseContext<'_>,
    for_config: FilesetParseContext<'_>,
    shown_relative_to: &RepoPathUiConverter,
    config_relative_to: &RepoPathUiConverter,
    in_calendar: bool,
)
    requires
        call_ensures(WorkspaceEnvironment::<P, X>::path_converter, (env,), path_converter),
        call_ensures(WorkspaceEnvironment::<P, X>::workspace_name, (env,), workspace_name),
        call_ensures(WorkspaceEnvironment::<P, X>::conflict_marker_style, (env,), style),
        call_ensures(WorkspaceEnvironment::<P, X>::revset_extensions, (env,), extensions),
        call_ensures(WorkspaceEnvironment::<P, X>::immutable_heads_expression, (env,), heads),
        call_ensures(WorkspaceEnvironment::<P, X>::immutable_expression, (env,), immutable),
        call_ensures(WorkspaceEnvironment::<P, X>::new_id_prefix_context, (env,), prefixes),
        call_ensures(WorkspaceEnvironment::<P, X>::revset_parse_context_at, (env, now), at),
        call_ensures(WorkspaceEnvironment::<P, X>::revset_parse_context, (env,), current),
        call_ensures(WorkspaceEnvironment::<P, X>::fileset_parse_context, (env,), filesets),
        call_ensures(
            WorkspaceEnvironment::<P, X>::fileset_parse_context_for_config,
            (env,),
            for_config,
        ),
        call_ensures(PathConverterRef::get, (&filesets.path_converter,), shown_relative_to),
        call_ensures(PathConverterRef::get, (&for_config.path_converter,), config_relative_to),
        call_ensures(WorkspaceEnvironment::<P, X>::in_calendar, (env,), in_calendar),
    ensures
        *path_converter == env.path_converter,
        *workspace_name == env.workspace_name,
        style == env.conflict_marker_style,
        // Immutable are the heads and whatever they descend from
        *immutable == UserRevsetExpression::Ancestors(*heads),
        prefixes.extensions == *extensions,
        at.date_pattern_context.now == now,
        at.local_variables@ == Map::<&str, Arc<UserRevsetExpression<P>>>::empty(),
        *at.extensions == *extensions,
        at.workspace matches Some(w) && *w.path_converter == env.path_converter
            && *w.workspace_name == env.workspace_name,
        same_but_for_time(at, current),
        match env@.settings.commit_timestamp {
            Some(t) => {
                &&& current.date_pattern_context.now.is_local_time_at(t.timestamp.0)
                &&& in_calendar <==> MIN_MILLIS <= t.timestamp.0 <= MAX_MILLIS
            },
            None => current.date_pattern_context.now.is_clock_reading() && in_calendar,
        },
        *filesets.aliases_map == *at.fileset_aliases_map,
        *for_config.aliases_map == *at.fileset_aliases_map,
        *shown_relative_to == env.path_converter,
        *config_relative_to matches RepoPathUiConverter::Fs { cwd, base } && cwd.bytes@.len() == 0
            && base.bytes@.len() == 0,
{
}

/// Writing to the revset aliases changes what parsers are told of them, and nothing else.
pub proof fn law_revset_aliases_can_be_written<P, X>(
    env: &mut WorkspaceEnvironment<P, X>,
    aliases: &mut RevsetAliasesMap,
    now: LocalTime,
    before: RevsetParseContext<'_, P, X>,
    after: RevsetParseContext<'_, P, X>,
)
    requires
        call_ensures(WorkspaceEnvironment::<P, X>::revset_aliases_map, (env,), aliases),
        call_ensures(
            WorkspaceEnvironment::<P, X>::revset_parse_context_at,
            (&*env, now),
            before,
        ),
        call_ensures(
            WorkspaceEnvironment::<P, X>::revset_parse_context_at,
            (&*final(env), now),
            after,
        ),
    ensures
        *before.aliases_map == *old(aliases),
        *after.aliases_map == *final(aliases),
        same_but_for_time(
            RevsetParseContext { aliases_map: before.aliases_map, ..after },
            before,
        ),
        final(env)@.settings == old(env)@.settings,
        final(env)@.immutable_heads_expression == old(env)@.immutable_heads_expression,
        final(env)@.short_prefixes_expression == old(env)@.short_prefixes_expression,
        final(env).conflict_marker_style == old(env).conflict_marker_style,
{
}

/// Prefixes need to be unique only within the commits that were asked for last, and
/// everywhere where none were.
pub proof fn law_prefixes<P, X>(
    extensions: Arc<X>,
    expression: Arc<UserRevsetExpression<P>>,
    fresh: IdPrefixContext<P, X>,
    within: IdPrefixContext<P, X>,
)
    requires
        call_ensures(IdPrefixContext::<P, X>::new, (extensions,), fresh),
        call_ensures(
            IdPrefixContext::<P, X>::disambiguate_within,
            (fresh, expression),
            within,
        ),
    ensures
        fresh.extensions == extensions,
        fresh.disambiguation is None,
        within.extensions == extensions,
        within.disambiguation == Some(expression),
{
}

/// Expressions are built from the expressions that are given.
pub proof fn law_expressions_are_built_as_asked<P, R>(
    heads: &Arc<UserRevsetExpression<P>>,
    left: &Arc<ResolvedRevsetExpression<R>>,
    right: &Arc<ResolvedRevsetExpression<R>>,
    root: Arc<UserRevsetExpression<P>>,
    ancestors: Arc<UserRevsetExpression<P>>,
    both: Arc<ResolvedRevsetExpression<R>>,
)
    requires
        call_ensures(UserRevsetExpression::<P>::root, (), root),
        call_ensures(UserRevsetExpression::<P>::ancestors, (heads,), ancestors),
        call_ensures(ResolvedRevsetExpression::<R>::intersection, (left, right), both),
    ensures
        *root == UserRevsetExpression::<P>::Root,
        *ancestors == UserRevsetExpression::Ancestors(*heads),
        *both == ResolvedRevsetExpression::Intersection(*left, *right),
{
}

/// Settings are copied in full.
pub proof fn law_settings_are_copied(settings: &UserSettings, copy: UserSettings)
    requires
        call_ensures(<UserSettings as Clone>::clone, (settings,), copy),
    ensures
        copy.commit_timestamp == settings.commit_timestamp,
        copy.user_email@ == settings.user_email@,
{
}

} // verus!
