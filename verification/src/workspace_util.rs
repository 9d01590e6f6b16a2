//! Metadata and configuration of a workspace.

use std::collections::HashMap;
use std::sync::Arc;

use vstd::prelude::*;
use vstd::string::*;

use crate::error_model::{
    AnyError, ConfigGetError, Reported, RevsetEvaluationError, RevsetParseError,
    RevsetResolutionError,
};
use crate::ids::CommitId;
use crate::local_time::{
    law_times_are_the_machines, local_now, local_time_at, LocalTime, Timestamp, MAX_MILLIS,
    MIN_MILLIS,
};
use crate::revset_expression::{
    described, selected, CommitGraph, ResolvedRevsetExpression, UserRevsetExpression,
};
use crate::user_error::{
    config_error_with_message, PresentError, UserError, UserErrorKind, UserErrorView,
};

verus! {

/// A path of the file system, byte for byte.
#[derive(Debug)]
pub struct FsPath {
    pub bytes: Vec<u8>,
}

impl View for FsPath {
    type V = Seq<u8>;

    open spec fn view(&self) -> Seq<u8> {
        self.bytes@
    }
}

/// Converts between paths in the repository and paths that the user sees.
#[derive(Debug)]
pub enum RepoPathUiConverter {
    /// Paths are shown relative to `cwd`; the repository's root is at `base`.
    Fs { cwd: FsPath, base: FsPath },
}

impl RepoPathUiConverter {
    /// The converter shows paths relative to `cwd`, with the root at `base`.
    pub open spec fn is_at(self, cwd: Seq<u8>, base: Seq<u8>) -> bool {
        match self {
            RepoPathUiConverter::Fs { cwd: c, base: b } => c@ == cwd && b@ == base,
        }
    }
}

/// Declared aliases and what each stands for.
#[derive(Debug)]
pub struct AliasesMap {
    pub entries: Vec<(String, String)>,
}

pub type FilesetAliasesMap = AliasesMap;

pub type RevsetAliasesMap = AliasesMap;

#[derive(Clone, Copy, Debug, PartialEq, Eq, Structural)]
pub enum ConflictMarkerStyle {
    Diff,
    DiffExperimental,
    Snapshot,
    Git,
}

/// The settings that the environment reads on its own.
#[derive(Debug)]
pub struct UserSettings {
    /// The time to give to new commits, in place of the current time.
    pub commit_timestamp: Option<Timestamp>,
    pub user_email: String,
}

impl UserSettings {
    /// The calendar reaches to the configured time.
    pub open spec fn in_calendar(self) -> bool {
        self.commit_timestamp matches Some(timestamp) ==> timestamp.in_calendar()
    }

    /// `now` is a time to which dates may be relative: the configured time where there
    /// is one, else a reading of the clock.
    pub open spec fn is_now(self, now: LocalTime) -> bool {
        &&& now.has_valid_offset()
        &&& match self.commit_timestamp {
            Some(timestamp) => {
                &&& now.is_at(timestamp.timestamp.0)
                &&& now.is_local_time_at(timestamp.timestamp.0)
            },
            None => now.nanos < 1000000000 && now.is_clock_reading(),
        }
    }
}

impl Clone for UserSettings {
    fn clone(&self) -> (r: Self)
        ensures
            r == *self,
    {
        UserSettings { commit_timestamp: self.commit_timestamp, user_email: self.user_email.clone() }
    }
}

/// Where the commits are stored.
#[derive(Debug)]
pub struct Store {
    /// Whether the store is backed by Git.
    pub git_backend: bool,
}

/// What is known of a workspace before its configuration is loaded.
#[derive(Debug)]
pub struct Workspace {
    pub settings: UserSettings,
    pub store: Store,
    pub workspace_root: FsPath,
    pub workspace_name: String,
}

/// The remote name under which the refs of the local Git repository appear.
pub const REMOTE_NAME_FOR_LOCAL_GIT_REPO: &'static str = "git";

/// Loads the fileset aliases. `load_aliases_map` gets the name of a table of aliases and
/// reads it; its warnings go to `warn`.
pub fn load_fileset_aliases<L, D>(load_aliases_map: L, warn: &mut D) -> (r: Result<
    FilesetAliasesMap,
    UserError,
>) where L: Fn(&str, &mut D) -> Result<AliasesMap, UserError>
    requires
        forall|w: &mut D| #[trigger] call_requires(load_aliases_map, ("fileset-aliases", w)),
    ensures
        exists|w: &mut D|
            {
                &&& *w == *old(warn)
                &&& #[trigger] call_ensures(load_aliases_map, ("fileset-aliases", w), r)
                &&& *final(warn) == *final(w)
            },
{
    load_aliases_map("fileset-aliases", warn)
}

/// Loads the revset aliases and warns of built-in ones that are redefined, which
/// `warn_user_redefined_builtin` reports. The table is read first, and the first failure
/// ends the loading; the report goes to the warnings as the reading left them.
pub fn load_revset_aliases<L, W, D>(
    load_aliases_map: L,
    warn_user_redefined_builtin: W,
    warn: &mut D,
) -> (r: Result<RevsetAliasesMap, UserError>) where
    L: Fn(&str, &mut D) -> Result<AliasesMap, UserError>,
    W: FnOnce(&str, &mut D) -> Result<(), UserError>,

    requires
        forall|w: &mut D| #[trigger] call_requires(load_aliases_map, ("revset-aliases", w)),
        forall|w: &mut D| #[trigger]
            call_requires(warn_user_redefined_builtin, ("revset-aliases", w)),
    ensures
        exists|w: &mut D, loaded: Result<AliasesMap, UserError>|
            {
                &&& *w == *old(warn)
                &&& #[trigger] call_ensures(load_aliases_map, ("revset-aliases", w), loaded)
                &&& match loaded {
                    Ok(map) => exists|v: &mut D, reported: Result<(), UserError>|
                        {
                            &&& *v == *final(w)
                            &&& #[trigger] call_ensures(
                                warn_user_redefined_builtin,
                                ("revset-aliases", v),
                                reported,
                            )
                            &&& *final(warn) == *final(v)
                            &&& r == (match reported {
                                Ok(()) => Ok::<RevsetAliasesMap, UserError>(map),
                                Err(err) => Err(err),
                            })
                        },
                    Err(err) => {
                        &&& *final(warn) == *final(w)
                        &&& r == Err::<RevsetAliasesMap, UserError>(err)
                    },
                }
            },
{
    let aliases_map = load_aliases_map("revset-aliases", warn)?;
    warn_user_redefined_builtin("revset-aliases", warn)?;
    Ok(aliases_map)
}

/// Returns the special remote name that should be ignored by default.
pub fn default_ignored_remote_name(store: &Store) -> (r: Option<&'static str>)
    ensures
        r == (if store.git_backend {
            Some(REMOTE_NAME_FOR_LOCAL_GIT_REPO)
        } else {
            None
        }),
{
    if store.git_backend {
        Some(REMOTE_NAME_FOR_LOCAL_GIT_REPO)
    } else {
        None
    }
}

/// A path converter, held or shared.
pub enum PathConverterRef<'a> {
    Shared(&'a RepoPathUiConverter),
    Held(RepoPathUiConverter),
}

impl<'a> PathConverterRef<'a> {
    /// The converter.
    pub open spec fn spec_get(self) -> RepoPathUiConverter {
        match self {
            PathConverterRef::Shared(converter) => *converter,
            PathConverterRef::Held(converter) => converter,
        }
    }

    pub fn get(&self) -> (r: &RepoPathUiConverter)
        ensures
            *r == self.spec_get(),
    {
        match self {
            PathConverterRef::Shared(converter) => converter,
            PathConverterRef::Held(converter) => converter,
        }
    }
}

/// Context in which fileset expressions are parsed.
pub struct FilesetParseContext<'a> {
    pub aliases_map: &'a FilesetAliasesMap,
    pub path_converter: PathConverterRef<'a>,
}

/// The workspace in which revset expressions are parsed.
pub struct RevsetWorkspaceContext<'a> {
    pub path_converter: &'a RepoPathUiConverter,
    pub workspace_name: &'a String,
}

/// The time to which dates are relative.
#[derive(Clone, Copy, Debug)]
pub struct DatePatternContext {
    pub now: LocalTime,
}

/// Context in which revset expressions are parsed.
pub struct RevsetParseContext<'a, P, X> {
    pub aliases_map: &'a RevsetAliasesMap,
    pub local_variables: HashMap<&'a str, Arc<UserRevsetExpression<P>>>,
    pub user_email: &'a String,
    pub date_pattern_context: DatePatternContext,
    pub default_ignored_remote: Option<&'static str>,
    pub fileset_aliases_map: &'a FilesetAliasesMap,
    pub use_glob_by_default: bool,
    pub extensions: &'a Arc<X>,
    pub workspace: Option<RevsetWorkspaceContext<'a>>,
}

/// Cache of short commit and change ID prefixes.
#[derive(Debug)]
pub struct IdPrefixContext<P, X> {
    pub extensions: Arc<X>,
    /// Prefixes need to be unique only within these commits.
    pub disambiguation: Option<Arc<UserRevsetExpression<P>>>,
}

impl<P, X> IdPrefixContext<P, X> {
    pub fn new(extensions: Arc<X>) -> (r: Self)
        ensures
            r.extensions == extensions,
            r.disambiguation is None,
    {
        IdPrefixContext { extensions, disambiguation: None }
    }

    pub fn disambiguate_within(self, expression: Arc<UserRevsetExpression<P>>) -> (r: Self)
        ensures
            r.extensions == self.extensions,
            r.disambiguation == Some(expression),
    {
        IdPrefixContext { extensions: self.extensions, disambiguation: Some(expression) }
    }
}

/// What an environment keeps for parsing expressions, and the revset expressions of its
/// configuration. Parsed revset expressions are of type `P`, and the extensions of the
/// revset language of type `X`.
pub struct RevsetEnvironment<P, X> {
    settings: UserSettings,
    fileset_aliases_map: FilesetAliasesMap,
    revset_aliases_map: RevsetAliasesMap,
    revset_extensions: Arc<X>,
    default_ignored_remote: Option<&'static str>,
    revsets_use_glob_by_default: bool,
    immutable_heads_expression: Arc<UserRevsetExpression<P>>,
    short_prefixes_expression: Option<Arc<UserRevsetExpression<P>>>,
}

/// What an environment keeps for parsing expressions, as a value.
pub struct RevsetEnvironmentView<P, X> {
    pub settings: UserSettings,
    pub fileset_aliases_map: FilesetAliasesMap,
    pub revset_aliases_map: RevsetAliasesMap,
    pub revset_extensions: Arc<X>,
    pub default_ignored_remote: Option<&'static str>,
    pub revsets_use_glob_by_default: bool,
    pub immutable_heads_expression: Arc<UserRevsetExpression<P>>,
    pub short_prefixes_expression: Option<Arc<UserRevsetExpression<P>>>,
}

impl<P, X> View for RevsetEnvironment<P, X> {
    type V = RevsetEnvironmentView<P, X>;

    closed spec fn view(&self) -> RevsetEnvironmentView<P, X> {
        RevsetEnvironmentView {
            settings: self.settings,
            fileset_aliases_map: self.fileset_aliases_map,
            revset_aliases_map: self.revset_aliases_map,
            revset_extensions: self.revset_extensions,
            default_ignored_remote: self.default_ignored_remote,
            revsets_use_glob_by_default: self.revsets_use_glob_by_default,
            immutable_heads_expression: self.immutable_heads_expression,
            short_prefixes_expression: self.short_prefixes_expression,
        }
    }
}

/// Metadata and configuration loaded for a specific workspace.
pub struct WorkspaceEnvironment<P, X> {
    pub revsets: RevsetEnvironment<P, X>,
    pub path_converter: RepoPathUiConverter,
    pub workspace_name: String,
    pub conflict_marker_style: ConflictMarkerStyle,
}

/// An environment as a value.
pub struct EnvironmentView<P, X> {
    pub settings: UserSettings,
    pub fileset_aliases_map: FilesetAliasesMap,
    pub revset_aliases_map: RevsetAliasesMap,
    pub revset_extensions: Arc<X>,
    pub default_ignored_remote: Option<&'static str>,
    pub revsets_use_glob_by_default: bool,
    pub path_converter: RepoPathUiConverter,
    pub workspace_name: String,
    pub immutable_heads_expression: Arc<UserRevsetExpression<P>>,
    pub short_prefixes_expression: Option<Arc<UserRevsetExpression<P>>>,
    pub conflict_marker_style: ConflictMarkerStyle,
}

impl<P, X> View for WorkspaceEnvironment<P, X> {
    type V = EnvironmentView<P, X>;

    open spec fn view(&self) -> EnvironmentView<P, X> {
        EnvironmentView {
            settings: self.revsets@.settings,
            fileset_aliases_map: self.revsets@.fileset_aliases_map,
            revset_aliases_map: self.revsets@.revset_aliases_map,
            revset_extensions: self.revsets@.revset_extensions,
            default_ignored_remote: self.revsets@.default_ignored_remote,
            revsets_use_glob_by_default: self.revsets@.revsets_use_glob_by_default,
            path_converter: self.path_converter,
            workspace_name: self.workspace_name,
            immutable_heads_expression: self.revsets@.immutable_heads_expression,
            short_prefixes_expression: self.revsets@.short_prefixes_expression,
            conflict_marker_style: self.conflict_marker_style,
        }
    }
}

impl<P, X> EnvironmentView<P, X> {
    /// The same environment with other immutable heads.
    pub open spec fn with_immutable_heads(self, heads: Arc<UserRevsetExpression<P>>) -> Self {
        EnvironmentView { immutable_heads_expression: heads, ..self }
    }

    /// The same environment with other short prefixes.
    pub open spec fn with_short_prefixes(
        self,
        prefixes: Option<Arc<UserRevsetExpression<P>>>,
    ) -> Self {
        EnvironmentView { short_prefixes_expression: prefixes, ..self }
    }

    /// The expression for the commits that must not be rewritten: the immutable ones, or
    /// the root commit alone where those are to be ignored.
    pub open spec fn protected(self, ignore_immutable: bool) -> UserRevsetExpression<P> {
        if ignore_immutable {
            UserRevsetExpression::Root
        } else {
            UserRevsetExpression::Ancestors(self.immutable_heads_expression)
        }
    }

    /// `context` is a context for parsing revset expressions in this environment, with
    /// dates relative to `now`.
    pub open spec fn is_parse_context(self, now: LocalTime, context: RevsetParseContext<P, X>) -> bool {
        &&& *context.aliases_map == self.revset_aliases_map
        &&& context.local_variables@ == Map::<&str, Arc<UserRevsetExpression<P>>>::empty()
        &&& *context.user_email == self.settings.user_email
        &&& context.date_pattern_context.now == now
        &&& context.default_ignored_remote == self.default_ignored_remote
        &&& *context.fileset_aliases_map == self.fileset_aliases_map
        &&& context.use_glob_by_default == self.revsets_use_glob_by_default
        &&& *context.extensions == self.revset_extensions
        &&& context.workspace matches Some(workspace)
        &&& *workspace.path_converter == self.path_converter
        &&& *workspace.workspace_name == self.workspace_name
    }

    /// `context` is a context that the environment may hand to a parser.
    pub open spec fn may_parse_in(self, context: RevsetParseContext<P, X>) -> bool {
        exists|now: LocalTime|
            self.settings.is_now(now) && #[trigger] self.is_parse_context(now, context)
    }
}

impl<P, X> WorkspaceEnvironment<P, X> {
    /// The environment is one that holds nothing but the data of `workspace`, the working
    /// directory `cwd`, `extensions`, and the aliases and values that were read.
    pub open spec fn is_fresh(
        self,
        workspace: Workspace,
        cwd: Seq<u8>,
        extensions: Arc<X>,
        fileset_aliases: FilesetAliasesMap,
        revset_aliases: RevsetAliasesMap,
        use_glob: bool,
        marker_style: ConflictMarkerStyle,
    ) -> bool {
        &&& self@.settings == workspace.settings
        &&& self@.fileset_aliases_map == fileset_aliases
        &&& self@.revset_aliases_map == revset_aliases
        &&& self@.revset_extensions == extensions
        &&& self@.default_ignored_remote == (if workspace.store.git_backend {
            Some(REMOTE_NAME_FOR_LOCAL_GIT_REPO)
        } else {
            None
        })
        &&& self@.revsets_use_glob_by_default == use_glob
        &&& self@.path_converter.is_at(cwd, workspace.workspace_root@)
        &&& self@.workspace_name == workspace.workspace_name
        &&& *self@.immutable_heads_expression == UserRevsetExpression::<P>::Root
        &&& self@.short_prefixes_expression is None
        &&& self@.conflict_marker_style == marker_style
    }

    /// `outcome` is what reading the single values may give after both tables of aliases
    /// were loaded: the first value that cannot be read ends the loading.
    pub open spec fn values_outcome<B, S>(
        workspace: Workspace,
        cwd: Seq<u8>,
        extensions: Arc<X>,
        fileset_aliases: FilesetAliasesMap,
        revset_aliases: RevsetAliasesMap,
        get_bool: B,
        get_style: S,
        outcome: Result<Self, UserError>,
    ) -> bool where
        B: FnOnce(&str) -> Result<bool, Reported<ConfigGetError>>,
        S: FnOnce(&str) -> Result<ConflictMarkerStyle, Reported<ConfigGetError>>,
     {
        exists|use_glob: Result<bool, Reported<ConfigGetError>>|
            {
                &&& #[trigger] call_ensures(
                    get_bool,
                    ("ui.revsets-use-glob-by-default",),
                    use_glob,
                )
                &&& match use_glob {
                    Ok(use_glob) => exists|
                        marker_style: Result<ConflictMarkerStyle, Reported<ConfigGetError>>,
                    |
                        {
                            &&& #[trigger] call_ensures(
                                get_style,
                                ("ui.conflict-marker-style",),
                                marker_style,
                            )
                            &&& match marker_style {
                                Ok(marker_style) => outcome matches Ok(env) && env.is_fresh(
                                    workspace,
                                    cwd,
                                    extensions,
                                    fileset_aliases,
                                    revset_aliases,
                                    use_glob,
                                    marker_style,
                                ),
                                Err(cause) => outcome matches Err(err) && err@
                                    == ConfigGetError::presented(cause),
                            }
                        },
                    Err(cause) => outcome matches Err(err) && err@ == ConfigGetError::presented(
                        cause,
                    ),
                }
            }
    }

    /// Loads the configuration of `workspace`. Aliases are read by `load_aliases_map`,
    /// which gets the name of a table; `warn_user_redefined_builtin` reports the built-in
    /// aliases that a table redefines; both send their warnings to `warn`. Single values
    /// are read by name.
    ///
    /// The fileset aliases are loaded first, and the warnings of the revset aliases follow
    /// theirs; then the single values are read, without a warning. The first failure ends
    /// the loading.
    pub fn new<L, W, B, S, D>(
        workspace: &Workspace,
        cwd: FsPath,
        revset_extensions: Arc<X>,
        load_aliases_map: L,
        warn_user_redefined_builtin: W,
        get_bool: B,
        get_conflict_marker_style: S,
        warn: &mut D,
    ) -> (r: Result<Self, UserError>) where
        L: Fn(&str, &mut D) -> Result<AliasesMap, UserError>,
        W: FnOnce(&str, &mut D) -> Result<(), UserError>,
        B: FnOnce(&str) -> Result<bool, Reported<ConfigGetError>>,
        S: FnOnce(&str) -> Result<ConflictMarkerStyle, Reported<ConfigGetError>>,

        requires
            forall|w: &mut D| #[trigger] call_requires(load_aliases_map, ("fileset-aliases", w)),
            forall|w: &mut D| #[trigger] call_requires(load_aliases_map, ("revset-aliases", w)),
            forall|w: &mut D| #[trigger]
                call_requires(warn_user_redefined_builtin, ("revset-aliases", w)),
            call_requires(get_bool, ("ui.revsets-use-glob-by-default",)),
            call_requires(get_conflict_marker_style, ("ui.conflict-marker-style",)),
        ensures
            exists|w: &mut D, filesets: Result<FilesetAliasesMap, UserError>|
                {
                    &&& *w == *old(warn)
                    &&& #[trigger] call_ensures(load_aliases_map, ("fileset-aliases", w), filesets)
                    &&& match filesets {
                        Ok(fileset_aliases) => exists|
                            v: &mut D,
                            revsets: Result<RevsetAliasesMap, UserError>,
                        |
                            {
                                &&& *v == *final(w)
                                &&& #[trigger] call_ensures(
                                    load_aliases_map,
                                    ("revset-aliases", v),
                                    revsets,
                                )
                                &&& match revsets {
                                    Ok(revset_aliases) => exists|
                                        u: &mut D,
                                        reported: Result<(), UserError>,
                                    |
                                        {
                                            &&& *u == *final(v)
                                            &&& #[trigger] call_ensures(
                                                warn_user_redefined_builtin,
                                                ("revset-aliases", u),
                                                reported,
                                            )
                                            &&& *final(warn) == *final(u)
                                            &&& match reported {
                                                Ok(()) => Self::values_outcome(
                                                    *workspace,
                                                    cwd@,
                                                    revset_extensions,
                                                    fileset_aliases,
                                                    revset_aliases,
                                                    get_bool,
                                                    get_conflict_marker_style,
                                                    r,
                                                ),
                                                Err(err) => r == Err::<Self, UserError>(err),
                                            }
                                        },
                                    Err(err) => {
                                        &&& *final(warn) == *final(v)
                                        &&& r == Err::<Self, UserError>(err)
                                    },
                                }
                            },
                        Err(err) => {
                            &&& *final(warn) == *final(w)
                            &&& r == Err::<Self, UserError>(err)
                        },
                    }
                },
    {
        let fileset_aliases_map = load_fileset_aliases(&load_aliases_map, warn)?;
        let revset_aliases_map = load_revset_aliases(
            &load_aliases_map,
            warn_user_redefined_builtin,
            warn,
        )?;
        let default_ignored_remote = default_ignored_remote_name(&workspace.store);
        let path_converter = RepoPathUiConverter::Fs {
            cwd,
            base: FsPath { bytes: workspace.workspace_root.bytes.clone() },
        };
        let revsets_use_glob_by_default = match get_bool("ui.revsets-use-glob-by-default") {
            Ok(value) => value,
            Err(err) => return Err(UserError::from(err)),
        };
        let conflict_marker_style = match get_conflict_marker_style("ui.conflict-marker-style") {
            Ok(value) => value,
            Err(err) => return Err(UserError::from(err)),
        };
        Ok(
            WorkspaceEnvironment {
                revsets: RevsetEnvironment {
                    settings: workspace.settings.clone(),
                    fileset_aliases_map,
                    revset_aliases_map,
                    revset_extensions,
                    default_ignored_remote,
                    revsets_use_glob_by_default,
                    immutable_heads_expression: UserRevsetExpression::root(),
                    short_prefixes_expression: None,
                },
                path_converter,
                workspace_name: workspace.workspace_name.clone(),
                conflict_marker_style,
            },
        )
    }

    /// Whether the calendar reaches to the configured time, where there is one.
    pub fn in_calendar(&self) -> (r: bool)
        ensures
            r == self@.settings.in_calendar(),
    {
        match self.revsets.settings.commit_timestamp {
            Some(timestamp) => MIN_MILLIS <= timestamp.timestamp.0 && timestamp.timestamp.0
                <= MAX_MILLIS,
            None => true,
        }
    }

    pub fn path_converter(&self) -> (r: &RepoPathUiConverter)
        ensures
            *r == self@.path_converter,
    {
        &self.path_converter
    }

    pub fn workspace_name(&self) -> (r: &String)
        ensures
            *r == self@.workspace_name,
    {
        &self.workspace_name
    }

    pub fn revset_aliases_map(&mut self) -> (r: &mut RevsetAliasesMap)
        ensures
            *r == old(self)@.revset_aliases_map,
            final(self)@ == (EnvironmentView {
                revset_aliases_map: *final(r),
                ..old(self)@
            }),
    {
        &mut self.revsets.revset_aliases_map
    }

    pub fn revset_extensions(&self) -> (r: &Arc<X>)
        ensures
            *r == self@.revset_extensions,
    {
        &self.revsets.revset_extensions
    }

    /// Parsing context for fileset expressions specified by command arguments.
    pub fn fileset_parse_context(&self) -> (r: FilesetParseContext<'_>)
        ensures
            *r.aliases_map == self@.fileset_aliases_map,
            r.path_converter.spec_get() == self@.path_converter,
    {
        FilesetParseContext {
            aliases_map: &self.revsets.fileset_aliases_map,
            path_converter: PathConverterRef::Shared(&self.path_converter),
        }
    }

    /// Parsing context for fileset expressions loaded from config files.
    pub fn fileset_parse_context_for_config(&self) -> (r: FilesetParseContext<'_>)
        ensures
            *r.aliases_map == self@.fileset_aliases_map,
            r.path_converter.spec_get().is_at(seq![], seq![]),
    {
        FilesetParseContext {
            aliases_map: &self.revsets.fileset_aliases_map,
            path_converter: PathConverterRef::Held(
                RepoPathUiConverter::Fs {
                    cwd: FsPath { bytes: Vec::new() },
                    base: FsPath { bytes: Vec::new() },
                },
            ),
        }
    }

    /// Parsing context for revset expressions, with dates relative to the configured
    /// time where there is one, else to the current time.
    pub fn revset_parse_context(&self) -> (r: RevsetParseContext<'_, P, X>)
        requires
            self@.settings.in_calendar(),
        ensures
            self@.settings.is_now(r.date_pattern_context.now),
            self@.is_parse_context(r.date_pattern_context.now, r),
            self@.may_parse_in(r),
    {
        let now = if let Some(timestamp) = self.revsets.settings.commit_timestamp {
            local_time_at(timestamp.timestamp.0)
        } else {
            local_now()
        };
        proof {
            if let Some(timestamp) = self.revsets.settings.commit_timestamp {
                law_times_are_the_machines(now, timestamp.timestamp.0);
            } else {
                law_times_are_the_machines(now, 0);
            }
        }
        self.revset_parse_context_at(now)
    }

    /// Parsing context for revset expressions, with dates relative to `now`.
    pub fn revset_parse_context_at(&self, now: LocalTime) -> (r: RevsetParseContext<'_, P, X>)
        ensures
            self@.is_parse_context(now, r),
    {
        let workspace_context = RevsetWorkspaceContext {
            path_converter: &self.path_converter,
            workspace_name: &self.workspace_name,
        };
        RevsetParseContext {
            aliases_map: &self.revsets.revset_aliases_map,
            local_variables: HashMap::new(),
            user_email: &self.revsets.settings.user_email,
            date_pattern_context: DatePatternContext { now },
            default_ignored_remote: self.revsets.default_ignored_remote,
            fileset_aliases_map: &self.revsets.fileset_aliases_map,
            use_glob_by_default: self.revsets.revsets_use_glob_by_default,
            extensions: self.revset_extensions(),
            workspace: Some(workspace_context),
        }
    }

    /// Creates fresh new context which manages cache of short commit/change ID
    /// prefixes. New context should be created per repo view (or operation.)
    pub fn new_id_prefix_context(&self) -> (r: IdPrefixContext<P, X>)
        ensures
            r.extensions == self@.revset_extensions,
            r.disambiguation == self@.short_prefixes_expression,
    {
        let context = IdPrefixContext::new(self.revset_extensions().clone());
        match &self.revsets.short_prefixes_expression {
            None => context,
            Some(expression) => context.disambiguate_within(expression.clone()),
        }
    }

    /// User-configured expression defining the immutable set.
    pub fn immutable_expression(&self) -> (r: Arc<UserRevsetExpression<P>>)
        ensures
            *r == UserRevsetExpression::Ancestors(self@.immutable_heads_expression),
    {
        // Negated ancestors expression `~::(<heads> | root())` is slightly
        // easier to optimize than negated union `~(::<heads> | root())`.
        UserRevsetExpression::ancestors(&self.revsets.immutable_heads_expression)
    }

    /// User-configured expression defining the heads of the immutable set.
    pub fn immutable_heads_expression(&self) -> (r: &Arc<UserRevsetExpression<P>>)
        ensures
            *r == self@.immutable_heads_expression,
    {
        &self.revsets.immutable_heads_expression
    }

    /// User-configured conflict marker style for materializing conflicts
    pub fn conflict_marker_style(&self) -> (r: ConflictMarkerStyle)
        ensures
            r == self@.conflict_marker_style,
    {
        self.conflict_marker_style
    }
}

/// The message over an unusable definition of the immutable heads.
pub open spec fn invalid_immutable_heads() -> Seq<char> {
    "Invalid `revset-aliases.immutable_heads()`"@
}

/// `outcome` is what loading the immutable heads gives, where parsing their definition gave
/// `parsed`.
pub open spec fn immutable_heads_outcome<P>(
    parsed: Result<Arc<UserRevsetExpression<P>>, Reported<RevsetParseError>>,
    outcome: Result<Arc<UserRevsetExpression<P>>, UserError>,
) -> bool {
    match parsed {
        Ok(expression) => outcome == Ok::<_, UserError>(expression),
        Err(cause) => outcome matches Err(err) && err@ == UserErrorView::titled(
            UserErrorKind::Config,
            invalid_immutable_heads(),
            AnyError::RevsetParse(cause),
        ),
    }
}

/// `text` is what `get` may give as the revset for short prefixes: the value set for them,
/// or the revset for the log where there is none.
pub open spec fn short_prefixes_text<G>(
    get: G,
    text: Result<String, Reported<ConfigGetError>>,
) -> bool where G: Fn(&str) -> Result<String, Reported<ConfigGetError>> {
    exists|short_prefixes: Result<String, Reported<ConfigGetError>>|
        {
            &&& #[trigger] call_ensures(get, ("revsets.short-prefixes",), short_prefixes)
            &&& if short_prefixes matches Err(cause) && cause.error is NotFound {
                call_ensures(get, ("revsets.log",), text)
            } else {
                text == short_prefixes
            }
        }
}

/// `outcome` is what loading the short prefixes gives, where parsing the revset for them
/// gave `parsed`.
pub open spec fn short_prefixes_outcome<P>(
    parsed: Result<Arc<UserRevsetExpression<P>>, Reported<RevsetParseError>>,
    outcome: Result<Option<Arc<UserRevsetExpression<P>>>, UserError>,
) -> bool {
    match parsed {
        Ok(expression) => outcome == Ok::<_, UserError>(Some(expression)),
        Err(cause) => outcome matches Err(err) && err@ == UserErrorView::titled(
            UserErrorKind::Config,
            "Invalid `revsets.short-prefixes`"@,
            AnyError::RevsetParse(cause),
        ),
    }
}

/// `outcome` is what the search for a commit of `expression` may give, where `first`
/// evaluates an expression up to its first commit.
pub open spec fn first_commit_outcome<R, G>(
    first: G,
    expression: Arc<ResolvedRevsetExpression<R>>,
    outcome: Result<Option<CommitId>, UserError>,
) -> bool where
    G: FnOnce(Arc<ResolvedRevsetExpression<R>>) -> Result<
        Option<Result<CommitId, Reported<RevsetEvaluationError>>>,
        Reported<RevsetEvaluationError>,
    >,
 {
    exists|
        found: Result<
            Option<Result<CommitId, Reported<RevsetEvaluationError>>>,
            Reported<RevsetEvaluationError>,
        >,
    |
        {
            &&& #[trigger] call_ensures(first, (expression,), found)
            &&& match found {
                Ok(None) => outcome == Ok::<Option<CommitId>, UserError>(None),
                Ok(Some(Ok(commit_id))) => outcome == Ok::<_, UserError>(Some(commit_id)),
                Ok(Some(Err(cause))) => outcome matches Err(err) && err@
                    == RevsetEvaluationError::presented(cause),
                Err(cause) => outcome matches Err(err) && err@ == RevsetEvaluationError::presented(
                    cause,
                ),
            }
        }
}

/// `outcome` is what the search for an immutable commit among those of `to_rewrite` may
/// give in `env`: the first commit that is both protected and to be rewritten.
pub open spec fn immutable_commit_outcome<P, X, R, F, G>(
    env: EnvironmentView<P, X>,
    ignore_immutable: bool,
    resolve: F,
    first: G,
    to_rewrite: Arc<ResolvedRevsetExpression<R>>,
    outcome: Result<Option<CommitId>, UserError>,
) -> bool where
    F: FnOnce(&IdPrefixContext<P, X>, Arc<UserRevsetExpression<P>>) -> Result<
        Arc<ResolvedRevsetExpression<R>>,
        Reported<RevsetResolutionError>,
    >,
    G: FnOnce(Arc<ResolvedRevsetExpression<R>>) -> Result<
        Option<Result<CommitId, Reported<RevsetEvaluationError>>>,
        Reported<RevsetEvaluationError>,
    >,
 {
    exists|
        context: &IdPrefixContext<P, X>,
        expression: Arc<UserRevsetExpression<P>>,
        resolved: Result<Arc<ResolvedRevsetExpression<R>>, Reported<RevsetResolutionError>>,
    |
        {
            &&& context.extensions == env.revset_extensions
            &&& context.disambiguation is None
            &&& *expression == env.protected(ignore_immutable)
            &&& #[trigger] call_ensures(resolve, (context, expression), resolved)
            &&& match resolved {
                Ok(immutable) => first_commit_outcome(
                    first,
                    Arc::new(ResolvedRevsetExpression::Intersection(immutable, to_rewrite)),
                    outcome,
                ),
                Err(cause) => outcome matches Err(err) && err@ == UserErrorView::titled(
                    UserErrorKind::Config,
                    invalid_immutable_heads(),
                    AnyError::RevsetResolution(cause),
                ),
            }
        }
}

impl<P, X> WorkspaceEnvironment<P, X> {
    /// Updates parsed revset expressions. The definition of the immutable heads is parsed
    /// by `parse_immutable_heads_expression`, other revsets by `parse`; configuration
    /// values are read by `get_string`.
    ///
    /// The immutable heads come first. Where they cannot be loaded, nothing else is done;
    /// where they can, they stay, whatever becomes of the short prefixes. Diagnostics
    /// change only where something is parsed.
    pub fn reload_revset_expressions<H, G, F, D>(
        &mut self,
        immutable_heads_diagnostics: &mut D,
        short_prefixes_diagnostics: &mut D,
        parse_immutable_heads_expression: H,
        get_string: G,
        parse: F,
    ) -> (r: Result<(), UserError>) where
        H: FnOnce(&mut D, &RevsetParseContext<'_, P, X>) -> Result<
            Arc<UserRevsetExpression<P>>,
            Reported<RevsetParseError>,
        >,
        G: Fn(&str) -> Result<String, Reported<ConfigGetError>>,
        F: FnOnce(&mut D, &str, &RevsetParseContext<'_, P, X>) -> Result<
            Arc<UserRevsetExpression<P>>,
            Reported<RevsetParseError>,
        >,

        requires
            old(self)@.settings.in_calendar(),
            forall|d: &mut D, context: &RevsetParseContext<'_, P, X>|
                old(self)@.may_parse_in(*context) ==> #[trigger] call_requires(
                    parse_immutable_heads_expression,
                    (d, context),
                ),
            call_requires(get_string, ("revsets.short-prefixes",)),
            call_requires(get_string, ("revsets.log",)),
            forall|d: &mut D, revset: &str, context: &RevsetParseContext<'_, P, X>|
                revset@.len() > 0 && old(self)@.may_parse_in(*context) ==> #[trigger] call_requires(
                    parse,
                    (d, revset, context),
                ),
        ensures
            exists|
                h: &mut D,
                context: &RevsetParseContext<'_, P, X>,
                heads: Result<Arc<UserRevsetExpression<P>>, Reported<RevsetParseError>>,
            |
                {
                    &&& *h == *old(immutable_heads_diagnostics)
                    &&& old(self)@.may_parse_in(*context)
                    &&& #[trigger] call_ensures(
                        parse_immutable_heads_expression,
                        (h, context),
                        heads,
                    )
                    &&& *final(immutable_heads_diagnostics) == *final(h)
                    &&& match heads {
                        Ok(immutable_heads) => exists|
                            text: Result<String, Reported<ConfigGetError>>,
                        |
                            {
                                &&& #[trigger] short_prefixes_text(get_string, text)
                                &&& match text {
                                    Ok(text) => if text@.len() == 0 {
                                        &&& r == Ok::<(), UserError>(())
                                        &&& final(self)@ == old(self)@.with_immutable_heads(
                                            immutable_heads,
                                        ).with_short_prefixes(None)
                                        &&& *final(short_prefixes_diagnostics) == *old(
                                            short_prefixes_diagnostics,
                                        )
                                    } else {
                                        exists|
                                            d: &mut D,
                                            revset: &str,
                                            context: &RevsetParseContext<'_, P, X>,
                                            prefixes: Result<
                                                Arc<UserRevsetExpression<P>>,
                                                Reported<RevsetParseError>,
                                            >,
                                        |
                                            {
                                                &&& *d == *old(short_prefixes_diagnostics)
                                                &&& revset@ == text@
                                                &&& old(self)@.may_parse_in(*context)
                                                &&& #[trigger] call_ensures(
                                                    parse,
                                                    (d, revset, context),
                                                    prefixes,
                                                )
                                                &&& *final(short_prefixes_diagnostics) == *final(d)
                                                &&& match prefixes {
                                                    Ok(expression) => {
                                                        &&& r == Ok::<(), UserError>(())
                                                        &&& final(self)@
                                                            == old(self)@.with_immutable_heads(
                                                            immutable_heads,
                                                        ).with_short_prefixes(Some(expression))
                                                    },
                                                    Err(_) => {
                                                        &&& r matches Err(err)
                                                        &&& short_prefixes_outcome(
                                                            prefixes,
                                                            Err(err),
                                                        )
                                                        &&& final(self)@
                                                            == old(self)@.with_immutable_heads(
                                                            immutable_heads,
                                                        )
                                                    },
                                                }
                                            }
                                    },
                                    Err(cause) => {
                                        &&& r matches Err(err)
                                        &&& err@ == ConfigGetError::presented(cause)
                                        &&& final(self)@ == old(self)@.with_immutable_heads(
                                            immutable_heads,
                                        )
                                        &&& *final(short_prefixes_diagnostics) == *old(
                                            short_prefixes_diagnostics,
                                        )
                                    },
                                }
                            },
                        Err(_) => {
                            &&& r matches Err(err)
                            &&& immutable_heads_outcome(heads, Err(err))
                            &&& final(self)@ == old(self)@
                            &&& *final(short_prefixes_diagnostics) == *old(
                                short_prefixes_diagnostics,
                            )
                        },
                    }
                },
    {
        let heads = self.load_immutable_heads_expression(
            immutable_heads_diagnostics,
            parse_immutable_heads_expression,
        )?;
        self.revsets.immutable_heads_expression = heads;
        assert forall|now: LocalTime, context: RevsetParseContext<'_, P, X>|
            #![trigger self@.is_parse_context(now, context)]
            #![trigger old(self)@.is_parse_context(now, context)]
            self@.is_parse_context(now, context) == old(self)@.is_parse_context(now, context) by {}
        let prefixes = self.load_short_prefixes_expression(
            short_prefixes_diagnostics,
            get_string,
            parse,
        )?;
        self.revsets.short_prefixes_expression = prefixes;
        Ok(())
    }

    fn load_immutable_heads_expression<H, D>(
        &self,
        diagnostics: &mut D,
        parse_immutable_heads_expression: H,
    ) -> (r: Result<Arc<UserRevsetExpression<P>>, UserError>) where
        H: FnOnce(&mut D, &RevsetParseContext<'_, P, X>) -> Result<
            Arc<UserRevsetExpression<P>>,
            Reported<RevsetParseError>,
        >,

        requires
            self@.settings.in_calendar(),
            forall|d: &mut D, context: &RevsetParseContext<'_, P, X>|
                self@.may_parse_in(*context) ==> #[trigger] call_requires(
                    parse_immutable_heads_expression,
                    (d, context),
                ),
        ensures
            exists|
                d: &mut D,
                context: &RevsetParseContext<'_, P, X>,
                parsed: Result<Arc<UserRevsetExpression<P>>, Reported<RevsetParseError>>,
            |
                {
                    &&& *d == *old(diagnostics)
                    &&& self@.may_parse_in(*context)
                    &&& #[trigger] call_ensures(
                        parse_immutable_heads_expression,
                        (d, context),
                        parsed,
                    )
                    &&& *final(diagnostics) == *final(d)
                    &&& immutable_heads_outcome(parsed, r)
                },
    {
        let context = self.revset_parse_context();
        match parse_immutable_heads_expression(diagnostics, &context) {
            Ok(expression) => Ok(expression),
            Err(err) => Err(
                config_error_with_message("Invalid `revset-aliases.immutable_heads()`", err),
            ),
        }
    }

    fn load_short_prefixes_expression<G, F, D>(
        &self,
        diagnostics: &mut D,
        get_string: G,
        parse: F,
    ) -> (r: Result<Option<Arc<UserRevsetExpression<P>>>, UserError>) where
        G: Fn(&str) -> Result<String, Reported<ConfigGetError>>,
        F: FnOnce(&mut D, &str, &RevsetParseContext<'_, P, X>) -> Result<
            Arc<UserRevsetExpression<P>>,
            Reported<RevsetParseError>,
        >,

        requires
            self@.settings.in_calendar(),
            call_requires(get_string, ("revsets.short-prefixes",)),
            call_requires(get_string, ("revsets.log",)),
            forall|d: &mut D, revset: &str, context: &RevsetParseContext<'_, P, X>|
                revset@.len() > 0 && self@.may_parse_in(*context) ==> #[trigger] call_requires(
                    parse,
                    (d, revset, context),
                ),
        ensures
            exists|text: Result<String, Reported<ConfigGetError>>|
                {
                    &&& #[trigger] short_prefixes_text(get_string, text)
                    &&& match text {
                        Ok(text) => if text@.len() == 0 {
                            &&& r == Ok::<Option<Arc<UserRevsetExpression<P>>>, UserError>(None)
                            &&& *final(diagnostics) == *old(diagnostics)
                        } else {
                            exists|
                                d: &mut D,
                                revset: &str,
                                context: &RevsetParseContext<'_, P, X>,
                                parsed: Result<
                                    Arc<UserRevsetExpression<P>>,
                                    Reported<RevsetParseError>,
                                >,
                            |
                                {
                                    &&& *d == *old(diagnostics)
                                    &&& revset@ == text@
                                    &&& self@.may_parse_in(*context)
                                    &&& #[trigger] call_ensures(
                                        parse,
                                        (d, revset, context),
                                        parsed,
                                    )
                                    &&& *final(diagnostics) == *final(d)
                                    &&& short_prefixes_outcome(parsed, r)
                                }
                        },
                        Err(cause) => {
                            &&& r matches Err(err)
                            &&& err@ == ConfigGetError::presented(cause)
                            &&& *final(diagnostics) == *old(diagnostics)
                        },
                    }
                },
    {
        let text = match get_string("revsets.short-prefixes") {
            Ok(text) => Ok(text),
            Err(err) => match err.error {
                ConfigGetError::NotFound => get_string("revsets.log"),
                ConfigGetError::Type { source_path } => Err(
                    Reported { error: ConfigGetError::Type { source_path }, report: err.report },
                ),
            },
        };
        assert(short_prefixes_text(get_string, text));
        let revset_string = match text {
            Ok(text) => text,
            Err(err) => return Err(UserError::from(err)),
        };
        if revset_string.as_str().is_empty() {
            Ok(None)
        } else {
            let context = self.revset_parse_context();
            match parse(diagnostics, revset_string.as_str(), &context) {
                Ok(expression) => Ok(Some(expression)),
                Err(err) => Err(config_error_with_message("Invalid `revsets.short-prefixes`", err)),
            }
        }
    }

    /// Returns first immutable commit.
    ///
    /// `resolve` resolves the symbols of an expression. `first_commit` evaluates an
    /// expression and returns the first commit of the result, if there is any.
    pub fn find_immutable_commit<R, F, G>(
        &self,
        resolve: F,
        first_commit: G,
        to_rewrite_expr: &Arc<ResolvedRevsetExpression<R>>,
        ignore_immutable: bool,
    ) -> (r: Result<Option<CommitId>, UserError>) where
        F: FnOnce(&IdPrefixContext<P, X>, Arc<UserRevsetExpression<P>>) -> Result<
            Arc<ResolvedRevsetExpression<R>>,
            Reported<RevsetResolutionError>,
        >,
        G: FnOnce(Arc<ResolvedRevsetExpression<R>>) -> Result<
            Option<Result<CommitId, Reported<RevsetEvaluationError>>>,
            Reported<RevsetEvaluationError>,
        >,

        requires
            forall|context: &IdPrefixContext<P, X>, expression: Arc<UserRevsetExpression<P>>|
                *expression == self@.protected(ignore_immutable) && context.extensions
                    == self@.revset_extensions && context.disambiguation is None
                    ==> #[trigger] call_requires(resolve, (context, expression)),
            forall|
                context: &IdPrefixContext<P, X>,
                protected: Arc<UserRevsetExpression<P>>,
                immutable: Arc<ResolvedRevsetExpression<R>>,
                expression: Arc<ResolvedRevsetExpression<R>>,
            |
                {
                    &&& *protected == self@.protected(ignore_immutable)
                    &&& #[trigger] call_ensures(resolve, (context, protected), Ok(immutable))
                    &&& *expression == ResolvedRevsetExpression::Intersection(
                        immutable,
                        *to_rewrite_expr,
                    )
                } ==> #[trigger] call_requires(first_commit, (expression,)),
        ensures
            immutable_commit_outcome(
                self@,
                ignore_immutable,
                resolve,
                first_commit,
                *to_rewrite_expr,
                r,
            ),
    {
        let immutable_expression = if ignore_immutable {
            UserRevsetExpression::root()
        } else {
            self.immutable_expression()
        };

        // Not using self.new_id_prefix_context() because the disambiguation data
        // must not be calculated and cached against arbitrary repo. It's also
        // unlikely that the immutable expression contains short hashes.
        let id_prefix_context = IdPrefixContext::new(self.revset_extensions().clone());
        let immutable_expr = match resolve(&id_prefix_context, immutable_expression) {
            Ok(expression) => expression,
            Err(err) => return Err(
                config_error_with_message("Invalid `revset-aliases.immutable_heads()`", err),
            ),
        };
        let expression = ResolvedRevsetExpression::intersection(&immutable_expr, to_rewrite_expr);
        assert(*expression == ResolvedRevsetExpression::Intersection(
            immutable_expr,
            *to_rewrite_expr,
        ));
        match first_commit(expression) {
            Ok(None) => Ok(None),
            Ok(Some(Ok(commit_id))) => Ok(Some(commit_id)),
            Ok(Some(Err(err))) => Err(UserError::from(err)),
            Err(err) => Err(UserError::from(err)),
        }
    }
}

/// The path converter, the workspace name and the conflict marker style of an environment
/// can be read from its fields, and writing these changes nothing else in the environment.
pub proof fn law_fields_are_viewed<P, X>(
    env: WorkspaceEnvironment<P, X>,
    written: WorkspaceEnvironment<P, X>,
)
    requires
        written.revsets == env.revsets,
    ensures
        env@.path_converter == env.path_converter,
        env@.workspace_name == env.workspace_name,
        env@.conflict_marker_style == env.conflict_marker_style,
        written@ == (EnvironmentView {
            path_converter: written.path_converter,
            workspace_name: written.workspace_name,
            conflict_marker_style: written.conflict_marker_style,
            ..env@
        }),
{
}

/// The search for an immutable commit finds one that is both protected and to be
/// rewritten, and comes back without one exactly where no commit is both, as long as it
/// does not fail. For this `resolve` keeps the commits that an expression describes, and
/// `first` gives a commit of an expression, or none where it has none.
pub proof fn law_search_finds_protected_commits<P, X, R, F, G>(
    env: EnvironmentView<P, X>,
    graph: CommitGraph,
    parsed: spec_fn(P) -> Set<Seq<char>>,
    resolved: spec_fn(R) -> Set<Seq<char>>,
    ignore_immutable: bool,
    resolve: F,
    first: G,
    to_rewrite: Arc<ResolvedRevsetExpression<R>>,
    outcome: Result<Option<CommitId>, UserError>,
) where
    F: FnOnce(&IdPrefixContext<P, X>, Arc<UserRevsetExpression<P>>) -> Result<
        Arc<ResolvedRevsetExpression<R>>,
        Reported<RevsetResolutionError>,
    >,
    G: FnOnce(Arc<ResolvedRevsetExpression<R>>) -> Result<
        Option<Result<CommitId, Reported<RevsetEvaluationError>>>,
        Reported<RevsetEvaluationError>,
    >,

    requires
        immutable_commit_outcome(env, ignore_immutable, resolve, first, to_rewrite, outcome),
        forall|
            context: &IdPrefixContext<P, X>,
            expression: Arc<UserRevsetExpression<P>>,
            result: Arc<ResolvedRevsetExpression<R>>,
        |
            *expression == env.protected(ignore_immutable) && #[trigger] call_ensures(
                resolve,
                (context, expression),
                Ok(result),
            ) ==> selected(resolved, *result) == described(graph, parsed, *expression),
        forall|
            expression: Arc<ResolvedRevsetExpression<R>>,
            found: Option<Result<CommitId, Reported<RevsetEvaluationError>>>,
        | #[trigger]
            call_ensures(first, (expression,), Ok(found)) ==> match found {
                Some(Ok(commit_id)) => selected(resolved, *expression).contains(commit_id@),
                Some(Err(_)) => true,
                None => selected(resolved, *expression).is_empty(),
            },
    ensures
        outcome matches Ok(Some(commit_id)) ==> {
            &&& described(graph, parsed, env.protected(ignore_immutable)).contains(commit_id@)
            &&& selected(resolved, *to_rewrite).contains(commit_id@)
        },
        outcome matches Ok(found) ==> (found is None <==> described(
            graph,
            parsed,
            env.protected(ignore_immutable),
        ).disjoint(selected(resolved, *to_rewrite))),
{
    assert forall|a: Set<Seq<char>>, b: Set<Seq<char>>|
        a.intersect(b).is_empty() implies #[trigger] a.disjoint(b) by {
        assert forall|commit: Seq<char>| a.contains(commit) implies !b.contains(commit) by {
            assert(!a.intersect(b).contains(commit));
        }
    }
}

/// The root commit is protected whether or not immutable commits are ignored, as long as
/// there is an immutable head and every commit descends from the root.
pub proof fn law_root_is_protected<P, X>(
    env: EnvironmentView<P, X>,
    graph: CommitGraph,
    parsed: spec_fn(P) -> Set<Seq<char>>,
    head: Seq<char>,
    ignore_immutable: bool,
)
    requires
        graph.is_rooted(),
        graph.parents.contains_key(head),
        described(graph, parsed, *env.immutable_heads_expression).contains(head),
    ensures
        described(graph, parsed, env.protected(ignore_immutable)).contains(graph.root),
{
    assert(graph.is_ancestor(graph.root, head));
}

/// Where immutable commits are ignored, only the root commit is protected.
pub proof fn law_only_root_is_protected_when_ignoring<P, X>(
    env: EnvironmentView<P, X>,
    graph: CommitGraph,
    parsed: spec_fn(P) -> Set<Seq<char>>,
)
    ensures
        described(graph, parsed, env.protected(true)) == set![graph.root],
{
}

} // verus!
