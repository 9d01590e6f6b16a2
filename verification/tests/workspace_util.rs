use std::cell::RefCell;
use std::sync::Arc;

use jj_core::error_model::{
    AnyError, ConfigGetError, Report, Reported, RevsetEvaluationError, RevsetParseError,
    RevsetParseErrorKind, RevsetResolutionError,
};
use jj_core::ids::CommitId;
use jj_core::local_time::{LocalTime, MillisSinceEpoch, Timestamp, MAX_MILLIS, MIN_MILLIS};
use jj_core::revset_expression::{ResolvedRevsetExpression, UserRevsetExpression};
use jj_core::user_error::{user_error, UserError, UserErrorKind};
use jj_core::workspace_util::{
    default_ignored_remote_name, load_fileset_aliases, load_revset_aliases, AliasesMap,
    ConflictMarkerStyle, FsPath, IdPrefixContext, RepoPathUiConverter, RevsetParseContext, Store,
    UserSettings, Workspace, WorkspaceEnvironment,
};

type Env = WorkspaceEnvironment<String, String>;
type Expression = UserRevsetExpression<String>;
type Context<'a> = RevsetParseContext<'a, String, String>;
type Lines = Vec<String>;

fn path(text: &str) -> FsPath {
    FsPath { bytes: text.as_bytes().to_vec() }
}

fn settings(millis: Option<i64>) -> UserSettings {
    UserSettings {
        commit_timestamp: millis
            .map(|m| Timestamp { timestamp: MillisSinceEpoch(m), tz_offset: 0 }),
        user_email: "test.user@example.com".to_string(),
    }
}

fn workspace(millis: Option<i64>) -> Workspace {
    Workspace {
        settings: settings(millis),
        store: Store { git_backend: true },
        workspace_root: path("/repo"),
        workspace_name: "default".to_string(),
    }
}

fn aliases(name: &str) -> AliasesMap {
    AliasesMap { entries: vec![(name.to_string(), "definition".to_string())] }
}

fn not_found() -> Reported<ConfigGetError> {
    Reported {
        error: ConfigGetError::NotFound,
        report: Report { text: "not found".to_string(), source: None },
    }
}

fn wrong_type() -> Reported<ConfigGetError> {
    Reported {
        error: ConfigGetError::Type { source_path: Some("c.toml".to_string()) },
        report: Report { text: "wrong type".to_string(), source: None },
    }
}

fn parse_error() -> Reported<RevsetParseError> {
    Reported {
        error: RevsetParseError {
            kind: RevsetParseErrorKind::SyntaxError,
            kind_text: "syntax".to_string(),
            origin: None,
        },
        report: Report { text: "parse error".to_string(), source: None },
    }
}

fn environment(millis: Option<i64>) -> Env {
    Env::new(
        &workspace(millis),
        path("/repo/sub"),
        Arc::new("extensions".to_string()),
        |table: &str, _: &mut Lines| Ok(aliases(table)),
        |_: &str, _: &mut Lines| Ok(()),
        |name: &str| Ok(name == "ui.revsets-use-glob-by-default"),
        |name: &str| {
            assert_eq!(name, "ui.conflict-marker-style");
            Ok(ConflictMarkerStyle::Snapshot)
        },
        &mut vec![],
    )
    .unwrap_or_else(|_| panic!("the environment loads"))
}

fn text(err: &UserError) -> String {
    match &*err.error {
        AnyError::Message(text) => text.clone(),
        AnyError::Plain(report) => report.text.clone(),
        AnyError::WithMessage(wrapped) => wrapped.message.clone(),
        AnyError::ConfigGet(e) => e.report.text.clone(),
        other => panic!("unexpected error: {:?}", other),
    }
}

fn check_error<T>(result: Result<T, UserError>, kind: UserErrorKind, expected: &str) {
    match result {
        Ok(_) => panic!("should fail"),
        Err(err) => assert_eq!((err.kind, text(&err)), (kind, expected.to_string())),
    }
}

fn parsed(text: &str) -> Arc<Expression> {
    Arc::new(UserRevsetExpression::Parsed(text.to_string()))
}

fn described(expression: &Expression) -> String {
    match expression {
        UserRevsetExpression::Root => "root()".to_string(),
        UserRevsetExpression::Parsed(text) => text.clone(),
        UserRevsetExpression::Ancestors(heads) => format!("::({})", described(heads)),
    }
}

fn short_prefixes(env: &Env) -> Option<String> {
    env.new_id_prefix_context().disambiguation.map(|e| described(&e))
}

#[test]
fn environment_is_loaded_from_the_workspace() {
    let mut env = environment(None);
    assert_eq!(env.workspace_name(), "default");
    assert_eq!(env.conflict_marker_style(), ConflictMarkerStyle::Snapshot);
    let RepoPathUiConverter::Fs { cwd, base } = env.path_converter();
    assert_eq!((&cwd.bytes[..], &base.bytes[..]), (&b"/repo/sub"[..], &b"/repo"[..]));
    assert_eq!(env.revset_extensions().as_str(), "extensions");
    assert_eq!(described(env.immutable_heads_expression()), "root()");
    assert_eq!(described(&env.immutable_expression()), "::(root())");
    assert_eq!(short_prefixes(&env), None);
    assert_eq!(env.revset_aliases_map().entries[0].0, "revset-aliases");
    env.revset_aliases_map().entries.clear();
    assert!(env.revset_aliases_map().entries.is_empty());
}

#[test]
fn fields_hold_what_the_accessors_return() {
    let mut env = environment(None);
    assert_eq!(env.workspace_name, "default");
    assert_eq!(env.conflict_marker_style, ConflictMarkerStyle::Snapshot);
    let RepoPathUiConverter::Fs { cwd, base } = &env.path_converter;
    assert_eq!((&cwd.bytes[..], &base.bytes[..]), (&b"/repo/sub"[..], &b"/repo"[..]));

    env.workspace_name = "other".to_string();
    env.conflict_marker_style = ConflictMarkerStyle::Git;
    assert_eq!(env.workspace_name(), "other");
    assert_eq!(env.conflict_marker_style(), ConflictMarkerStyle::Git);
    assert_eq!(env.revset_aliases_map().entries[0].0, "revset-aliases");
    assert_eq!(described(env.immutable_heads_expression()), "root()");
}

#[test]
fn first_failure_ends_the_loading() {
    let load = |bad_load: &'static str, bad_warn: bool, bad_bool: bool, bad_style: bool| {
        let mut warnings: Lines = vec!["before".to_string()];
        let result = Env::new(
            &workspace(None),
            path("/repo"),
            Arc::new(String::new()),
            |table: &str, warnings: &mut Lines| {
                warnings.push(format!("load {}", table));
                if table == bad_load {
                    Err(user_error(table))
                } else {
                    Ok(aliases(table))
                }
            },
            |table: &str, warnings: &mut Lines| {
                warnings.push(format!("check {}", table));
                if bad_warn {
                    Err(user_error(format!("warn {}", table)))
                } else {
                    Ok(())
                }
            },
            |_: &str| if bad_bool { Err(not_found()) } else { Ok(true) },
            |_: &str| if bad_style { Err(wrong_type()) } else { Ok(ConflictMarkerStyle::Git) },
            &mut warnings,
        );
        (result, warnings)
    };
    let all = ["before", "load fileset-aliases", "load revset-aliases", "check revset-aliases"];
    for ((result, warnings), kind, expected, count) in [
        (load("fileset-aliases", true, true, true), UserErrorKind::User, "fileset-aliases", 2),
        (load("revset-aliases", true, true, true), UserErrorKind::User, "revset-aliases", 3),
        (load("", true, true, true), UserErrorKind::User, "warn revset-aliases", 4),
        (load("", false, true, true), UserErrorKind::Config, "not found", 4),
        (load("", false, false, true), UserErrorKind::Config, "wrong type", 4),
    ] {
        check_error(result, kind, expected);
        assert_eq!(warnings, all[..count]);
    }
    let (result, warnings) = load("", false, false, false);
    assert!(result.is_ok());
    assert_eq!(warnings, all);
}

#[test]
fn aliases_are_read_from_their_tables() {
    let load = |table: &str, warnings: &mut Lines| {
        warnings.push(format!("load {}", table));
        Ok(aliases(table))
    };
    let check = |table: &str, warnings: &mut Lines| {
        warnings.push(format!("check {}", table));
        Ok(())
    };
    let mut warnings: Lines = vec![];
    let map = load_fileset_aliases(load, &mut warnings);
    assert_eq!(map.unwrap().entries[0].0, "fileset-aliases");
    assert_eq!(warnings, ["load fileset-aliases"]);
    let map = load_revset_aliases(load, check, &mut warnings);
    assert_eq!(map.unwrap().entries[0].0, "revset-aliases");
    assert_eq!(
        warnings,
        ["load fileset-aliases", "load revset-aliases", "check revset-aliases"]
    );

    // A table that does not load is not checked
    let map = load_revset_aliases(
        |_: &str, _: &mut Lines| Err(user_error("load")),
        |_: &str, _: &mut Lines| panic!("should not be called"),
        &mut warnings,
    );
    check_error(map, UserErrorKind::User, "load");
    assert_eq!(warnings.len(), 3);
}

#[test]
fn git_remote_is_ignored_by_default() {
    assert_eq!(default_ignored_remote_name(&Store { git_backend: true }), Some("git"));
    assert_eq!(default_ignored_remote_name(&Store { git_backend: false }), None);
}

#[test]
fn fileset_parse_contexts() {
    let env = environment(None);
    let context = env.fileset_parse_context();
    assert_eq!(context.aliases_map.entries[0].0, "fileset-aliases");
    let RepoPathUiConverter::Fs { cwd, base } = context.path_converter.get();
    assert_eq!((&cwd.bytes[..], &base.bytes[..]), (&b"/repo/sub"[..], &b"/repo"[..]));

    let context = env.fileset_parse_context_for_config();
    assert_eq!(context.aliases_map.entries[0].0, "fileset-aliases");
    let RepoPathUiConverter::Fs { cwd, base } = context.path_converter.get();
    assert!(cwd.bytes.is_empty() && base.bytes.is_empty());
}

#[test]
fn revset_parse_context_uses_the_configured_time() {
    for (millis, secs, nanos) in [
        (981147905500, 981147905, 500000000),
        (0, 0, 0),
        (-1, -1, 999000000),
        (MIN_MILLIS, -8334601228800, 0),
        (MAX_MILLIS, 8210266876799, 999000000),
    ] {
        let env = environment(Some(millis));
        let now = env.revset_parse_context().date_pattern_context.now;
        assert_eq!((now.secs, now.nanos), (secs, nanos));
        assert!(-86400 < now.utc_offset && now.utc_offset < 86400);
    }
}

#[test]
fn configured_time_may_lie_outside_the_calendar() {
    for millis in [None, Some(0), Some(MIN_MILLIS), Some(MAX_MILLIS)] {
        assert!(environment(millis).in_calendar());
    }
    for millis in [MIN_MILLIS - 1, MAX_MILLIS + 1, i64::MIN, i64::MAX] {
        assert!(!environment(Some(millis)).in_calendar());
    }
}

#[test]
fn calendar_ends_where_the_local_time_does() {
    let at = |millis| chrono::TimeZone::timestamp_millis_opt(&chrono::Utc, millis).single();
    assert!(at(MIN_MILLIS).is_some() && at(MIN_MILLIS - 1).is_none());
    assert!(at(MAX_MILLIS).is_some() && at(MAX_MILLIS + 1).is_none());
}

#[test]
fn revset_parse_context_falls_back_to_the_clock() {
    let env = environment(None);
    let before = chrono::Utc::now().timestamp();
    let now = env.revset_parse_context().date_pattern_context.now;
    let after = chrono::Utc::now().timestamp();
    assert!(before <= now.secs && now.secs <= after);
    assert!(now.nanos < 1000000000);
}

#[test]
fn revset_parse_context_holds_the_environment() {
    let env = environment(None);
    let now = LocalTime { secs: 12, nanos: 34, utc_offset: 3600 };
    let context = env.revset_parse_context_at(now);
    let at = context.date_pattern_context.now;
    assert_eq!((at.secs, at.nanos, at.utc_offset), (12, 34, 3600));
    assert_eq!(context.aliases_map.entries[0].0, "revset-aliases");
    assert!(context.local_variables.is_empty());
    assert_eq!(context.user_email, "test.user@example.com");
    assert_eq!(context.default_ignored_remote, Some("git"));
    assert_eq!(context.fileset_aliases_map.entries[0].0, "fileset-aliases");
    assert!(context.use_glob_by_default);
    assert_eq!(context.extensions.as_str(), "extensions");
    let workspace = context.workspace.unwrap();
    assert_eq!(workspace.workspace_name, "default");
    let RepoPathUiConverter::Fs { cwd, .. } = workspace.path_converter;
    assert_eq!(&cwd.bytes[..], b"/repo/sub");
}

#[test]
fn reloading_updates_both_expressions() {
    let mut env = environment(None);
    let (mut heads, mut prefixes): (Lines, Lines) = (vec![], vec![]);
    let result = env.reload_revset_expressions(
        &mut heads,
        &mut prefixes,
        |diagnostics: &mut Lines, context: &Context<'_>| {
            diagnostics.push("heads".to_string());
            assert_eq!(context.user_email, "test.user@example.com");
            Ok(parsed("trunk()"))
        },
        |name: &str| {
            assert_eq!(name, "revsets.short-prefixes");
            Ok("mine()".to_string())
        },
        |diagnostics: &mut Lines, revset: &str, context: &Context<'_>| {
            diagnostics.push(revset.to_string());
            assert_eq!(context.extensions.as_str(), "extensions");
            Ok(parsed(revset))
        },
    );
    assert!(result.is_ok());
    assert_eq!((heads, prefixes), (vec!["heads".to_string()], vec!["mine()".to_string()]));
    assert_eq!(described(env.immutable_heads_expression()), "trunk()");
    assert_eq!(described(&env.immutable_expression()), "::(trunk())");
    assert_eq!(short_prefixes(&env), Some("mine()".to_string()));
    assert_eq!(env.new_id_prefix_context().extensions.as_str(), "extensions");
}

/// Reloads with parsers that leave a line each; returns the lines of both.
fn reload_with_lines(
    env: &mut Env,
    heads: Result<&str, ()>,
    get: impl Fn(&str) -> Result<String, Reported<ConfigGetError>>,
    fail_parse: bool,
) -> (Result<(), UserError>, Lines, Lines) {
    let (mut heads_lines, mut prefixes_lines): (Lines, Lines) = (vec![], vec![]);
    let result = env.reload_revset_expressions(
        &mut heads_lines,
        &mut prefixes_lines,
        |lines: &mut Lines, _: &Context<'_>| {
            lines.push("heads".to_string());
            heads.map(parsed).map_err(|()| parse_error())
        },
        get,
        |lines: &mut Lines, revset: &str, _: &Context<'_>| {
            lines.push(revset.to_string());
            if fail_parse { Err(parse_error()) } else { Ok(parsed(revset)) }
        },
    );
    (result, heads_lines, prefixes_lines)
}

fn reload(
    env: &mut Env,
    heads: Result<&str, ()>,
    get: impl Fn(&str) -> Result<String, Reported<ConfigGetError>>,
    fail_parse: bool,
) -> Result<(), UserError> {
    reload_with_lines(env, heads, get, fail_parse).0
}

#[test]
fn diagnostics_change_only_where_something_is_parsed() {
    let none: Lines = vec![];
    let mut env = environment(None);

    // An empty revset is not parsed
    let (result, heads, prefixes) =
        reload_with_lines(&mut env, Ok("h"), |_: &str| Ok(String::new()), false);
    assert!(result.is_ok());
    assert_eq!((heads, &prefixes), (vec!["heads".to_string()], &none));

    // A value that cannot be read is not parsed
    let (result, _, prefixes) =
        reload_with_lines(&mut env, Ok("h"), |_: &str| Err(wrong_type()), false);
    assert!(result.is_err());
    assert_eq!(prefixes, none);

    // Nothing is parsed after the immutable heads failed
    let (result, heads, prefixes) =
        reload_with_lines(&mut env, Err(()), |_: &str| Ok("::@".to_string()), false);
    assert!(result.is_err());
    assert_eq!((heads, prefixes), (vec!["heads".to_string()], none));

    // A revset that cannot be parsed leaves its diagnostics
    let (result, _, prefixes) =
        reload_with_lines(&mut env, Ok("h"), |_: &str| Ok("::@".to_string()), true);
    assert!(result.is_err());
    assert_eq!(prefixes, ["::@"]);
}

#[test]
fn short_prefixes_default_to_the_log() {
    let log = |name: &str| match name {
        "revsets.log" => Ok("::@".to_string()),
        _ => Err(not_found()),
    };
    let mut env = environment(None);
    assert!(reload(&mut env, Ok("h"), log, false).is_ok());
    assert_eq!(short_prefixes(&env), Some("::@".to_string()));

    // An empty revset turns short prefixes off
    assert!(reload(&mut env, Ok("h"), |_: &str| Ok(String::new()), true).is_ok());
    assert_eq!(short_prefixes(&env), None);
}

#[test]
fn failed_reload_of_immutable_heads_changes_nothing() {
    let mut env = environment(None);
    assert!(reload(&mut env, Ok("old"), |_: &str| Ok("prefixes".to_string()), false).is_ok());
    let result = reload(&mut env, Err(()), |_: &str| Ok("new".to_string()), false);
    check_error(result, UserErrorKind::Config, "Invalid `revset-aliases.immutable_heads()`");
    assert_eq!(described(env.immutable_heads_expression()), "old");
    assert_eq!(short_prefixes(&env), Some("prefixes".to_string()));
}

#[test]
fn failed_reload_of_short_prefixes_keeps_new_heads() {
    let mut env = environment(None);
    assert!(reload(&mut env, Ok("old"), |_: &str| Ok("prefixes".to_string()), false).is_ok());

    let result = reload(&mut env, Ok("new"), |_: &str| Ok("bad".to_string()), true);
    check_error(result, UserErrorKind::Config, "Invalid `revsets.short-prefixes`");
    assert_eq!(described(env.immutable_heads_expression()), "new");
    assert_eq!(short_prefixes(&env), Some("prefixes".to_string()));

    let result = reload(&mut env, Ok("newer"), |_: &str| Err(wrong_type()), false);
    check_error(result, UserErrorKind::Config, "wrong type");
    assert_eq!(described(env.immutable_heads_expression()), "newer");

    let result = reload(&mut env, Ok("newest"), |_: &str| Err(not_found()), false);
    check_error(result, UserErrorKind::Config, "not found");
    assert_eq!(described(env.immutable_heads_expression()), "newest");
    assert_eq!(short_prefixes(&env), Some("prefixes".to_string()));
}

type Resolved = ResolvedRevsetExpression<String>;
type Found = Result<
    Option<Result<CommitId, Reported<RevsetEvaluationError>>>,
    Reported<RevsetEvaluationError>,
>;

fn evaluation_error(text: &str) -> Reported<RevsetEvaluationError> {
    Reported {
        error: RevsetEvaluationError,
        report: Report { text: text.to_string(), source: None },
    }
}

fn resolved(expression: &Resolved) -> String {
    match expression {
        ResolvedRevsetExpression::Resolved(text) => text.clone(),
        ResolvedRevsetExpression::Intersection(left, right) => {
            format!("{} & {}", resolved(left), resolved(right))
        }
    }
}

fn find(
    env: &Env,
    ignore_immutable: bool,
    fail_resolve: bool,
    found: Found,
) -> (String, Result<Option<CommitId>, UserError>) {
    let evaluated: RefCell<String> = RefCell::new(String::new());
    let to_rewrite = Arc::new(ResolvedRevsetExpression::Resolved("rewrite".to_string()));
    let result = env.find_immutable_commit(
        |context: &IdPrefixContext<String, String>, expression: Arc<Expression>| {
            assert!(context.disambiguation.is_none());
            if fail_resolve {
                Err(Reported {
                    error: RevsetResolutionError::EmptyString,
                    report: Report { text: "resolution".to_string(), source: None },
                })
            } else {
                Ok(Arc::new(ResolvedRevsetExpression::Resolved(described(&expression))))
            }
        },
        |expression: Arc<Resolved>| {
            *evaluated.borrow_mut() = resolved(&expression);
            found
        },
        &to_rewrite,
        ignore_immutable,
    );
    (evaluated.into_inner(), result)
}

#[test]
fn immutable_commit_is_searched_among_those_to_rewrite() {
    let mut env = environment(None);
    assert!(reload(&mut env, Ok("trunk()"), |_: &str| Ok("mine()".to_string()), false).is_ok());

    let id = CommitId { hex: "abc".to_string() };
    let (evaluated, result) = find(&env, false, false, Ok(Some(Ok(id))));
    assert_eq!(evaluated, "::(trunk()) & rewrite");
    assert_eq!(result.unwrap().unwrap().hex, "abc");

    let (evaluated, result) = find(&env, true, false, Ok(None));
    assert_eq!(evaluated, "root() & rewrite");
    assert!(result.unwrap().is_none());
}

#[test]
fn search_for_immutable_commit_fails() {
    let env = environment(None);
    let (evaluated, result) = find(&env, false, true, Ok(None));
    assert_eq!(evaluated, "");
    check_error(result, UserErrorKind::Config, "Invalid `revset-aliases.immutable_heads()`");

    let (_, result) = find(&env, false, false, Err(evaluation_error("evaluate")));
    check_error(result, UserErrorKind::User, "evaluate");
    let (_, result) = find(&env, false, false, Ok(Some(Err(evaluation_error("iterate")))));
    check_error(result, UserErrorKind::User, "iterate");
}

/// The commits that an expression holds, each named by a letter.
fn letters(expression: &Resolved) -> Vec<char> {
    match expression {
        ResolvedRevsetExpression::Resolved(text) => text.chars().collect(),
        ResolvedRevsetExpression::Intersection(left, right) => {
            let right = letters(right);
            letters(left).into_iter().filter(|c| right.contains(c)).collect()
        }
    }
}

#[test]
fn found_commit_is_protected_and_to_be_rewritten() {
    let env = environment(None);
    let find = |protected: &str, to_rewrite: &str| {
        let to_rewrite = Arc::new(ResolvedRevsetExpression::Resolved(to_rewrite.to_string()));
        env.find_immutable_commit(
            |_: &IdPrefixContext<String, String>, _: Arc<Expression>| {
                Ok(Arc::new(ResolvedRevsetExpression::Resolved(protected.to_string())))
            },
            |expression: Arc<Resolved>| {
                let first = letters(&expression).first().map(|c| c.to_string());
                Ok(first.map(|hex| Ok(CommitId { hex })))
            },
            &to_rewrite,
            false,
        )
        .unwrap()
        .map(|commit_id| commit_id.hex)
    };
    assert_eq!(find("abc", "xcb"), Some("b".to_string()));
    assert_eq!(find("abc", "c"), Some("c".to_string()));
    assert_eq!(find("abc", "xyz"), None);
    assert_eq!(find("", "xyz"), None);
}
