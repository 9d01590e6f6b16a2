use jj_core::error_model::{
    AbsorbError, AnyError, BackendError, BisectionError, CheckOutCommitError, ConfigFileSaveError,
    ConfigGetError, ConfigLoadError, ConfigMigrateError, EditCommitError, ErrorWithMessage,
    FilesetParseError, FilesetParseErrorKind, FixError, FsPathParseError, GitDefaultRefspecError,
    GitExportError, GitFetchError, GitIgnoreError, GitImportError, GitPushError,
    GitRefExpansionError, GitRemoteManagementError, GitResetHeadError, IndexError, IoError,
    IoErrorKind, OpHeadResolutionError, OpHeadsStoreError, OpStoreError, OpsetEvaluationError,
    OpsetResolutionError, PathError, RecoverWorkspaceError, RenameWorkspaceError, RepoLoaderError,
    Report, Reported, ResetError, RevsetEvaluationError, RevsetParseError, RevsetParseErrorKind,
    RevsetResolutionError, RewriteRootCommit, SecureConfigError, SignInitError, SnapshotError,
    TrailerParseError, TransactionCommitError, UiPathParseError, UnexpectedGitBackendError,
    UserRevsetEvaluationError, WalkPredecessorsError, WorkingCopyStateError, WorkspaceInitError,
    WorkspaceStoreError,
};
use jj_core::ids::OperationId;
use jj_core::user_error::{
    config_error, config_error_with_message, internal_error, internal_error_with_message,
    user_error, user_error_with_message, ErrorHint, FormatRecorder, PresentError, UserError,
    UserErrorKind,
};

fn named<E>(error: E, text: &str) -> Reported<E> {
    Reported { error, report: Report { text: text.to_string(), source: None } }
}

fn text(err: &AnyError) -> String {
    match err {
        AnyError::Message(text) => text.clone(),
        AnyError::WithMessage(wrapped) => wrapped.message.clone(),
        AnyError::Plain(report) => report.text.clone(),
        AnyError::ConfigGet(e) => e.report.text.clone(),
        AnyError::FilePatternParse(e) => e.report.text.clone(),
        AnyError::FilesetParse(e) => e.report.text.clone(),
        AnyError::RevsetParse(e) => e.report.text.clone(),
        AnyError::RevsetResolution(e) => e.report.text.clone(),
        AnyError::StringPatternParse(e) => e.report.text.clone(),
    }
}

fn hints(err: &UserError) -> Vec<String> {
    err.hints
        .iter()
        .map(|hint| match hint {
            ErrorHint::PlainText(text) => text.clone(),
            ErrorHint::Formatted(recorder) => format!("formatted: {:?}", recorder.data),
        })
        .collect()
}

/// The kind, the text of the error and of each error below it, and the hints.
fn shown(err: &UserError) -> (UserErrorKind, Vec<String>, Vec<String>) {
    let mut texts = vec![text(&err.error)];
    let mut source = err.error.source();
    while let Some(e) = source {
        texts.push(text(e));
        source = e.source();
    }
    (err.kind, texts, hints(err))
}

/// Presents `error`, which prints "inner", and checks what is shown.
fn check<E: PresentError>(error: E, kind: UserErrorKind, texts: &[&str], hints: &[&str]) {
    let err = UserError::from(named(error, "inner"));
    let strings = |list: &[&str]| -> Vec<String> { list.iter().map(|s| s.to_string()).collect() };
    assert_eq!(shown(&err), (kind, strings(texts), strings(hints)));
}

const USER: UserErrorKind = UserErrorKind::User;
const CONFIG: UserErrorKind = UserErrorKind::Config;
const INTERNAL: UserErrorKind = UserErrorKind::Internal;

#[test]
fn constructors_set_the_kind() {
    assert_eq!(user_error("a").kind, USER);
    assert_eq!(config_error("a").kind, CONFIG);
    assert_eq!(internal_error("a".to_string()).kind, INTERNAL);
    assert_eq!(UserError::new(UserErrorKind::Cli, "a").kind, UserErrorKind::Cli);
    assert_eq!(text(&user_error("a").error), "a");
    assert!(user_error("a").hints.is_empty());
    assert!(user_error("a").error.source().is_none());
}

#[test]
fn message_is_put_over_the_source() {
    for (err, kind) in [
        (user_error_with_message("message", "source"), USER),
        (config_error_with_message("message", "source"), CONFIG),
        (internal_error_with_message("message".to_string(), "source"), INTERNAL),
        (
            UserError::with_message(UserErrorKind::Cli, "message", "source".to_string()),
            UserErrorKind::Cli,
        ),
    ] {
        let texts = vec!["message".to_string(), "source".to_string()];
        assert_eq!(shown(&err), (kind, texts, vec![]));
    }
    let wrapped = ErrorWithMessage::new("message", "source");
    assert_eq!(wrapped.message, "message");
    assert_eq!(text(&wrapped.source), "source");
}

#[test]
fn hints_are_appended_in_order() {
    let mut err = user_error("a").hinted("first");
    err.add_hint("second".to_string());
    err.extend_hints(vec![]);
    err.extend_hints(vec!["third".to_string(), "fourth".to_string()]);
    assert_eq!(hints(&err), vec!["first", "second", "third", "fourth"]);
    assert_eq!(err.kind, USER);
    assert_eq!(text(&err.error), "a");
    assert_eq!(hints(&err.clone()), hints(&err));
}

#[test]
fn formatted_hints_are_recorded() {
    let mut err = user_error("a").hinted("plain");
    let mut recorder = FormatRecorder::new(false);
    recorder.data.push(1);
    err.add_formatted_hint(recorder);
    err.add_formatted_hint_with(|formatter: &mut FormatRecorder| {
        assert!(formatter.maybe_color);
        formatter.data.extend([2, 3]);
        Ok(())
    });
    assert_eq!(hints(&err), vec!["plain", "formatted: [1]", "formatted: [2, 3]"]);
}

#[test]
fn io_errors() {
    check(IoError { kind: IoErrorKind::BrokenPipe }, UserErrorKind::BrokenPipe, &["inner"], &[]);
    check(IoError { kind: IoErrorKind::Other }, USER, &["inner"], &[]);
    check(PathError, USER, &["inner"], &[]);
}

#[test]
fn config_errors() {
    let path = || Some("c.toml".to_string());
    let hint = "Check the config file: c.toml";
    check(ConfigFileSaveError, USER, &["inner"], &[]);
    check(ConfigGetError::NotFound, CONFIG, &["inner"], &[]);
    check(ConfigGetError::Type { source_path: path() }, CONFIG, &["inner"], &[hint]);
    check(ConfigGetError::Type { source_path: None }, CONFIG, &["inner"], &[]);
    check(ConfigLoadError::Read, CONFIG, &["inner"], &[]);
    check(ConfigLoadError::Parse { source_path: path() }, CONFIG, &["inner"], &[hint]);
    check(ConfigLoadError::Parse { source_path: None }, CONFIG, &["inner"], &[]);
    check(ConfigMigrateError { source_path: path() }, CONFIG, &["inner"], &[hint]);
    check(ConfigMigrateError { source_path: None }, CONFIG, &["inner"], &[]);
    check(
        SecureConfigError,
        INTERNAL,
        &["Failed to determine the secure config for a repo", "inner"],
        &[],
    );
}

#[test]
fn errors_under_a_fixed_message() {
    let i = "inner";
    check(RewriteRootCommit, INTERNAL, &["Attempted to rewrite the root commit", i], &[]);
    check(EditCommitError, INTERNAL, &["Failed to edit a commit", i], &[]);
    check(CheckOutCommitError, INTERNAL, &["Failed to check out a commit", i], &[]);
    check(RenameWorkspaceError, USER, &["Failed to rename a workspace", i], &[]);
    check(IndexError, INTERNAL, &["Unexpected error from index", i], &[]);
    check(OpHeadsStoreError, INTERNAL, &["Unexpected error from operation heads store", i], &[]);
    check(WorkspaceStoreError, INTERNAL, &["Unexpected error from workspace store", i], &[]);
    check(OpHeadResolutionError::NoHeads, INTERNAL, &["Corrupt repository", i], &[]);
    check(SnapshotError, INTERNAL, &["Failed to snapshot the working copy", i], &[]);
    check(OpStoreError, INTERNAL, &["Failed to load an operation", i], &[]);
    check(RepoLoaderError, INTERNAL, &["Failed to load the repo", i], &[]);
    check(ResetError, INTERNAL, &["Failed to reset the working copy", i], &[]);
    check(WorkingCopyStateError, INTERNAL, &["Failed to access working copy state", i], &[]);
    check(GitIgnoreError, USER, &["Failed to process .gitignore.", i], &[]);
    check(GitExportError, USER, &["Failed to export refs to underlying Git repo", i], &[]);
    check(GitResetHeadError, USER, &["Failed to reset Git HEAD state", i], &[]);
}

#[test]
fn errors_shown_as_they_are() {
    let i = "inner";
    check(TransactionCommitError, INTERNAL, &[i], &[]);
    check(TrailerParseError, USER, &[i], &[]);
    check(RevsetEvaluationError, USER, &[i], &[]);
    let fs = FsPathParseError { quoted_repo_path: None };
    check(UiPathParseError::Fs(fs), USER, &[i], &[]);
    check(BisectionError::RevsetEvaluationError, USER, &[i], &[]);
    check(GitRemoteManagementError, USER, &[i], &[]);
    check(UnexpectedGitBackendError, USER, &[i], &[]);
    check(GitDefaultRefspecError::NoSuchRemote, USER, &[i], &[]);
    check(GitDefaultRefspecError::InvalidRemoteConfiguration, USER, &[i], &[]);
}

#[test]
fn backend_errors() {
    check(BackendError::Unsupported, USER, &["inner"], &[]);
    check(BackendError::Other, INTERNAL, &["Unexpected error from backend", "inner"], &[]);
}

#[test]
fn workspace_init_errors() {
    let part = "part";
    check(
        WorkspaceInitError::DestinationExists,
        USER,
        &["The target repo already exists"],
        &[],
    );
    check(WorkspaceInitError::EncodeRepoPath, USER, &["inner"], &[]);
    check(
        WorkspaceInitError::CheckOutCommit(named(CheckOutCommitError, part)),
        INTERNAL,
        &["Failed to check out the initial commit", part],
        &[],
    );
    check(
        WorkspaceInitError::Path(named(PathError, part)),
        INTERNAL,
        &["Failed to access the repository", part],
        &[],
    );
    check(
        WorkspaceInitError::OpHeadsStore(named(OpHeadsStoreError, part)),
        USER,
        &["Failed to record initial operation", part],
        &[],
    );
    check(
        WorkspaceInitError::WorkspaceStore(named(WorkspaceStoreError, part)),
        INTERNAL,
        &["Failed to record workspace path", part],
        &[],
    );
    check(
        WorkspaceInitError::Backend(named(BackendError::Other, part)),
        USER,
        &["Failed to access the repository", part],
        &[],
    );
    check(
        WorkspaceInitError::WorkingCopyState(named(WorkingCopyStateError, part)),
        INTERNAL,
        &["Failed to access the repository", part],
        &[],
    );
    check(WorkspaceInitError::SignInit(named(SignInitError, part)), USER, &[part], &[]);
    check(
        WorkspaceInitError::TransactionCommit(named(TransactionCommitError, part)),
        INTERNAL,
        &[part],
        &[],
    );
}

#[test]
fn wrapping_errors_are_shown_as_what_they_wrap() {
    let part = "part";
    let backend = || named(BackendError::Other, part);
    let backend_texts = ["Unexpected error from backend", part];
    check(WalkPredecessorsError::Backend(backend()), INTERNAL, &backend_texts, &[]);
    check(
        WalkPredecessorsError::Index(named(IndexError, part)),
        INTERNAL,
        &["Unexpected error from index", part],
        &[],
    );
    check(
        WalkPredecessorsError::OpStore(named(OpStoreError, part)),
        INTERNAL,
        &["Failed to load an operation", part],
        &[],
    );
    check(WalkPredecessorsError::CycleDetected, INTERNAL, &["inner"], &[]);

    check(RecoverWorkspaceError::Backend(backend()), INTERNAL, &backend_texts, &[]);
    check(
        RecoverWorkspaceError::Reset(named(ResetError, part)),
        INTERNAL,
        &["Failed to reset the working copy", part],
        &[],
    );
    check(
        RecoverWorkspaceError::RewriteRootCommit(named(RewriteRootCommit, part)),
        INTERNAL,
        &["Attempted to rewrite the root commit", part],
        &[],
    );
    check(
        RecoverWorkspaceError::TransactionCommit(named(TransactionCommitError, part)),
        INTERNAL,
        &[part],
        &[],
    );
    check(RecoverWorkspaceError::WorkspaceMissingWorkingCopy, USER, &["inner"], &[]);

    check(AbsorbError::Backend(backend()), INTERNAL, &backend_texts, &[]);
    check(AbsorbError::RevsetEvaluation(named(RevsetEvaluationError, part)), USER, &[part], &[]);

    check(FixError::Backend(backend()), INTERNAL, &backend_texts, &[]);
    check(FixError::RevsetEvaluation(named(RevsetEvaluationError, part)), USER, &[part], &[]);
    check(
        FixError::Io(named(IoError { kind: IoErrorKind::BrokenPipe }, part)),
        UserErrorKind::BrokenPipe,
        &[part],
        &[],
    );
    check(
        FixError::FixContent(AnyError::Message(part.to_string())),
        INTERNAL,
        &["An error occurred while attempting to fix file content", part],
        &[],
    );

    check(
        UserRevsetEvaluationError::Resolution(named(RevsetResolutionError::EmptyString, part)),
        USER,
        &[part],
        &[],
    );
    check(
        UserRevsetEvaluationError::Evaluation(named(RevsetEvaluationError, part)),
        USER,
        &[part],
        &[],
    );
}

#[test]
fn opset_errors() {
    let part = "part";
    let candidates = vec![OperationId { hex: "0123456789abcdef".to_string() }];
    check(
        OpsetEvaluationError::OpsetResolution(named(
            OpsetResolutionError::MultipleOperations { candidates },
            part,
        )),
        USER,
        &[part],
        &["Try specifying one of the operations by ID: 0123456789ab"],
    );
    check(
        OpsetEvaluationError::OpsetResolution(named(OpsetResolutionError::NoSuchOperation, part)),
        USER,
        &[part],
        &[],
    );
    check(
        OpsetEvaluationError::OpHeadResolution(named(OpHeadResolutionError::NoHeads, part)),
        INTERNAL,
        &["Corrupt repository", part],
        &[],
    );
    check(
        OpsetEvaluationError::OpHeadsStore(named(OpHeadsStoreError, part)),
        INTERNAL,
        &["Unexpected error from operation heads store", part],
        &[],
    );
    check(
        OpsetEvaluationError::OpStore(named(OpStoreError, part)),
        INTERNAL,
        &["Failed to load an operation", part],
        &[],
    );
}

#[test]
fn git_errors() {
    let i = "inner";
    let partial = "Is this Git repository a partial clone (cloned with the --filter \
                   argument)?\njj currently does not support partial clones. To use jj with this \
                   repository, try re-cloning with the full repository contents.";
    let import = ["Failed to import refs from underlying Git repo", i];
    check(GitImportError::MissingHeadTarget, USER, &import, &[partial]);
    check(GitImportError::MissingRefAncestor, USER, &import, &[partial]);
    check(GitImportError::Backend, USER, &import, &[]);
    check(GitImportError::Index, USER, &import, &[]);
    check(GitImportError::Git, USER, &import, &[]);
    check(GitImportError::UnexpectedBackend, USER, &import, &[]);

    let rename = "Run `jj git remote rename` to give a different name.";
    check(GitFetchError::NoSuchRemote, USER, &[i], &[]);
    check(GitFetchError::RemoteName, USER, &[i], &[rename]);
    check(GitFetchError::RejectedUpdates, USER, &[i], &[]);
    check(GitFetchError::Subprocess, USER, &[i], &[]);
    check(GitPushError::NoSuchRemote, USER, &[i], &[]);
    check(GitPushError::RemoteName, USER, &[i], &[rename]);
    check(GitPushError::Subprocess, USER, &[i], &[]);
    check(GitPushError::UnexpectedBackend, USER, &[i], &[]);

    let form = "Specify patterns in `(positive | ...) & ~(negative | ...)` form.";
    check(GitRefExpansionError::Expression, USER, &[i], &[form]);
    check(GitRefExpansionError::InvalidBranchPattern, USER, &[i], &[]);
}

#[test]
fn parse_errors_name_their_kind() {
    let candidates = vec!["heads".to_string()];
    check(
        FilesetParseError {
            kind: FilesetParseErrorKind::RecursiveAlias,
            kind_text: "Alias `a` expanded recursively".to_string(),
        },
        USER,
        &["Failed to parse fileset: Alias `a` expanded recursively", "inner"],
        &[],
    );
    check(
        RevsetParseError {
            kind: RevsetParseErrorKind::NoSuchFunction { name: "head".to_string(), candidates },
            kind_text: "Function `head` doesn't exist".to_string(),
            origin: None,
        },
        USER,
        &["Failed to parse revset: Function `head` doesn't exist", "inner"],
        &["Did you mean `heads`?"],
    );
    let candidates = vec!["main".to_string()];
    check(
        RevsetResolutionError::NoSuchRevision { name: "mian".to_string(), candidates },
        USER,
        &["inner"],
        &["Did you mean `main`?"],
    );
}
