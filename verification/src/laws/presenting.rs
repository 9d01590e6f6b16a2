//! Laws on how each error is presented to the user: who is at fault, what is said, what
//! remains of the error that was given, and which hints follow.

use vstd::prelude::*;

use crate::error_model::{
    AbsorbError, AnyError, BackendError, BisectionError, CheckOutCommitError, ConfigFileSaveError,
    ConfigGetError, ConfigLoadError, ConfigMigrateError, EditCommitError, FilesetParseError,
    FixError, GitDefaultRefspecError, GitExportError, GitFetchError, GitIgnoreError,
    GitImportError, GitPushError, GitRefExpansionError, GitRemoteManagementError,
    GitResetHeadError, IndexError, IoError, IoErrorKind, OpHeadResolutionError, OpHeadsStoreError,
    OpStoreError, OpsetEvaluationError, PathError, RecoverWorkspaceError, RenameWorkspaceError,
    RepoLoaderError, Report, Reported, ResetError, RevsetEvaluationError, RevsetParseError,
    RevsetResolutionError, RewriteRootCommit, SecureConfigError, SnapshotError, TrailerParseError,
    TransactionCommitError, UiPathParseError, UnexpectedGitBackendError,
    UserRevsetEvaluationError, WalkPredecessorsError, WorkingCopyStateError, WorkspaceInitError,
    WorkspaceStoreError,
};
use crate::hints::{
    fileset_parse_error_hint, opset_resolution_error_hint, revset_parse_error_hint,
    revset_resolution_error_hints,
};
use crate::laws::errors::{
    hints_read, lemma_hints, lemma_hints_read, lemma_same_to_the_user, same_to_the_user,
    shown_as_is, shown_under,
};
use crate::text::texts;
use crate::user_error::{PresentError, UserError, UserErrorKind, UserErrorView};

verus! {

/// `shown` is what the user sees of `err`.
pub open spec fn is_shown<E: PresentError>(err: Reported<E>, shown: UserError) -> bool {
    call_ensures(<E as PresentError>::present, (err,), shown)
}

/// Converting an error and presenting it is the same.
pub proof fn law_conversion_presents<E: PresentError>(
    err: Reported<E>,
    converted: UserError,
    presented: UserError,
)
    requires
        call_ensures(<UserError as From<Reported<E>>>::from, (err,), converted),
        is_shown(err, presented),
    ensures
        same_to_the_user(converted, presented),
{
    lemma_same_to_the_user(converted, presented);
}

/// These errors are the user's to deal with, in every case. They are shown as they are,
/// without a hint.
pub proof fn law_plain_user_errors()
    ensures
        forall|err: Reported<PathError>, r: UserError| #[trigger]
            is_shown(err, r) ==> shown_as_is(r, UserErrorKind::User, AnyError::Plain(err.report))
                && r.hints@.len() == 0,
        forall|err: Reported<ConfigFileSaveError>, r: UserError| #[trigger]
            is_shown(err, r) ==> shown_as_is(r, UserErrorKind::User, AnyError::Plain(err.report))
                && r.hints@.len() == 0,
        forall|err: Reported<TrailerParseError>, r: UserError| #[trigger]
            is_shown(err, r) ==> shown_as_is(r, UserErrorKind::User, AnyError::Plain(err.report))
                && r.hints@.len() == 0,
        forall|err: Reported<RevsetEvaluationError>, r: UserError| #[trigger]
            is_shown(err, r) ==> shown_as_is(r, UserErrorKind::User, AnyError::Plain(err.report))
                && r.hints@.len() == 0,
        forall|err: Reported<UiPathParseError>, r: UserError| #[trigger]
            is_shown(err, r) ==> shown_as_is(r, UserErrorKind::User, AnyError::Plain(err.report))
                && r.hints@.len() == 0,
        forall|err: Reported<BisectionError>, r: UserError| #[trigger]
            is_shown(err, r) ==> shown_as_is(r, UserErrorKind::User, AnyError::Plain(err.report))
                && r.hints@.len() == 0,
        forall|err: Reported<GitDefaultRefspecError>, r: UserError| #[trigger]
            is_shown(err, r) ==> shown_as_is(r, UserErrorKind::User, AnyError::Plain(err.report))
                && r.hints@.len() == 0,
        forall|err: Reported<GitRemoteManagementError>, r: UserError| #[trigger]
            is_shown(err, r) ==> shown_as_is(r, UserErrorKind::User, AnyError::Plain(err.report))
                && r.hints@.len() == 0,
        forall|err: Reported<UnexpectedGitBackendError>, r: UserError| #[trigger]
            is_shown(err, r) ==> shown_as_is(r, UserErrorKind::User, AnyError::Plain(err.report))
                && r.hints@.len() == 0,
{
    assert forall|err: Reported<PathError>, r: UserError| #[trigger]
        is_shown(err, r) implies shown_as_is(r, UserErrorKind::User, AnyError::Plain(err.report))
        && r.hints@.len() == 0 by {
        lemma_hints(r);
    }
    assert forall|err: Reported<ConfigFileSaveError>, r: UserError| #[trigger]
        is_shown(err, r) implies shown_as_is(r, UserErrorKind::User, AnyError::Plain(err.report))
        && r.hints@.len() == 0 by {
        lemma_hints(r);
    }
    assert forall|err: Reported<TrailerParseError>, r: UserError| #[trigger]
        is_shown(err, r) implies shown_as_is(r, UserErrorKind::User, AnyError::Plain(err.report))
        && r.hints@.len() == 0 by {
        lemma_hints(r);
    }
    assert forall|err: Reported<RevsetEvaluationError>, r: UserError| #[trigger]
        is_shown(err, r) implies shown_as_is(r, UserErrorKind::User, AnyError::Plain(err.report))
        && r.hints@.len() == 0 by {
        lemma_hints(r);
    }
    assert forall|err: Reported<UiPathParseError>, r: UserError| #[trigger]
        is_shown(err, r) implies shown_as_is(r, UserErrorKind::User, AnyError::Plain(err.report))
        && r.hints@.len() == 0 by {
        lemma_hints(r);
    }
    assert forall|err: Reported<BisectionError>, r: UserError| #[trigger]
        is_shown(err, r) implies shown_as_is(r, UserErrorKind::User, AnyError::Plain(err.report))
        && r.hints@.len() == 0 by {
        lemma_hints(r);
    }
    assert forall|err: Reported<GitDefaultRefspecError>, r: UserError| #[trigger]
        is_shown(err, r) implies shown_as_is(r, UserErrorKind::User, AnyError::Plain(err.report))
        && r.hints@.len() == 0 by {
        lemma_hints(r);
    }
    assert forall|err: Reported<GitRemoteManagementError>, r: UserError| #[trigger]
        is_shown(err, r) implies shown_as_is(r, UserErrorKind::User, AnyError::Plain(err.report))
        && r.hints@.len() == 0 by {
        lemma_hints(r);
    }
    assert forall|err: Reported<UnexpectedGitBackendError>, r: UserError| #[trigger]
        is_shown(err, r) implies shown_as_is(r, UserErrorKind::User, AnyError::Plain(err.report))
        && r.hints@.len() == 0 by {
        lemma_hints(r);
    }
}

/// A transaction that cannot be committed is the program's fault, and shown as it is.
pub proof fn law_plain_internal_errors()
    ensures
        forall|err: Reported<TransactionCommitError>, r: UserError| #[trigger]
            is_shown(err, r) ==> shown_as_is(r, UserErrorKind::Internal, AnyError::Plain(err.report))
                && r.hints@.len() == 0,
{
    assert forall|err: Reported<TransactionCommitError>, r: UserError| #[trigger]
        is_shown(err, r) implies shown_as_is(r, UserErrorKind::Internal, AnyError::Plain(err.report))
        && r.hints@.len() == 0 by {
        lemma_hints(r);
    }
}

/// These errors are the program's fault, in every case. A message tells what was being
/// done, and the error remains as the cause.
pub proof fn law_internal_errors_with_message()
    ensures
        forall|err: Reported<RewriteRootCommit>, r: UserError| #[trigger]
            is_shown(err, r) ==> shown_under(
                r,
                UserErrorKind::Internal,
                "Attempted to rewrite the root commit"@,
                AnyError::Plain(err.report),
            ) && r.hints@.len() == 0,
        forall|err: Reported<EditCommitError>, r: UserError| #[trigger]
            is_shown(err, r) ==> shown_under(
                r,
                UserErrorKind::Internal,
                "Failed to edit a commit"@,
                AnyError::Plain(err.report),
            ) && r.hints@.len() == 0,
        forall|err: Reported<CheckOutCommitError>, r: UserError| #[trigger]
            is_shown(err, r) ==> shown_under(
                r,
                UserErrorKind::Internal,
                "Failed to check out a commit"@,
                AnyError::Plain(err.report),
            ) && r.hints@.len() == 0,
        forall|err: Reported<IndexError>, r: UserError| #[trigger]
            is_shown(err, r) ==> shown_under(
                r,
                UserErrorKind::Internal,
                "Unexpected error from index"@,
                AnyError::Plain(err.report),
            ) && r.hints@.len() == 0,
        forall|err: Reported<OpHeadsStoreError>, r: UserError| #[trigger]
            is_shown(err, r) ==> shown_under(
                r,
                UserErrorKind::Internal,
                "Unexpected error from operation heads store"@,
                AnyError::Plain(err.report),
            ) && r.hints@.len() == 0,
        forall|err: Reported<WorkspaceStoreError>, r: UserError| #[trigger]
            is_shown(err, r) ==> shown_under(
                r,
                UserErrorKind::Internal,
                "Unexpected error from workspace store"@,
                AnyError::Plain(err.report),
            ) && r.hints@.len() == 0,
        forall|err: Reported<OpHeadResolutionError>, r: UserError| #[trigger]
            is_shown(err, r) ==> shown_under(
                r,
                UserErrorKind::Internal,
                "Corrupt repository"@,
                AnyError::Plain(err.report),
            ) && r.hints@.len() == 0,
        forall|err: Reported<SnapshotError>, r: UserError| #[trigger]
            is_shown(err, r) ==> shown_under(
                r,
                UserErrorKind::Internal,
                "Failed to snapshot the working copy"@,
                AnyError::Plain(err.report),
            ) && r.hints@.len() == 0,
        forall|err: Reported<OpStoreError>, r: UserError| #[trigger]
            is_shown(err, r) ==> shown_under(
                r,
                UserErrorKind::Internal,
                "Failed to load an operation"@,
                AnyError::Plain(err.report),
            ) && r.hints@.len() == 0,
        forall|err: Reported<RepoLoaderError>, r: UserError| #[trigger]
            is_shown(err, r) ==> shown_under(
                r,
                UserErrorKind::Internal,
                "Failed to load the repo"@,
                AnyError::Plain(err.report),
            ) && r.hints@.len() == 0,
        forall|err: Reported<ResetError>, r: UserError| #[trigger]
            is_shown(err, r) ==> shown_under(
                r,
                UserErrorKind::Internal,
                "Failed to reset the working copy"@,
                AnyError::Plain(err.report),
            ) && r.hints@.len() == 0,
        forall|err: Reported<WorkingCopyStateError>, r: UserError| #[trigger]
            is_shown(err, r) ==> shown_under(
                r,
                UserErrorKind::Internal,
                "Failed to access working copy state"@,
                AnyError::Plain(err.report),
            ) && r.hints@.len() == 0,
        forall|err: Reported<SecureConfigError>, r: UserError| #[trigger]
            is_shown(err, r) ==> shown_under(
                r,
                UserErrorKind::Internal,
                "Failed to determine the secure config for a repo"@,
                AnyError::Plain(err.report),
            ) && r.hints@.len() == 0,
{
    assert forall|err: Reported<RewriteRootCommit>, r: UserError| #[trigger]
        is_shown(err, r) implies shown_under(
                r,
                UserErrorKind::Internal,
                "Attempted to rewrite the root commit"@,
                AnyError::Plain(err.report),
            ) && r.hints@.len() == 0 by {
        lemma_hints(r);
    }
    assert forall|err: Reported<EditCommitError>, r: UserError| #[trigger]
        is_shown(err, r) implies shown_under(
                r,
                UserErrorKind::Internal,
                "Failed to edit a commit"@,
                AnyError::Plain(err.report),
            ) && r.hints@.len() == 0 by {
        lemma_hints(r);
    }
    assert forall|err: Reported<CheckOutCommitError>, r: UserError| #[trigger]
        is_shown(err, r) implies shown_under(
                r,
                UserErrorKind::Internal,
                "Failed to check out a commit"@,
                AnyError::Plain(err.report),
            ) && r.hints@.len() == 0 by {
        lemma_hints(r);
    }
    assert forall|err: Reported<IndexError>, r: UserError| #[trigger]
        is_shown(err, r) implies shown_under(
                r,
                UserErrorKind::Internal,
                "Unexpected error from index"@,
                AnyError::Plain(err.report),
            ) && r.hints@.len() == 0 by {
        lemma_hints(r);
    }
    assert forall|err: Reported<OpHeadsStoreError>, r: UserError| #[trigger]
        is_shown(err, r) implies shown_under(
                r,
                UserErrorKind::Internal,
                "Unexpected error from operation heads store"@,
                AnyError::Plain(err.report),
            ) && r.hints@.len() == 0 by {
        lemma_hints(r);
    }
    assert forall|err: Reported<WorkspaceStoreError>, r: UserError| #[trigger]
        is_shown(err, r) implies shown_under(
                r,
                UserErrorKind::Internal,
                "Unexpected error from workspace store"@,
                AnyError::Plain(err.report),
            ) && r.hints@.len() == 0 by {
        lemma_hints(r);
    }
    assert forall|err: Reported<OpHeadResolutionError>, r: UserError| #[trigger]
        is_shown(err, r) implies shown_under(
                r,
                UserErrorKind::Internal,
                "Corrupt repository"@,
                AnyError::Plain(err.report),
            ) && r.hints@.len() == 0 by {
        lemma_hints(r);
    }
    assert forall|err: Reported<SnapshotError>, r: UserError| #[trigger]
        is_shown(err, r) implies shown_under(
                r,
                UserErrorKind::Internal,
                "Failed to snapshot the working copy"@,
                AnyError::Plain(err.report),
            ) && r.hints@.len() == 0 by {
        lemma_hints(r);
    }
    assert forall|err: Reported<OpStoreError>, r: UserError| #[trigger]
        is_shown(err, r) implies shown_under(
                r,
                UserErrorKind::Internal,
                "Failed to load an operation"@,
                AnyError::Plain(err.report),
            ) && r.hints@.len() == 0 by {
        lemma_hints(r);
    }
    assert forall|err: Reported<RepoLoaderError>, r: UserError| #[trigger]
        is_shown(err, r) implies shown_under(
                r,
                UserErrorKind::Internal,
                "Failed to load the repo"@,
                AnyError::Plain(err.report),
            ) && r.hints@.len() == 0 by {
        lemma_hints(r);
    }
    assert forall|err: Reported<ResetError>, r: UserError| #[trigger]
        is_shown(err, r) implies shown_under(
                r,
                UserErrorKind::Internal,
                "Failed to reset the working copy"@,
                AnyError::Plain(err.report),
            ) && r.hints@.len() == 0 by {
        lemma_hints(r);
    }
    assert forall|err: Reported<WorkingCopyStateError>, r: UserError| #[trigger]
        is_shown(err, r) implies shown_under(
                r,
                UserErrorKind::Internal,
                "Failed to access working copy state"@,
                AnyError::Plain(err.report),
            ) && r.hints@.len() == 0 by {
        lemma_hints(r);
    }
    assert forall|err: Reported<SecureConfigError>, r: UserError| #[trigger]
        is_shown(err, r) implies shown_under(
                r,
                UserErrorKind::Internal,
                "Failed to determine the secure config for a repo"@,
                AnyError::Plain(err.report),
            ) && r.hints@.len() == 0 by {
        lemma_hints(r);
    }
}

/// These errors are the user's to deal with, in every case. A message tells what was being
/// done, and the error remains as the cause.
pub proof fn law_user_errors_with_message()
    ensures
        forall|err: Reported<RenameWorkspaceError>, r: UserError| #[trigger]
            is_shown(err, r) ==> shown_under(
                r,
                UserErrorKind::User,
                "Failed to rename a workspace"@,
                AnyError::Plain(err.report),
            ) && r.hints@.len() == 0,
        forall|err: Reported<GitIgnoreError>, r: UserError| #[trigger]
            is_shown(err, r) ==> shown_under(
                r,
                UserErrorKind::User,
                "Failed to process .gitignore."@,
                AnyError::Plain(err.report),
            ) && r.hints@.len() == 0,
        forall|err: Reported<GitExportError>, r: UserError| #[trigger]
            is_shown(err, r) ==> shown_under(
                r,
                UserErrorKind::User,
                "Failed to export refs to underlying Git repo"@,
                AnyError::Plain(err.report),
            ) && r.hints@.len() == 0,
        forall|err: Reported<GitResetHeadError>, r: UserError| #[trigger]
            is_shown(err, r) ==> shown_under(
                r,
                UserErrorKind::User,
                "Failed to reset Git HEAD state"@,
                AnyError::Plain(err.report),
            ) && r.hints@.len() == 0,
{
    assert forall|err: Reported<RenameWorkspaceError>, r: UserError| #[trigger]
        is_shown(err, r) implies shown_under(
                r,
                UserErrorKind::User,
                "Failed to rename a workspace"@,
                AnyError::Plain(err.report),
            ) && r.hints@.len() == 0 by {
        lemma_hints(r);
    }
    assert forall|err: Reported<GitIgnoreError>, r: UserError| #[trigger]
        is_shown(err, r) implies shown_under(
                r,
                UserErrorKind::User,
                "Failed to process .gitignore."@,
                AnyError::Plain(err.report),
            ) && r.hints@.len() == 0 by {
        lemma_hints(r);
    }
    assert forall|err: Reported<GitExportError>, r: UserError| #[trigger]
        is_shown(err, r) implies shown_under(
                r,
                UserErrorKind::User,
                "Failed to export refs to underlying Git repo"@,
                AnyError::Plain(err.report),
            ) && r.hints@.len() == 0 by {
        lemma_hints(r);
    }
    assert forall|err: Reported<GitResetHeadError>, r: UserError| #[trigger]
        is_shown(err, r) implies shown_under(
                r,
                UserErrorKind::User,
                "Failed to reset Git HEAD state"@,
                AnyError::Plain(err.report),
            ) && r.hints@.len() == 0 by {
        lemma_hints(r);
    }
}

/// A closed pipe is told apart from all other failures to read or write, which are the
/// user's to deal with.
pub proof fn law_broken_pipe_is_told_apart(err: Reported<IoError>, r: UserError)
    requires
        is_shown(err, r),
    ensures
        r.kind == UserErrorKind::BrokenPipe <==> err.error.kind == IoErrorKind::BrokenPipe,
        r.kind == UserErrorKind::BrokenPipe || r.kind == UserErrorKind::User,
        *r.error == AnyError::Plain(err.report),
        r.hints@.len() == 0,
{
    lemma_hints(r);
}

/// Only what the backend does not offer is the user's to deal with; every other failure of
/// the backend is unexpected.
pub proof fn law_backend_errors(err: Reported<BackendError>, r: UserError)
    requires
        is_shown(err, r),
    ensures
        err.error is Unsupported ==> shown_as_is(
            r,
            UserErrorKind::User,
            AnyError::Plain(err.report),
        ),
        !(err.error is Unsupported) ==> shown_under(
            r,
            UserErrorKind::Internal,
            "Unexpected error from backend"@,
            AnyError::Plain(err.report),
        ),
        r.hints@.len() == 0,
{
    lemma_hints(r);
}

/// The file at fault is all that the user is told of a configuration that is wrong.
pub open spec fn names_the_file(r: UserError, path: Option<String>) -> bool {
    match path {
        Some(path) => hints_read(r, seq!["Check the config file: "@ + path@]),
        None => r.hints@.len() == 0,
    }
}

/// An error in the configuration is shown as such, in every case. The file is named where a
/// value or the file itself is wrong and the file is known, and only there.
pub proof fn law_configuration_errors(
    get: Reported<ConfigGetError>,
    load: Reported<ConfigLoadError>,
    migrate: Reported<ConfigMigrateError>,
    r: UserError,
)
    ensures
        is_shown(get, r) ==> {
            &&& shown_as_is(r, UserErrorKind::Config, AnyError::ConfigGet(get))
            &&& match get.error {
                ConfigGetError::NotFound => r.hints@.len() == 0,
                ConfigGetError::Type { source_path } => names_the_file(r, source_path),
            }
        },
        is_shown(load, r) ==> {
            &&& shown_as_is(r, UserErrorKind::Config, AnyError::Plain(load.report))
            &&& match load.error {
                ConfigLoadError::Read => r.hints@.len() == 0,
                ConfigLoadError::Parse { source_path } => names_the_file(r, source_path),
            }
        },
        is_shown(migrate, r) ==> {
            &&& shown_as_is(r, UserErrorKind::Config, AnyError::Plain(migrate.report))
            &&& names_the_file(r, migrate.error.source_path)
        },
{
    lemma_hints(r);
    if is_shown(get, r) {
        let before = UserErrorView::bare(UserErrorKind::Config, AnyError::ConfigGet(get));
        lemma_some_hints(r, before);
    }
    if is_shown(load, r) {
        let before = UserErrorView::bare(UserErrorKind::Config, AnyError::Plain(load.report));
        lemma_some_hints(r, before);
    }
    if is_shown(migrate, r) {
        let before = UserErrorView::bare(UserErrorKind::Config, AnyError::Plain(migrate.report));
        lemma_some_hints(r, before);
    }
}

proof fn lemma_some_hints(r: UserError, before: UserErrorView)
    requires
        before.hints.len() == 0,
    ensures
        forall|hints: Seq<Seq<char>>|
            r@ == #[trigger] before.with_hints(hints) ==> hints_read(r, hints) && r.kind
                == before.kind && r.error@ == before.error,
{
    assert forall|hints: Seq<Seq<char>>| r@ == #[trigger] before.with_hints(hints) implies
        hints_read(r, hints) && r.kind == before.kind && r.error@ == before.error by {
        lemma_hints_read(r, before, hints);
    }
}

/// The user is told `hint`, or nothing where there is none.
pub open spec fn tells(r: UserError, hint: Option<String>) -> bool {
    match hint {
        Some(text) => hints_read(r, seq![text@]),
        None => r.hints@.len() == 0,
    }
}

/// A revset that cannot be parsed is the user's to correct, whatever the kind of mistake and
/// whatever caused it. A message tells the kind, the whole error remains as the cause, and
/// the one hint is that for the error.
pub proof fn law_unparsable_revset_is_a_user_error(
    err: Reported<RevsetParseError>,
    r: UserError,
    hint: Option<String>,
)
    requires
        is_shown(err, r),
        call_ensures(revset_parse_error_hint, (&err,), hint),
    ensures
        shown_under(
            r,
            UserErrorKind::User,
            "Failed to parse revset: "@ + err.error.kind_text@,
            AnyError::RevsetParse(err),
        ),
        tells(r, hint),
{
    lemma_hints(r);
    lemma_some_hints(
        r,
        UserErrorView::titled(
            UserErrorKind::User,
            "Failed to parse revset: "@ + err.error.kind_text@,
            AnyError::RevsetParse(err),
        ),
    );
}

/// A fileset that cannot be parsed is the user's to correct, whatever the kind of mistake
/// and whatever caused it. A message tells the kind, the whole error remains as the cause,
/// and the one hint is that for the error.
pub proof fn law_unparsable_fileset_is_a_user_error(
    err: Reported<FilesetParseError>,
    r: UserError,
    hint: Option<String>,
)
    requires
        is_shown(err, r),
        call_ensures(fileset_parse_error_hint, (&err,), hint),
    ensures
        shown_under(
            r,
            UserErrorKind::User,
            "Failed to parse fileset: "@ + err.error.kind_text@,
            AnyError::FilesetParse(err),
        ),
        tells(r, hint),
{
    lemma_hints(r);
    lemma_some_hints(
        r,
        UserErrorView::titled(
            UserErrorKind::User,
            "Failed to parse fileset: "@ + err.error.kind_text@,
            AnyError::FilesetParse(err),
        ),
    );
}

/// A symbol that cannot be resolved is the user's to correct, in every case. The whole error
/// is shown as it is, with all hints for it.
pub proof fn law_unresolved_symbol_is_a_user_error(
    err: Reported<RevsetResolutionError>,
    r: UserError,
    hints: Vec<String>,
)
    requires
        is_shown(err, r),
        call_ensures(revset_resolution_error_hints, (&err.error,), hints),
    ensures
        shown_as_is(r, UserErrorKind::User, AnyError::RevsetResolution(err)),
        r.hints@.len() == hints@.len(),
        hints_read(r, texts(hints@)),
{
    lemma_hints(r);
    lemma_some_hints(
        r,
        UserErrorView::bare(UserErrorKind::User, AnyError::RevsetResolution(err)),
    );
}

/// What went wrong with a workspace at its setup is told by a message, and the error below
/// remains as the cause. Only an existing target, a path that cannot be kept, the initial
/// operation, the backend and signing are the user's to deal with.
pub proof fn law_workspace_setup_errors(err: Reported<WorkspaceInitError>, r: UserError)
    requires
        is_shown(err, r),
    ensures
        r.hints@.len() == 0,
        r.kind == UserErrorKind::User <==> (err.error is DestinationExists
            || err.error is EncodeRepoPath || err.error is OpHeadsStore || err.error is Backend
            || err.error is SignInit),
        r.kind == UserErrorKind::User || r.kind == UserErrorKind::Internal,
        err.error is DestinationExists ==> (*r.error matches AnyError::Message(text) && text@
            == "The target repo already exists"@),
        err.error is EncodeRepoPath ==> *r.error == AnyError::Plain(err.report),
        err.error matches WorkspaceInitError::SignInit(e) ==> *r.error == AnyError::Plain(e.report),
        err.error matches WorkspaceInitError::TransactionCommit(e) ==> *r.error == AnyError::Plain(
            e.report,
        ),
        err.error matches WorkspaceInitError::CheckOutCommit(e) ==> shown_under(
            r,
            r.kind,
            "Failed to check out the initial commit"@,
            AnyError::Plain(e.report),
        ),
        err.error matches WorkspaceInitError::OpHeadsStore(e) ==> shown_under(
            r,
            r.kind,
            "Failed to record initial operation"@,
            AnyError::Plain(e.report),
        ),
        err.error matches WorkspaceInitError::WorkspaceStore(e) ==> shown_under(
            r,
            r.kind,
            "Failed to record workspace path"@,
            AnyError::Plain(e.report),
        ),
        err.error matches WorkspaceInitError::Path(e) ==> shown_under(
            r,
            r.kind,
            "Failed to access the repository"@,
            AnyError::Plain(e.report),
        ),
        err.error matches WorkspaceInitError::Backend(e) ==> shown_under(
            r,
            r.kind,
            "Failed to access the repository"@,
            AnyError::Plain(e.report),
        ),
        err.error matches WorkspaceInitError::WorkingCopyState(e) ==> shown_under(
            r,
            r.kind,
            "Failed to access the repository"@,
            AnyError::Plain(e.report),
        ),
{
    lemma_hints(r);
}

/// An operation expression that cannot be resolved is the user's to correct, in every case,
/// and shown as it is with the hint for it.
pub proof fn law_unresolved_operation_is_a_user_error(
    err: Reported<OpsetEvaluationError>,
    r: UserError,
    hint: Option<String>,
)
    requires
        is_shown(err, r),
        err.error matches OpsetEvaluationError::OpsetResolution(e) && call_ensures(
            opset_resolution_error_hint,
            (&e.error,),
            hint,
        ),
    ensures
        err.error matches OpsetEvaluationError::OpsetResolution(e) ==> shown_as_is(
            r,
            UserErrorKind::User,
            AnyError::Plain(e.report),
        ),
        tells(r, hint),
{
    lemma_hints(r);
    if let OpsetEvaluationError::OpsetResolution(e) = err.error {
        lemma_some_hints(r, UserErrorView::bare(UserErrorKind::User, AnyError::Plain(e.report)));
    }
}

/// Errors that belong to no error below them: a cycle in the history is the program's fault,
/// a missing working copy is the user's to deal with, and a tool that fails on a file is
/// shown under a message with what the tool said.
pub proof fn law_errors_of_their_own(
    walk: Reported<WalkPredecessorsError>,
    recover: Reported<RecoverWorkspaceError>,
    fix: Reported<FixError>,
    r: UserError,
)
    ensures
        is_shown(walk, r) && walk.error is CycleDetected ==> shown_as_is(
            r,
            UserErrorKind::Internal,
            AnyError::Plain(walk.report),
        ) && r.hints@.len() == 0,
        is_shown(recover, r) && recover.error is WorkspaceMissingWorkingCopy ==> shown_as_is(
            r,
            UserErrorKind::User,
            AnyError::Plain(recover.report),
        ) && r.hints@.len() == 0,
        is_shown(fix, r) ==> (fix.error matches FixError::FixContent(e) ==> shown_under(
            r,
            UserErrorKind::Internal,
            "An error occurred while attempting to fix file content"@,
            e,
        ) && r.hints@.len() == 0),
{
    lemma_hints(r);
}

/// Every failure of the Git integration is the user's to deal with, and what was given
/// remains: as it is, or as the cause under a message.
pub proof fn law_git_errors(
    import: Reported<GitImportError>,
    fetch: Reported<GitFetchError>,
    push: Reported<GitPushError>,
    expansion: Reported<GitRefExpansionError>,
    r: UserError,
)
    ensures
        is_shown(import, r) ==> {
            &&& shown_under(
                r,
                UserErrorKind::User,
                "Failed to import refs from underlying Git repo"@,
                AnyError::Plain(import.report),
            )
            &&& if import.error is MissingHeadTarget || import.error is MissingRefAncestor {
                hints_read(
                    r,
                    seq![
                        "Is this Git repository a partial clone (cloned with the --filter argument)?\njj currently does not support partial clones. To use jj with this repository, try re-cloning with the full repository contents."@,
                    ],
                )
            } else {
                r.hints@.len() == 0
            }
        },
        is_shown(fetch, r) ==> {
            &&& shown_as_is(r, UserErrorKind::User, AnyError::Plain(fetch.report))
            &&& if fetch.error is RemoteName {
                hints_read(r, seq!["Run `jj git remote rename` to give a different name."@])
            } else {
                r.hints@.len() == 0
            }
        },
        is_shown(push, r) ==> {
            &&& shown_as_is(r, UserErrorKind::User, AnyError::Plain(push.report))
            &&& if push.error is RemoteName {
                hints_read(r, seq!["Run `jj git remote rename` to give a different name."@])
            } else {
                r.hints@.len() == 0
            }
        },
        is_shown(expansion, r) ==> {
            &&& shown_as_is(r, UserErrorKind::User, AnyError::Plain(expansion.report))
            &&& if expansion.error is Expression {
                hints_read(
                    r,
                    seq!["Specify patterns in `(positive | ...) & ~(negative | ...)` form."@],
                )
            } else {
                r.hints@.len() == 0
            }
        },
{
    lemma_hints(r);
    if r.hints@.len() > 0 {
        assert(r.hints@[0]@ == r@.hints[0]);
    }
    if is_shown(import, r) {
        lemma_some_hints(
            r,
            UserErrorView::titled(
                UserErrorKind::User,
                "Failed to import refs from underlying Git repo"@,
                AnyError::Plain(import.report),
            ),
        );
    }
}

/// An error that only passes another one on is shown as that other one.
pub proof fn law_passed_on_errors_are_shown_as_they_are(
    report: Report,
    r: UserError,
    other: UserError,
)
    ensures
        forall|e: Reported<BackendError>| #[trigger]
            is_shown(e, other) && is_shown(Reported { error: WalkPredecessorsError::Backend(e), report }, r)
                ==> same_to_the_user(r, other),
        forall|e: Reported<IndexError>| #[trigger]
            is_shown(e, other) && is_shown(Reported { error: WalkPredecessorsError::Index(e), report }, r)
                ==> same_to_the_user(r, other),
        forall|e: Reported<OpStoreError>| #[trigger]
            is_shown(e, other) && is_shown(Reported { error: WalkPredecessorsError::OpStore(e), report }, r)
                ==> same_to_the_user(r, other),
        forall|e: Reported<OpHeadResolutionError>| #[trigger]
            is_shown(e, other) && is_shown(Reported { error: OpsetEvaluationError::OpHeadResolution(e), report }, r)
                ==> same_to_the_user(r, other),
        forall|e: Reported<OpHeadsStoreError>| #[trigger]
            is_shown(e, other) && is_shown(Reported { error: OpsetEvaluationError::OpHeadsStore(e), report }, r)
                ==> same_to_the_user(r, other),
        forall|e: Reported<OpStoreError>| #[trigger]
            is_shown(e, other) && is_shown(Reported { error: OpsetEvaluationError::OpStore(e), report }, r)
                ==> same_to_the_user(r, other),
        forall|e: Reported<RevsetResolutionError>| #[trigger]
            is_shown(e, other) && is_shown(Reported { error: UserRevsetEvaluationError::Resolution(e), report }, r)
                ==> same_to_the_user(r, other),
        forall|e: Reported<RevsetEvaluationError>| #[trigger]
            is_shown(e, other) && is_shown(Reported { error: UserRevsetEvaluationError::Evaluation(e), report }, r)
                ==> same_to_the_user(r, other),
        forall|e: Reported<BackendError>| #[trigger]
            is_shown(e, other) && is_shown(Reported { error: RecoverWorkspaceError::Backend(e), report }, r)
                ==> same_to_the_user(r, other),
        forall|e: Reported<ResetError>| #[trigger]
            is_shown(e, other) && is_shown(Reported { error: RecoverWorkspaceError::Reset(e), report }, r)
                ==> same_to_the_user(r, other),
        forall|e: Reported<RewriteRootCommit>| #[trigger]
            is_shown(e, other) && is_shown(Reported { error: RecoverWorkspaceError::RewriteRootCommit(e), report }, r)
                ==> same_to_the_user(r, other),
        forall|e: Reported<TransactionCommitError>| #[trigger]
            is_shown(e, other) && is_shown(Reported { error: RecoverWorkspaceError::TransactionCommit(e), report }, r)
                ==> same_to_the_user(r, other),
        forall|e: Reported<BackendError>| #[trigger]
            is_shown(e, other) && is_shown(Reported { error: AbsorbError::Backend(e), report }, r)
                ==> same_to_the_user(r, other),
        forall|e: Reported<RevsetEvaluationError>| #[trigger]
            is_shown(e, other) && is_shown(Reported { error: AbsorbError::RevsetEvaluation(e), report }, r)
                ==> same_to_the_user(r, other),
        forall|e: Reported<BackendError>| #[trigger]
            is_shown(e, other) && is_shown(Reported { error: FixError::Backend(e), report }, r)
                ==> same_to_the_user(r, other),
        forall|e: Reported<RevsetEvaluationError>| #[trigger]
            is_shown(e, other) && is_shown(Reported { error: FixError::RevsetEvaluation(e), report }, r)
                ==> same_to_the_user(r, other),
        forall|e: Reported<IoError>| #[trigger]
            is_shown(e, other) && is_shown(Reported { error: FixError::Io(e), report }, r)
                ==> same_to_the_user(r, other),
        forall|e: Reported<TransactionCommitError>| #[trigger]
            is_shown(e, other) && is_shown(Reported { error: WorkspaceInitError::TransactionCommit(e), report }, r)
                ==> same_to_the_user(r, other),
{
    if r@ == other@ {
        lemma_same_to_the_user(r, other);
    }
}

} // verus!
