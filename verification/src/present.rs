//! How each error is presented to the user.

use vstd::prelude::*;
use vstd::string::*;

use crate::error_model::{
    AbsorbError, AnyError, BackendError, BisectionError, CheckOutCommitError, ConfigFileSaveError,
    ConfigGetError, ConfigLoadError, ConfigMigrateError, EditCommitError, ErrorView,
    FilesetParseError, FixError, GitIgnoreError, IndexError, IoError, IoErrorKind,
    OpHeadResolutionError, OpHeadsStoreError, OpStoreError, OpsetEvaluationError, PathError,
    RecoverWorkspaceError, RenameWorkspaceError, RepoLoaderError, Report, Reported, ResetError,
    RevsetEvaluationError, RevsetParseError, RevsetResolutionError, RewriteRootCommit,
    SecureConfigError, SnapshotError, TrailerParseError, TransactionCommitError,
    UiPathParseError, UserRevsetEvaluationError, WalkPredecessorsError, WorkingCopyStateError,
    WorkspaceInitError, WorkspaceStoreError,
};
use crate::hints::{
    at_most_one, check_config_file_hint, config_file_hint, config_get_error_hint, config_get_hint,
    fileset_parse_error_hint, fileset_parse_hint, into_list, opset_resolution_error_hint,
    opset_resolution_hint, revset_parse_error_hint, revset_parse_hint,
    revset_resolution_error_hints, revset_resolution_hints,
};
use crate::user_error::{
    PresentError, UserError, UserErrorKind, UserErrorView, config_error, internal_error,
    internal_error_with_message, user_error, user_error_with_message,
};

verus! {

impl PresentError for IoError {
    open spec fn presented(err: Reported<Self>) -> UserErrorView {
        let kind = match err.error.kind {
            IoErrorKind::BrokenPipe => UserErrorKind::BrokenPipe,
            IoErrorKind::Other => UserErrorKind::User,
        };
        UserErrorView::bare(kind, AnyError::Plain(err.report))
    }

    fn present(err: Reported<Self>) -> (r: UserError) {
        let kind = match err.error.kind {
            IoErrorKind::BrokenPipe => UserErrorKind::BrokenPipe,
            IoErrorKind::Other => UserErrorKind::User,
        };
        UserError::new(kind, err.into_plain())
    }
}

impl PresentError for PathError {
    open spec fn presented(err: Reported<Self>) -> UserErrorView {
        UserErrorView::bare(UserErrorKind::User, AnyError::Plain(err.report))
    }

    fn present(err: Reported<Self>) -> (r: UserError) {
        user_error(err.into_plain())
    }
}

impl PresentError for ConfigFileSaveError {
    open spec fn presented(err: Reported<Self>) -> UserErrorView {
        UserErrorView::bare(UserErrorKind::User, AnyError::Plain(err.report))
    }

    fn present(err: Reported<Self>) -> (r: UserError) {
        user_error(err.into_plain())
    }
}

impl PresentError for ConfigGetError {
    open spec fn presented(err: Reported<Self>) -> UserErrorView {
        UserErrorView::bare(UserErrorKind::Config, AnyError::ConfigGet(err)).with_hints(
            at_most_one(config_get_hint(err.error)),
        )
    }

    fn present(err: Reported<Self>) -> (r: UserError) {
        let hint = config_get_error_hint(&err.error);
        let mut cmd_err = config_error(err);
        cmd_err.extend_hints(into_list(hint));
        cmd_err
    }
}

impl PresentError for ConfigLoadError {
    open spec fn presented(err: Reported<Self>) -> UserErrorView {
        let hint = match err.error {
            ConfigLoadError::Read => None,
            ConfigLoadError::Parse { source_path } => config_file_hint(source_path),
        };
        UserErrorView::bare(UserErrorKind::Config, AnyError::Plain(err.report)).with_hints(
            at_most_one(hint),
        )
    }

    fn present(err: Reported<Self>) -> (r: UserError) {
        let hint = match &err.error {
            ConfigLoadError::Read => None,
            ConfigLoadError::Parse { source_path } => check_config_file_hint(source_path),
        };
        let mut cmd_err = config_error(err.into_plain());
        cmd_err.extend_hints(into_list(hint));
        cmd_err
    }
}

impl PresentError for ConfigMigrateError {
    open spec fn presented(err: Reported<Self>) -> UserErrorView {
        UserErrorView::bare(UserErrorKind::Config, AnyError::Plain(err.report)).with_hints(
            at_most_one(config_file_hint(err.error.source_path)),
        )
    }

    fn present(err: Reported<Self>) -> (r: UserError) {
        let hint = check_config_file_hint(&err.error.source_path);
        let mut cmd_err = config_error(err.into_plain());
        cmd_err.extend_hints(into_list(hint));
        cmd_err
    }
}

impl PresentError for RewriteRootCommit {
    open spec fn presented(err: Reported<Self>) -> UserErrorView {
        UserErrorView::titled(
            UserErrorKind::Internal,
            "Attempted to rewrite the root commit"@,
            AnyError::Plain(err.report),
        )
    }

    fn present(err: Reported<Self>) -> (r: UserError) {
        internal_error_with_message("Attempted to rewrite the root commit", err.into_plain())
    }
}

impl PresentError for EditCommitError {
    open spec fn presented(err: Reported<Self>) -> UserErrorView {
        UserErrorView::titled(
            UserErrorKind::Internal,
            "Failed to edit a commit"@,
            AnyError::Plain(err.report),
        )
    }

    fn present(err: Reported<Self>) -> (r: UserError) {
        internal_error_with_message("Failed to edit a commit", err.into_plain())
    }
}

impl PresentError for CheckOutCommitError {
    open spec fn presented(err: Reported<Self>) -> UserErrorView {
        UserErrorView::titled(
            UserErrorKind::Internal,
            "Failed to check out a commit"@,
            AnyError::Plain(err.report),
        )
    }

    fn present(err: Reported<Self>) -> (r: UserError) {
        internal_error_with_message("Failed to check out a commit", err.into_plain())
    }
}

impl PresentError for RenameWorkspaceError {
    open spec fn presented(err: Reported<Self>) -> UserErrorView {
        UserErrorView::titled(
            UserErrorKind::User,
            "Failed to rename a workspace"@,
            AnyError::Plain(err.report),
        )
    }

    fn present(err: Reported<Self>) -> (r: UserError) {
        user_error_with_message("Failed to rename a workspace", err.into_plain())
    }
}

impl PresentError for BackendError {
    open spec fn presented(err: Reported<Self>) -> UserErrorView {
        match err.error {
            BackendError::Unsupported => UserErrorView::bare(UserErrorKind::User, AnyError::Plain(err.report)),
            BackendError::Other => UserErrorView::titled(
                UserErrorKind::Internal,
                "Unexpected error from backend"@,
                AnyError::Plain(err.report),
            ),
        }
    }

    fn present(err: Reported<Self>) -> (r: UserError) {
        match err.error {
            BackendError::Unsupported => user_error(AnyError::Plain(err.report)),
            BackendError::Other => internal_error_with_message(
                "Unexpected error from backend",
                AnyError::Plain(err.report),
            ),
        }
    }
}

impl PresentError for IndexError {
    open spec fn presented(err: Reported<Self>) -> UserErrorView {
        UserErrorView::titled(
            UserErrorKind::Internal,
            "Unexpected error from index"@,
            AnyError::Plain(err.report),
        )
    }

    fn present(err: Reported<Self>) -> (r: UserError) {
        internal_error_with_message("Unexpected error from index", err.into_plain())
    }
}

impl PresentError for OpHeadsStoreError {
    open spec fn presented(err: Reported<Self>) -> UserErrorView {
        UserErrorView::titled(
            UserErrorKind::Internal,
            "Unexpected error from operation heads store"@,
            AnyError::Plain(err.report),
        )
    }

    fn present(err: Reported<Self>) -> (r: UserError) {
        internal_error_with_message("Unexpected error from operation heads store", err.into_plain())
    }
}

impl PresentError for WorkspaceStoreError {
    open spec fn presented(err: Reported<Self>) -> UserErrorView {
        UserErrorView::titled(
            UserErrorKind::Internal,
            "Unexpected error from workspace store"@,
            AnyError::Plain(err.report),
        )
    }

    fn present(err: Reported<Self>) -> (r: UserError) {
        internal_error_with_message("Unexpected error from workspace store", err.into_plain())
    }
}

impl PresentError for WorkspaceInitError {
    open spec fn presented(err: Reported<Self>) -> UserErrorView {
        match err.error {
            WorkspaceInitError::DestinationExists => UserErrorView {
                kind: UserErrorKind::User,
                error: ErrorView::Message("The target repo already exists"@),
                hints: seq![],
            },
            WorkspaceInitError::EncodeRepoPath => UserErrorView::bare(UserErrorKind::User, AnyError::Plain(err.report)),
            WorkspaceInitError::CheckOutCommit(e) => UserErrorView::titled(
                UserErrorKind::Internal,
                "Failed to check out the initial commit"@,
                AnyError::Plain(e.report),
            ),
            WorkspaceInitError::Path(e) => UserErrorView::titled(
                UserErrorKind::Internal,
                "Failed to access the repository"@,
                AnyError::Plain(e.report),
            ),
            WorkspaceInitError::OpHeadsStore(e) => UserErrorView::titled(
                UserErrorKind::User,
                "Failed to record initial operation"@,
                AnyError::Plain(e.report),
            ),
            WorkspaceInitError::WorkspaceStore(e) => UserErrorView::titled(
                UserErrorKind::Internal,
                "Failed to record workspace path"@,
                AnyError::Plain(e.report),
            ),
            WorkspaceInitError::Backend(e) => UserErrorView::titled(
                UserErrorKind::User,
                "Failed to access the repository"@,
                AnyError::Plain(e.report),
            ),
            WorkspaceInitError::WorkingCopyState(e) => UserErrorView::titled(
                UserErrorKind::Internal,
                "Failed to access the repository"@,
                AnyError::Plain(e.report),
            ),
            WorkspaceInitError::SignInit(e) => UserErrorView::bare(UserErrorKind::User, AnyError::Plain(e.report)),
            WorkspaceInitError::TransactionCommit(e) => TransactionCommitError::presented(e),
        }
    }

    fn present(err: Reported<Self>) -> (r: UserError) {
        match err.error {
            WorkspaceInitError::DestinationExists => user_error("The target repo already exists"),
            WorkspaceInitError::EncodeRepoPath => user_error(AnyError::Plain(err.report)),
            WorkspaceInitError::CheckOutCommit(e) => internal_error_with_message(
                "Failed to check out the initial commit",
                e.into_plain(),
            ),
            WorkspaceInitError::Path(e) => internal_error_with_message(
                "Failed to access the repository",
                e.into_plain(),
            ),
            WorkspaceInitError::OpHeadsStore(e) => user_error_with_message(
                "Failed to record initial operation",
                e.into_plain(),
            ),
            WorkspaceInitError::WorkspaceStore(e) => internal_error_with_message(
                "Failed to record workspace path",
                e.into_plain(),
            ),
            WorkspaceInitError::Backend(e) => user_error_with_message(
                "Failed to access the repository",
                e.into_plain(),
            ),
            WorkspaceInitError::WorkingCopyState(e) => internal_error_with_message(
                "Failed to access the repository",
                e.into_plain(),
            ),
            WorkspaceInitError::SignInit(e) => user_error(e.into_plain()),
            WorkspaceInitError::TransactionCommit(e) => UserError::from(e),
        }
    }
}

impl PresentError for OpHeadResolutionError {
    open spec fn presented(err: Reported<Self>) -> UserErrorView {
        match err.error {
            OpHeadResolutionError::NoHeads => UserErrorView::titled(
                UserErrorKind::Internal,
                "Corrupt repository"@,
                AnyError::Plain(err.report),
            ),
        }
    }

    fn present(err: Reported<Self>) -> (r: UserError) {
        match err.error {
            OpHeadResolutionError::NoHeads => internal_error_with_message(
                "Corrupt repository",
                AnyError::Plain(err.report),
            ),
        }
    }
}

impl PresentError for OpsetEvaluationError {
    open spec fn presented(err: Reported<Self>) -> UserErrorView {
        match err.error {
            OpsetEvaluationError::OpsetResolution(e) => UserErrorView::bare(
                UserErrorKind::User,
                AnyError::Plain(e.report),
            ).with_hints(at_most_one(opset_resolution_hint(e.error))),
            OpsetEvaluationError::OpHeadResolution(e) => OpHeadResolutionError::presented(e),
            OpsetEvaluationError::OpHeadsStore(e) => OpHeadsStoreError::presented(e),
            OpsetEvaluationError::OpStore(e) => OpStoreError::presented(e),
        }
    }

    fn present(err: Reported<Self>) -> (r: UserError) {
        match err.error {
            OpsetEvaluationError::OpsetResolution(e) => {
                let hint = opset_resolution_error_hint(&e.error);
                let mut cmd_err = user_error(e.into_plain());
                cmd_err.extend_hints(into_list(hint));
                cmd_err
            },
            OpsetEvaluationError::OpHeadResolution(e) => UserError::from(e),
            OpsetEvaluationError::OpHeadsStore(e) => UserError::from(e),
            OpsetEvaluationError::OpStore(e) => UserError::from(e),
        }
    }
}

impl PresentError for SnapshotError {
    open spec fn presented(err: Reported<Self>) -> UserErrorView {
        UserErrorView::titled(
            UserErrorKind::Internal,
            "Failed to snapshot the working copy"@,
            AnyError::Plain(err.report),
        )
    }

    fn present(err: Reported<Self>) -> (r: UserError) {
        internal_error_with_message("Failed to snapshot the working copy", err.into_plain())
    }
}

impl PresentError for OpStoreError {
    open spec fn presented(err: Reported<Self>) -> UserErrorView {
        UserErrorView::titled(
            UserErrorKind::Internal,
            "Failed to load an operation"@,
            AnyError::Plain(err.report),
        )
    }

    fn present(err: Reported<Self>) -> (r: UserError) {
        internal_error_with_message("Failed to load an operation", err.into_plain())
    }
}

impl PresentError for RepoLoaderError {
    open spec fn presented(err: Reported<Self>) -> UserErrorView {
        UserErrorView::titled(
            UserErrorKind::Internal,
            "Failed to load the repo"@,
            AnyError::Plain(err.report),
        )
    }

    fn present(err: Reported<Self>) -> (r: UserError) {
        internal_error_with_message("Failed to load the repo", err.into_plain())
    }
}

impl PresentError for ResetError {
    open spec fn presented(err: Reported<Self>) -> UserErrorView {
        UserErrorView::titled(
            UserErrorKind::Internal,
            "Failed to reset the working copy"@,
            AnyError::Plain(err.report),
        )
    }

    fn present(err: Reported<Self>) -> (r: UserError) {
        internal_error_with_message("Failed to reset the working copy", err.into_plain())
    }
}

impl PresentError for TransactionCommitError {
    open spec fn presented(err: Reported<Self>) -> UserErrorView {
        UserErrorView::bare(UserErrorKind::Internal, AnyError::Plain(err.report))
    }

    fn present(err: Reported<Self>) -> (r: UserError) {
        internal_error(err.into_plain())
    }
}

impl PresentError for WalkPredecessorsError {
    open spec fn presented(err: Reported<Self>) -> UserErrorView {
        match err.error {
            WalkPredecessorsError::Backend(e) => BackendError::presented(e),
            WalkPredecessorsError::Index(e) => IndexError::presented(e),
            WalkPredecessorsError::OpStore(e) => OpStoreError::presented(e),
            WalkPredecessorsError::CycleDetected => UserErrorView::bare(UserErrorKind::Internal, AnyError::Plain(err.report)),
        }
    }

    fn present(err: Reported<Self>) -> (r: UserError) {
        match err.error {
            WalkPredecessorsError::Backend(e) => UserError::from(e),
            WalkPredecessorsError::Index(e) => UserError::from(e),
            WalkPredecessorsError::OpStore(e) => UserError::from(e),
            WalkPredecessorsError::CycleDetected => internal_error(AnyError::Plain(err.report)),
        }
    }
}

impl PresentError for TrailerParseError {
    open spec fn presented(err: Reported<Self>) -> UserErrorView {
        UserErrorView::bare(UserErrorKind::User, AnyError::Plain(err.report))
    }

    fn present(err: Reported<Self>) -> (r: UserError) {
        user_error(err.into_plain())
    }
}

impl PresentError for UserRevsetEvaluationError {
    open spec fn presented(err: Reported<Self>) -> UserErrorView {
        match err.error {
            UserRevsetEvaluationError::Resolution(e) => RevsetResolutionError::presented(e),
            UserRevsetEvaluationError::Evaluation(e) => RevsetEvaluationError::presented(e),
        }
    }

    fn present(err: Reported<Self>) -> (r: UserError) {
        match err.error {
            UserRevsetEvaluationError::Resolution(e) => UserError::from(e),
            UserRevsetEvaluationError::Evaluation(e) => UserError::from(e),
        }
    }
}

impl PresentError for RevsetEvaluationError {
    open spec fn presented(err: Reported<Self>) -> UserErrorView {
        UserErrorView::bare(UserErrorKind::User, AnyError::Plain(err.report))
    }

    fn present(err: Reported<Self>) -> (r: UserError) {
        user_error(err.into_plain())
    }
}

impl PresentError for FilesetParseError {
    open spec fn presented(err: Reported<Self>) -> UserErrorView {
        UserErrorView::titled(
            UserErrorKind::User,
            "Failed to parse fileset: "@ + err.error.kind_text@,
            AnyError::FilesetParse(err),
        ).with_hints(at_most_one(fileset_parse_hint(err)))
    }

    fn present(err: Reported<Self>) -> (r: UserError) {
        let hint = fileset_parse_error_hint(&err);
        let message = "Failed to parse fileset: ".to_string().concat(err.error.kind_text.as_str());
        let mut cmd_err = user_error_with_message(message, err);
        cmd_err.extend_hints(into_list(hint));
        cmd_err
    }
}

impl PresentError for RecoverWorkspaceError {
    open spec fn presented(err: Reported<Self>) -> UserErrorView {
        match err.error {
            RecoverWorkspaceError::Backend(e) => BackendError::presented(e),
            RecoverWorkspaceError::Reset(e) => ResetError::presented(e),
            RecoverWorkspaceError::RewriteRootCommit(e) => RewriteRootCommit::presented(e),
            RecoverWorkspaceError::TransactionCommit(e) => TransactionCommitError::presented(e),
            RecoverWorkspaceError::WorkspaceMissingWorkingCopy => UserErrorView::bare(UserErrorKind::User, AnyError::Plain(err.report)),
        }
    }

    fn present(err: Reported<Self>) -> (r: UserError) {
        match err.error {
            RecoverWorkspaceError::Backend(e) => UserError::from(e),
            RecoverWorkspaceError::Reset(e) => UserError::from(e),
            RecoverWorkspaceError::RewriteRootCommit(e) => UserError::from(e),
            RecoverWorkspaceError::TransactionCommit(e) => UserError::from(e),
            RecoverWorkspaceError::WorkspaceMissingWorkingCopy => user_error(AnyError::Plain(err.report)),
        }
    }
}

impl PresentError for RevsetParseError {
    open spec fn presented(err: Reported<Self>) -> UserErrorView {
        UserErrorView::titled(
            UserErrorKind::User,
            "Failed to parse revset: "@ + err.error.kind_text@,
            AnyError::RevsetParse(err),
        ).with_hints(at_most_one(revset_parse_hint(err)))
    }

    fn present(err: Reported<Self>) -> (r: UserError) {
        let hint = revset_parse_error_hint(&err);
        let message = "Failed to parse revset: ".to_string().concat(err.error.kind_text.as_str());
        let mut cmd_err = user_error_with_message(message, err);
        cmd_err.extend_hints(into_list(hint));
        cmd_err
    }
}

impl PresentError for RevsetResolutionError {
    open spec fn presented(err: Reported<Self>) -> UserErrorView {
        UserErrorView::bare(UserErrorKind::User, AnyError::RevsetResolution(err)).with_hints(
            revset_resolution_hints(err.error),
        )
    }

    fn present(err: Reported<Self>) -> (r: UserError) {
        let hints = revset_resolution_error_hints(&err.error);
        let mut cmd_err = user_error(err);
        cmd_err.extend_hints(hints);
        cmd_err
    }
}

impl PresentError for UiPathParseError {
    open spec fn presented(err: Reported<Self>) -> UserErrorView {
        UserErrorView::bare(UserErrorKind::User, AnyError::Plain(err.report))
    }

    fn present(err: Reported<Self>) -> (r: UserError) {
        user_error(err.into_plain())
    }
}

impl PresentError for WorkingCopyStateError {
    open spec fn presented(err: Reported<Self>) -> UserErrorView {
        UserErrorView::titled(
            UserErrorKind::Internal,
            "Failed to access working copy state"@,
            AnyError::Plain(err.report),
        )
    }

    fn present(err: Reported<Self>) -> (r: UserError) {
        internal_error_with_message("Failed to access working copy state", err.into_plain())
    }
}

impl PresentError for GitIgnoreError {
    open spec fn presented(err: Reported<Self>) -> UserErrorView {
        UserErrorView::titled(
            UserErrorKind::User,
            "Failed to process .gitignore."@,
            AnyError::Plain(err.report),
        )
    }

    fn present(err: Reported<Self>) -> (r: UserError) {
        user_error_with_message("Failed to process .gitignore.", err.into_plain())
    }
}

impl PresentError for AbsorbError {
    open spec fn presented(err: Reported<Self>) -> UserErrorView {
        match err.error {
            AbsorbError::Backend(e) => BackendError::presented(e),
            AbsorbError::RevsetEvaluation(e) => RevsetEvaluationError::presented(e),
        }
    }

    fn present(err: Reported<Self>) -> (r: UserError) {
        match err.error {
            AbsorbError::Backend(e) => UserError::from(e),
            AbsorbError::RevsetEvaluation(e) => UserError::from(e),
        }
    }
}

impl PresentError for FixError {
    open spec fn presented(err: Reported<Self>) -> UserErrorView {
        match err.error {
            FixError::Backend(e) => BackendError::presented(e),
            FixError::RevsetEvaluation(e) => RevsetEvaluationError::presented(e),
            FixError::Io(e) => IoError::presented(e),
            FixError::FixContent(e) => UserErrorView::titled(
                UserErrorKind::Internal,
                "An error occurred while attempting to fix file content"@,
                e,
            ),
        }
    }

    fn present(err: Reported<Self>) -> (r: UserError) {
        match err.error {
            FixError::Backend(e) => UserError::from(e),
            FixError::RevsetEvaluation(e) => UserError::from(e),
            FixError::Io(e) => UserError::from(e),
            FixError::FixContent(e) => internal_error_with_message(
                "An error occurred while attempting to fix file content",
                e,
            ),
        }
    }
}

impl PresentError for BisectionError {
    open spec fn presented(err: Reported<Self>) -> UserErrorView {
        match err.error {
            BisectionError::RevsetEvaluationError => UserErrorView::bare(UserErrorKind::User, AnyError::Plain(err.report)),
        }
    }

    fn present(err: Reported<Self>) -> (r: UserError) {
        match err.error {
            BisectionError::RevsetEvaluationError => user_error(AnyError::Plain(err.report)),
        }
    }
}

impl PresentError for SecureConfigError {
    open spec fn presented(err: Reported<Self>) -> UserErrorView {
        UserErrorView::titled(
            UserErrorKind::Internal,
            "Failed to determine the secure config for a repo"@,
            AnyError::Plain(err.report),
        )
    }

    fn present(err: Reported<Self>) -> (r: UserError) {
        internal_error_with_message("Failed to determine the secure config for a repo", err.into_plain())
    }
}

/// An error that only passes another one on is presented as that other one.
pub proof fn law_wrapping_errors_are_presented_as_what_they_wrap(
    report: Report,
    backend: Reported<BackendError>,
    index: Reported<IndexError>,
    op_store: Reported<OpStoreError>,
    op_heads_store: Reported<OpHeadsStoreError>,
    op_head_resolution: Reported<OpHeadResolutionError>,
    evaluation: Reported<RevsetEvaluationError>,
    resolution: Reported<RevsetResolutionError>,
    reset: Reported<ResetError>,
    rewrite_root: Reported<RewriteRootCommit>,
    transaction: Reported<TransactionCommitError>,
    io: Reported<IoError>,
)
    ensures
        WalkPredecessorsError::presented(
            Reported { error: WalkPredecessorsError::Backend(backend), report },
        ) == BackendError::presented(backend),
        WalkPredecessorsError::presented(
            Reported { error: WalkPredecessorsError::Index(index), report },
        ) == IndexError::presented(index),
        WalkPredecessorsError::presented(
            Reported { error: WalkPredecessorsError::OpStore(op_store), report },
        ) == OpStoreError::presented(op_store),
        OpsetEvaluationError::presented(
            Reported { error: OpsetEvaluationError::OpHeadResolution(op_head_resolution), report },
        ) == OpHeadResolutionError::presented(op_head_resolution),
        OpsetEvaluationError::presented(
            Reported { error: OpsetEvaluationError::OpHeadsStore(op_heads_store), report },
        ) == OpHeadsStoreError::presented(op_heads_store),
        OpsetEvaluationError::presented(
            Reported { error: OpsetEvaluationError::OpStore(op_store), report },
        ) == OpStoreError::presented(op_store),
        UserRevsetEvaluationError::presented(
            Reported { error: UserRevsetEvaluationError::Resolution(resolution), report },
        ) == RevsetResolutionError::presented(resolution),
        UserRevsetEvaluationError::presented(
            Reported { error: UserRevsetEvaluationError::Evaluation(evaluation), report },
        ) == RevsetEvaluationError::presented(evaluation),
        RecoverWorkspaceError::presented(
            Reported { error: RecoverWorkspaceError::Backend(backend), report },
        ) == BackendError::presented(backend),
        RecoverWorkspaceError::presented(
            Reported { error: RecoverWorkspaceError::Reset(reset), report },
        ) == ResetError::presented(reset),
        RecoverWorkspaceError::presented(
            Reported { error: RecoverWorkspaceError::RewriteRootCommit(rewrite_root), report },
        ) == RewriteRootCommit::presented(rewrite_root),
        RecoverWorkspaceError::presented(
            Reported { error: RecoverWorkspaceError::TransactionCommit(transaction), report },
        ) == TransactionCommitError::presented(transaction),
        AbsorbError::presented(Reported { error: AbsorbError::Backend(backend), report })
            == BackendError::presented(backend),
        AbsorbError::presented(
            Reported { error: AbsorbError::RevsetEvaluation(evaluation), report },
        ) == RevsetEvaluationError::presented(evaluation),
        FixError::presented(Reported { error: FixError::Backend(backend), report })
            == BackendError::presented(backend),
        FixError::presented(Reported { error: FixError::RevsetEvaluation(evaluation), report })
            == RevsetEvaluationError::presented(evaluation),
        FixError::presented(Reported { error: FixError::Io(io), report }) == IoError::presented(io),
        WorkspaceInitError::presented(
            Reported { error: WorkspaceInitError::TransactionCommit(transaction), report },
        ) == TransactionCommitError::presented(transaction),
{
}

} // verus!
