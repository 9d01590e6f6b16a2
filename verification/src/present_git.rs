//! How each error of the Git integration is presented to the user.

use vstd::prelude::*;

use crate::error_model::{
    AnyError, GitDefaultRefspecError, GitExportError, GitFetchError, GitImportError, GitPushError,
    GitRefExpansionError, GitRemoteManagementError, GitResetHeadError, Reported,
    UnexpectedGitBackendError,
};
use crate::hints::{
    into_list,
};
use crate::user_error::{
    HintView, PresentError, UserError, UserErrorKind, UserErrorView, user_error,
    user_error_with_message,
};

verus! {

impl PresentError for GitImportError {
    open spec fn presented(err: Reported<Self>) -> UserErrorView {
        let hints = match err.error {
            GitImportError::MissingHeadTarget | GitImportError::MissingRefAncestor => seq![
                "Is this Git repository a partial clone (cloned with the --filter argument)?\njj currently does not support partial clones. To use jj with this repository, try re-cloning with the full repository contents."@,
            ],
            _ => seq![],
        };
        UserErrorView::titled(
            UserErrorKind::User,
            "Failed to import refs from underlying Git repo"@,
            AnyError::Plain(err.report),
        ).with_hints(hints)
    }

    fn present(err: Reported<Self>) -> (r: UserError) {
        let hint = match &err.error {
            GitImportError::MissingHeadTarget | GitImportError::MissingRefAncestor => Some(
                "Is this Git repository a partial clone (cloned with the --filter argument)?\njj currently does not support partial clones. To use jj with this repository, try re-cloning with the full repository contents.".to_string(),
            ),
            GitImportError::Backend => None,
            GitImportError::Index => None,
            GitImportError::Git => None,
            GitImportError::UnexpectedBackend => None,
        };
        let mut cmd_err = user_error_with_message(
            "Failed to import refs from underlying Git repo",
            err.into_plain(),
        );
        cmd_err.extend_hints(into_list(hint));
        cmd_err
    }
}

impl PresentError for GitExportError {
    open spec fn presented(err: Reported<Self>) -> UserErrorView {
        UserErrorView::titled(
            UserErrorKind::User,
            "Failed to export refs to underlying Git repo"@,
            AnyError::Plain(err.report),
        )
    }

    fn present(err: Reported<Self>) -> (r: UserError) {
        user_error_with_message("Failed to export refs to underlying Git repo", err.into_plain())
    }
}

impl PresentError for GitFetchError {
    open spec fn presented(err: Reported<Self>) -> UserErrorView {
        match err.error {
            GitFetchError::NoSuchRemote => UserErrorView::bare(UserErrorKind::User, AnyError::Plain(err.report)),
            GitFetchError::RemoteName => UserErrorView::bare(
                UserErrorKind::User,
                AnyError::Plain(err.report),
            ).with_hint(
                HintView::PlainText("Run `jj git remote rename` to give a different name."@),
            ),
            GitFetchError::RejectedUpdates => UserErrorView::bare(UserErrorKind::User, AnyError::Plain(err.report)),
            GitFetchError::Subprocess => UserErrorView::bare(UserErrorKind::User, AnyError::Plain(err.report)),
        }
    }

    fn present(err: Reported<Self>) -> (r: UserError) {
        match err.error {
            GitFetchError::NoSuchRemote => user_error(AnyError::Plain(err.report)),
            GitFetchError::RemoteName => user_error(AnyError::Plain(err.report)).hinted(
                "Run `jj git remote rename` to give a different name.",
            ),
            GitFetchError::RejectedUpdates => user_error(AnyError::Plain(err.report)),
            GitFetchError::Subprocess => user_error(AnyError::Plain(err.report)),
        }
    }
}

impl PresentError for GitDefaultRefspecError {
    open spec fn presented(err: Reported<Self>) -> UserErrorView {
        match err.error {
            GitDefaultRefspecError::NoSuchRemote => UserErrorView::bare(UserErrorKind::User, AnyError::Plain(err.report)),
            GitDefaultRefspecError::InvalidRemoteConfiguration => UserErrorView::bare(UserErrorKind::User, AnyError::Plain(err.report)),
        }
    }

    fn present(err: Reported<Self>) -> (r: UserError) {
        match err.error {
            GitDefaultRefspecError::NoSuchRemote => user_error(AnyError::Plain(err.report)),
            GitDefaultRefspecError::InvalidRemoteConfiguration => user_error(AnyError::Plain(err.report)),
        }
    }
}

impl PresentError for GitRefExpansionError {
    open spec fn presented(err: Reported<Self>) -> UserErrorView {
        match err.error {
            GitRefExpansionError::Expression => UserErrorView::bare(
                UserErrorKind::User,
                AnyError::Plain(err.report),
            ).with_hint(
                HintView::PlainText("Specify patterns in `(positive | ...) & ~(negative | ...)` form."@),
            ),
            GitRefExpansionError::InvalidBranchPattern => UserErrorView::bare(UserErrorKind::User, AnyError::Plain(err.report)),
        }
    }

    fn present(err: Reported<Self>) -> (r: UserError) {
        match err.error {
            GitRefExpansionError::Expression => user_error(AnyError::Plain(err.report)).hinted(
                "Specify patterns in `(positive | ...) & ~(negative | ...)` form.",
            ),
            GitRefExpansionError::InvalidBranchPattern => user_error(AnyError::Plain(err.report)),
        }
    }
}

impl PresentError for GitPushError {
    open spec fn presented(err: Reported<Self>) -> UserErrorView {
        match err.error {
            GitPushError::NoSuchRemote => UserErrorView::bare(UserErrorKind::User, AnyError::Plain(err.report)),
            GitPushError::RemoteName => UserErrorView::bare(
                UserErrorKind::User,
                AnyError::Plain(err.report),
            ).with_hint(
                HintView::PlainText("Run `jj git remote rename` to give a different name."@),
            ),
            GitPushError::Subprocess => UserErrorView::bare(UserErrorKind::User, AnyError::Plain(err.report)),
            GitPushError::UnexpectedBackend => UserErrorView::bare(UserErrorKind::User, AnyError::Plain(err.report)),
        }
    }

    fn present(err: Reported<Self>) -> (r: UserError) {
        match err.error {
            GitPushError::NoSuchRemote => user_error(AnyError::Plain(err.report)),
            GitPushError::RemoteName => user_error(AnyError::Plain(err.report)).hinted(
                "Run `jj git remote rename` to give a different name.",
            ),
            GitPushError::Subprocess => user_error(AnyError::Plain(err.report)),
            GitPushError::UnexpectedBackend => user_error(AnyError::Plain(err.report)),
        }
    }
}

impl PresentError for GitRemoteManagementError {
    open spec fn presented(err: Reported<Self>) -> UserErrorView {
        UserErrorView::bare(UserErrorKind::User, AnyError::Plain(err.report))
    }

    fn present(err: Reported<Self>) -> (r: UserError) {
        user_error(err.into_plain())
    }
}

impl PresentError for GitResetHeadError {
    open spec fn presented(err: Reported<Self>) -> UserErrorView {
        UserErrorView::titled(
            UserErrorKind::User,
            "Failed to reset Git HEAD state"@,
            AnyError::Plain(err.report),
        )
    }

    fn present(err: Reported<Self>) -> (r: UserError) {
        user_error_with_message("Failed to reset Git HEAD state", err.into_plain())
    }
}

impl PresentError for UnexpectedGitBackendError {
    open spec fn presented(err: Reported<Self>) -> UserErrorView {
        UserErrorView::bare(UserErrorKind::User, AnyError::Plain(err.report))
    }

    fn present(err: Reported<Self>) -> (r: UserError) {
        user_error(err.into_plain())
    }
}

} // verus!
