//! The errors that reach the user, as values: what each prints, what caused it, and
//! the details that decide how it is presented.

use vstd::prelude::*;

use crate::ids::{CommitId, OperationId};

verus! {

/// How an error presents itself.
#[derive(Debug)]
pub struct Report {
    /// What the error prints.
    pub text: String,
    /// The error that caused it.
    pub source: Option<Box<AnyError>>,
}

/// An error, together with how it presents itself.
#[derive(Debug)]
pub struct Reported<E> {
    pub error: E,
    pub report: Report,
}

/// Wraps error with user-visible message.
#[derive(Debug)]
pub struct ErrorWithMessage {
    pub message: String,
    pub source: Box<AnyError>,
}

/// An error of any kind. The kinds from which a hint can be drawn keep their details.
#[derive(Debug)]
pub enum AnyError {
    /// Bare text.
    Message(String),
    /// An error of which only the presentation matters.
    Plain(Report),
    WithMessage(ErrorWithMessage),
    ConfigGet(Reported<ConfigGetError>),
    FilePatternParse(Reported<FilePatternParseError>),
    FilesetParse(Reported<FilesetParseError>),
    RevsetParse(Reported<RevsetParseError>),
    RevsetResolution(Reported<RevsetResolutionError>),
    StringPatternParse(Reported<StringPatternParseError>),
}

/// What is known of an error without looking into the errors below it.
pub enum ErrorView {
    Message(Seq<char>),
    WithMessage(Seq<char>, AnyError),
    Given(AnyError),
}

impl View for AnyError {
    type V = ErrorView;

    open spec fn view(&self) -> ErrorView {
        match *self {
            AnyError::Message(text) => ErrorView::Message(text@),
            AnyError::WithMessage(wrapped) => ErrorView::WithMessage(
                wrapped.message@,
                *wrapped.source,
            ),
            other => ErrorView::Given(other),
        }
    }
}

/// The error behind `report`.
pub open spec fn cause(report: Report) -> Option<AnyError> {
    match report.source {
        Some(source) => Some(*source),
        None => None,
    }
}

impl Report {
    /// Returns the error behind this report.
    pub fn cause(&self) -> (r: Option<&AnyError>)
        ensures
            match r {
                Some(source) => cause(*self) == Some(*source),
                None => cause(*self) is None,
            },
    {
        match &self.source {
            Some(source) => Some(source),
            None => None,
        }
    }
}

impl AnyError {
    /// The error that caused this one.
    pub open spec fn spec_source(self) -> Option<AnyError> {
        match self {
            AnyError::Message(_) => None,
            AnyError::Plain(report) => cause(report),
            AnyError::WithMessage(wrapped) => Some(*wrapped.source),
            AnyError::ConfigGet(e) => cause(e.report),
            AnyError::FilePatternParse(e) => cause(e.report),
            AnyError::FilesetParse(e) => cause(e.report),
            AnyError::RevsetParse(e) => cause(e.report),
            AnyError::RevsetResolution(e) => cause(e.report),
            AnyError::StringPatternParse(e) => cause(e.report),
        }
    }

    /// Returns the error that caused this one.
    pub fn source(&self) -> (r: Option<&AnyError>)
        ensures
            match r {
                Some(source) => self.spec_source() == Some(*source),
                None => self.spec_source() is None,
            },
    {
        match self {
            AnyError::Message(_) => None,
            AnyError::Plain(report) => report.cause(),
            AnyError::WithMessage(wrapped) => Some(&wrapped.source),
            AnyError::ConfigGet(e) => e.report.cause(),
            AnyError::FilePatternParse(e) => e.report.cause(),
            AnyError::FilesetParse(e) => e.report.cause(),
            AnyError::RevsetParse(e) => e.report.cause(),
            AnyError::RevsetResolution(e) => e.report.cause(),
            AnyError::StringPatternParse(e) => e.report.cause(),
        }
    }
}

impl<E> Reported<E> {
    /// Forgets the details of the error and keeps its presentation.
    pub fn into_plain(self) -> (r: AnyError)
        ensures
            r == AnyError::Plain(self.report),
    {
        AnyError::Plain(self.report)
    }
}

impl From<String> for AnyError {
    fn from(err: String) -> (r: AnyError) {
        AnyError::Message(err)
    }
}

impl vstd::std_specs::convert::FromSpecImpl<String> for AnyError {
    open spec fn obeys_from_spec() -> bool {
        true
    }

    open spec fn from_spec(err: String) -> AnyError {
        AnyError::Message(err)
    }
}

impl<'a> From<&'a str> for AnyError {
    fn from(err: &'a str) -> (r: AnyError)
        ensures
            r@ == ErrorView::Message(err@),
    {
        AnyError::Message(err.to_string())
    }
}

// The text is copied into a new string, of which only the characters are known.
impl<'a> vstd::std_specs::convert::FromSpecImpl<&'a str> for AnyError {
    open spec fn obeys_from_spec() -> bool {
        false
    }

    open spec fn from_spec(err: &'a str) -> AnyError {
        arbitrary()
    }
}

impl From<ErrorWithMessage> for AnyError {
    fn from(err: ErrorWithMessage) -> (r: AnyError) {
        AnyError::WithMessage(err)
    }
}

impl vstd::std_specs::convert::FromSpecImpl<ErrorWithMessage> for AnyError {
    open spec fn obeys_from_spec() -> bool {
        true
    }

    open spec fn from_spec(err: ErrorWithMessage) -> AnyError {
        AnyError::WithMessage(err)
    }
}

impl From<Reported<ConfigGetError>> for AnyError {
    fn from(err: Reported<ConfigGetError>) -> (r: AnyError) {
        AnyError::ConfigGet(err)
    }
}

impl vstd::std_specs::convert::FromSpecImpl<Reported<ConfigGetError>> for AnyError {
    open spec fn obeys_from_spec() -> bool {
        true
    }

    open spec fn from_spec(err: Reported<ConfigGetError>) -> AnyError {
        AnyError::ConfigGet(err)
    }
}

impl From<Reported<FilePatternParseError>> for AnyError {
    fn from(err: Reported<FilePatternParseError>) -> (r: AnyError) {
        AnyError::FilePatternParse(err)
    }
}

impl vstd::std_specs::convert::FromSpecImpl<Reported<FilePatternParseError>> for AnyError {
    open spec fn obeys_from_spec() -> bool {
        true
    }

    open spec fn from_spec(err: Reported<FilePatternParseError>) -> AnyError {
        AnyError::FilePatternParse(err)
    }
}

impl From<Reported<FilesetParseError>> for AnyError {
    fn from(err: Reported<FilesetParseError>) -> (r: AnyError) {
        AnyError::FilesetParse(err)
    }
}

impl vstd::std_specs::convert::FromSpecImpl<Reported<FilesetParseError>> for AnyError {
    open spec fn obeys_from_spec() -> bool {
        true
    }

    open spec fn from_spec(err: Reported<FilesetParseError>) -> AnyError {
        AnyError::FilesetParse(err)
    }
}

impl From<Reported<RevsetParseError>> for AnyError {
    fn from(err: Reported<RevsetParseError>) -> (r: AnyError) {
        AnyError::RevsetParse(err)
    }
}

impl vstd::std_specs::convert::FromSpecImpl<Reported<RevsetParseError>> for AnyError {
    open spec fn obeys_from_spec() -> bool {
        true
    }

    open spec fn from_spec(err: Reported<RevsetParseError>) -> AnyError {
        AnyError::RevsetParse(err)
    }
}

impl From<Reported<RevsetResolutionError>> for AnyError {
    fn from(err: Reported<RevsetResolutionError>) -> (r: AnyError) {
        AnyError::RevsetResolution(err)
    }
}

impl vstd::std_specs::convert::FromSpecImpl<Reported<RevsetResolutionError>> for AnyError {
    open spec fn obeys_from_spec() -> bool {
        true
    }

    open spec fn from_spec(err: Reported<RevsetResolutionError>) -> AnyError {
        AnyError::RevsetResolution(err)
    }
}

impl From<Reported<StringPatternParseError>> for AnyError {
    fn from(err: Reported<StringPatternParseError>) -> (r: AnyError) {
        AnyError::StringPatternParse(err)
    }
}

impl vstd::std_specs::convert::FromSpecImpl<Reported<StringPatternParseError>> for AnyError {
    open spec fn obeys_from_spec() -> bool {
        true
    }

    open spec fn from_spec(err: Reported<StringPatternParseError>) -> AnyError {
        AnyError::StringPatternParse(err)
    }
}

/// A configuration value could not be read.
#[derive(Debug)]
pub enum ConfigGetError {
    NotFound,
    /// The value has the wrong type.
    Type {
        /// The file that holds the value, as displayed.
        source_path: Option<String>,
    },
}

/// A configuration file could not be loaded.
#[derive(Debug)]
pub enum ConfigLoadError {
    Read,
    Parse {
        /// The file, as displayed.
        source_path: Option<String>,
    },
}

/// A configuration could not be migrated.
#[derive(Debug)]
pub struct ConfigMigrateError {
    /// The file that holds the configuration, as displayed.
    pub source_path: Option<String>,
}

/// A path given on the command line could not be read as a file pattern.
#[derive(Debug)]
pub enum FilePatternParseError {
    InvalidKind,
    UiPath(UiPathParseError),
    RelativePath,
    GlobPattern,
}

/// A path given by the user could not be converted.
#[derive(Debug)]
pub enum UiPathParseError {
    Fs(FsPathParseError),
}

/// A path of the file system does not lead into the workspace.
#[derive(Debug)]
pub struct FsPathParseError {
    /// The given input read as a path relative to the repository, in quotes, where it
    /// is such a path.
    pub quoted_repo_path: Option<String>,
}

/// A fileset expression could not be parsed.
#[derive(Debug)]
pub struct FilesetParseError {
    pub kind: FilesetParseErrorKind,
    /// What the kind prints.
    pub kind_text: String,
}

#[derive(Debug)]
pub enum FilesetParseErrorKind {
    SyntaxError,
    NoSuchFunction { name: String, candidates: Vec<String> },
    InvalidArguments,
    RedefinedFunctionParameter,
    Expression,
    InAliasExpansion,
    InParameterExpansion,
    RecursiveAlias,
}

/// A revset expression could not be parsed.
#[derive(Debug)]
pub struct RevsetParseError {
    pub kind: RevsetParseErrorKind,
    /// What the kind prints.
    pub kind_text: String,
    /// The original parsing error, which typically occurred in an alias expression.
    pub origin: Option<Box<Reported<RevsetParseError>>>,
}

#[derive(Debug)]
pub enum RevsetParseErrorKind {
    SyntaxError,
    NotPrefixOperator { op: String, similar_op: String, description: String },
    NotPostfixOperator { op: String, similar_op: String, description: String },
    NotInfixOperator { op: String, similar_op: String, description: String },
    NoSuchFunction { name: String, candidates: Vec<String> },
    InvalidFunctionArguments,
    Expression,
    /// Any other kind: there is nothing to suggest.
    Other,
}

/// A symbol in a revset could not be resolved.
#[derive(Debug)]
pub enum RevsetResolutionError {
    NoSuchRevision { name: String, candidates: Vec<String> },
    /// A change ID of more than one visible commit, each with its offset.
    DivergentChangeId { symbol: String, visible_targets: Vec<(usize, CommitId)> },
    /// A reference with more than one target.
    ConflictedRef { kind: String, symbol: String, targets: Vec<CommitId> },
    EmptyString,
    WorkspaceMissingWorkingCopy,
    AmbiguousCommitIdPrefix,
    AmbiguousChangeIdPrefix,
    Backend,
    Other,
}

/// A string pattern could not be parsed.
#[derive(Debug)]
pub enum StringPatternParseError {
    InvalidKind,
    GlobPattern,
    Regex,
}

/// An operation expression could not be resolved.
#[derive(Debug)]
pub enum OpsetResolutionError {
    MultipleOperations { candidates: Vec<OperationId> },
    EmptyOperations,
    InvalidIdPrefix,
    NoSuchOperation,
    AmbiguousIdPrefix,
}

/// An operation expression could not be evaluated.
#[derive(Debug)]
pub enum OpsetEvaluationError {
    OpsetResolution(Reported<OpsetResolutionError>),
    OpHeadResolution(Reported<OpHeadResolutionError>),
    OpHeadsStore(Reported<OpHeadsStoreError>),
    OpStore(Reported<OpStoreError>),
}

/// The latest operation could not be told.
#[derive(Debug)]
pub enum OpHeadResolutionError {
    NoHeads,
}

#[derive(Clone, Copy, Debug, PartialEq, Eq, Structural)]
pub enum IoErrorKind {
    BrokenPipe,
    Other,
}

/// Reading or writing failed.
#[derive(Debug)]
pub struct IoError {
    pub kind: IoErrorKind,
}

/// The store of commits failed.
#[derive(Debug)]
pub enum BackendError {
    /// The backend does not offer the operation.
    Unsupported,
    Other,
}

/// A workspace could not be set up.
#[derive(Debug)]
pub enum WorkspaceInitError {
    DestinationExists,
    EncodeRepoPath,
    CheckOutCommit(Reported<CheckOutCommitError>),
    Path(Reported<PathError>),
    OpHeadsStore(Reported<OpHeadsStoreError>),
    WorkspaceStore(Reported<WorkspaceStoreError>),
    Backend(Reported<BackendError>),
    WorkingCopyState(Reported<WorkingCopyStateError>),
    SignInit(Reported<SignInitError>),
    TransactionCommit(Reported<TransactionCommitError>),
}

/// The history of a change could not be walked.
#[derive(Debug)]
pub enum WalkPredecessorsError {
    Backend(Reported<BackendError>),
    Index(Reported<IndexError>),
    OpStore(Reported<OpStoreError>),
    CycleDetected,
}

/// A revset given by the user could not be evaluated.
#[derive(Debug)]
pub enum UserRevsetEvaluationError {
    Resolution(Reported<RevsetResolutionError>),
    Evaluation(Reported<RevsetEvaluationError>),
}

/// A workspace could not be recovered.
#[derive(Debug)]
pub enum RecoverWorkspaceError {
    Backend(Reported<BackendError>),
    Reset(Reported<ResetError>),
    RewriteRootCommit(Reported<RewriteRootCommit>),
    TransactionCommit(Reported<TransactionCommitError>),
    WorkspaceMissingWorkingCopy,
}

/// Changes could not be moved into the commits that they belong to.
#[derive(Debug)]
pub enum AbsorbError {
    Backend(Reported<BackendError>),
    RevsetEvaluation(Reported<RevsetEvaluationError>),
}

/// A tool could not be run over file contents.
#[derive(Debug)]
pub enum FixError {
    Backend(Reported<BackendError>),
    RevsetEvaluation(Reported<RevsetEvaluationError>),
    Io(Reported<IoError>),
    FixContent(AnyError),
}

/// A search for the first bad commit failed.
#[derive(Debug)]
pub enum BisectionError {
    RevsetEvaluationError,
}

/// Refs could not be read from the Git repository.
#[derive(Debug)]
pub enum GitImportError {
    MissingHeadTarget,
    MissingRefAncestor,
    Backend,
    Index,
    Git,
    UnexpectedBackend,
}

/// Refs could not be fetched from a remote.
#[derive(Debug)]
pub enum GitFetchError {
    NoSuchRemote,
    RemoteName,
    RejectedUpdates,
    Subprocess,
}

/// The refs to fetch from a remote could not be told.
#[derive(Debug)]
pub enum GitDefaultRefspecError {
    NoSuchRemote,
    InvalidRemoteConfiguration,
}

/// Patterns of refs could not be expanded.
#[derive(Debug)]
pub enum GitRefExpansionError {
    Expression,
    InvalidBranchPattern,
}

/// Refs could not be pushed to a remote.
#[derive(Debug)]
pub enum GitPushError {
    NoSuchRemote,
    RemoteName,
    Subprocess,
    UnexpectedBackend,
}

// Errors of which only the presentation matters.

#[derive(Debug)]
pub struct PathError;

#[derive(Debug)]
pub struct ConfigFileSaveError;

#[derive(Debug)]
pub struct RewriteRootCommit;

#[derive(Debug)]
pub struct EditCommitError;

#[derive(Debug)]
pub struct CheckOutCommitError;

#[derive(Debug)]
pub struct RenameWorkspaceError;

#[derive(Debug)]
pub struct IndexError;

#[derive(Debug)]
pub struct OpHeadsStoreError;

#[derive(Debug)]
pub struct WorkspaceStoreError;

#[derive(Debug)]
pub struct SnapshotError;

#[derive(Debug)]
pub struct OpStoreError;

#[derive(Debug)]
pub struct RepoLoaderError;

#[derive(Debug)]
pub struct ResetError;

#[derive(Debug)]
pub struct TransactionCommitError;

#[derive(Debug)]
pub struct TrailerParseError;

#[derive(Debug)]
pub struct RevsetEvaluationError;

#[derive(Debug)]
pub struct WorkingCopyStateError;

#[derive(Debug)]
pub struct GitIgnoreError;

#[derive(Debug)]
pub struct SecureConfigError;

#[derive(Debug)]
pub struct SignInitError;

#[derive(Debug)]
pub struct GitExportError;

#[derive(Debug)]
pub struct GitRemoteManagementError;

#[derive(Debug)]
pub struct GitResetHeadError;

#[derive(Debug)]
pub struct UnexpectedGitBackendError;

} // verus!
