//! Hints: what the user is told to try after an error.

use vstd::prelude::*;
use vstd::string::*;

use crate::error_model::{
    cause, AnyError, ConfigGetError, ErrorWithMessage, FilePatternParseError, FilesetParseError,
    FilesetParseErrorKind, OpsetResolutionError, Reported, RevsetParseError, RevsetParseErrorKind,
    RevsetResolutionError, StringPatternParseError, UiPathParseError,
};
use crate::ids::{short_commit_hash, short_hash, short_operation_hash, CommitId, OperationId};
use crate::text::{decimal, decimal_text, join, joined, texts};

verus! {

/// The characters of an optional text.
pub open spec fn optional_text(text: Option<String>) -> Option<Seq<char>> {
    match text {
        Some(s) => Some(s@),
        None => None,
    }
}

/// `name` in backquotes.
pub open spec fn backquoted(name: Seq<char>) -> Seq<char> {
    "`"@ + name + "`"@
}

/// The list of `names`, each in backquotes.
pub open spec fn backquoted_list(names: Seq<Seq<char>>) -> Seq<char> {
    joined(names.map_values(|name: Seq<char>| backquoted(name)), ", "@)
}

/// The hint that offers `names` in place of a name that was not found.
pub open spec fn similarity_hint(names: Seq<Seq<char>>) -> Option<Seq<char>> {
    if names.len() == 0 {
        None
    } else {
        Some("Did you mean "@ + backquoted_list(names) + "?"@)
    }
}

/// Offers the candidates in place of a name that was not found, if there are any.
pub fn format_similarity_hint(candidates: &[String]) -> (r: Option<String>)
    ensures
        optional_text(r) == similarity_hint(texts(candidates@)),
{
    if candidates.len() == 0 {
        return None;
    }
    let mut quoted: Vec<String> = Vec::new();
    let ghost names = texts(candidates@);
    for i in 0..candidates.len()
        invariant
            quoted.len() == i,
            names == texts(candidates@),
            forall|j: int| 0 <= j < i ==> #[trigger] quoted[j]@ == backquoted(names[j]),
    {
        quoted.push("`".to_string().concat(candidates[i].as_str()).concat("`"));
    }
    proof {
        reveal_strlit(", ");
        assert(texts(quoted@) =~= names.map_values(|name: Seq<char>| backquoted(name)));
    }
    let quoted_names = join(&quoted, ", ");
    Some("Did you mean ".to_string().concat(quoted_names.as_str()).concat("?"))
}

/// The hint that names the configuration file at fault.
pub open spec fn config_file_hint(source_path: Option<String>) -> Option<Seq<char>> {
    match source_path {
        Some(path) => Some("Check the config file: "@ + path@),
        None => None,
    }
}

/// Names the configuration file at fault, where it is known.
pub fn check_config_file_hint(source_path: &Option<String>) -> (r: Option<String>)
    ensures
        optional_text(r) == config_file_hint(*source_path),
{
    match source_path {
        Some(path) => Some("Check the config file: ".to_string().concat(path.as_str())),
        None => None,
    }
}

/// The hint for a configuration value that could not be read.
pub open spec fn config_get_hint(err: ConfigGetError) -> Option<Seq<char>> {
    match err {
        ConfigGetError::NotFound => None,
        ConfigGetError::Type { source_path } => config_file_hint(source_path),
    }
}

/// Returns the hint for a configuration value that could not be read.
pub fn config_get_error_hint(err: &ConfigGetError) -> (r: Option<String>)
    ensures
        optional_text(r) == config_get_hint(*err),
{
    match err {
        ConfigGetError::NotFound => None,
        ConfigGetError::Type { source_path } => check_config_file_hint(source_path),
    }
}

/// The hint for a file pattern that could not be parsed.
pub open spec fn file_pattern_hint(err: FilePatternParseError) -> Option<Seq<char>> {
    match err {
        FilePatternParseError::InvalidKind => Some(
            "See https://docs.jj-vcs.dev/latest/filesets/#file-patterns or `jj help -k filesets` for valid prefixes."@,
        ),
        FilePatternParseError::UiPath(UiPathParseError::Fs(e)) => match e.quoted_repo_path {
            Some(path) => Some(
                "Consider using root:"@ + path@ + " to specify repo-relative path"@,
            ),
            None => None,
        },
        FilePatternParseError::RelativePath => None,
        FilePatternParseError::GlobPattern => None,
    }
}

/// Returns the hint for a file pattern that could not be parsed.
pub fn file_pattern_parse_error_hint(err: &FilePatternParseError) -> (r: Option<String>)
    ensures
        optional_text(r) == file_pattern_hint(*err),
{
    match err {
        FilePatternParseError::InvalidKind => Some(
            "See https://docs.jj-vcs.dev/latest/filesets/#file-patterns or `jj help -k filesets` for valid prefixes.".to_string(),
        ),
        // Suggest root:"<path>" if input can be parsed as repo-relative path
        FilePatternParseError::UiPath(UiPathParseError::Fs(e)) => match &e.quoted_repo_path {
            Some(path) => Some(
                "Consider using root:".to_string().concat(path.as_str()).concat(
                    " to specify repo-relative path",
                ),
            ),
            None => None,
        },
        FilePatternParseError::RelativePath => None,
        FilePatternParseError::GlobPattern => None,
    }
}

/// The hint for a string pattern that could not be parsed.
pub open spec fn string_pattern_hint(err: StringPatternParseError) -> Option<Seq<char>> {
    match err {
        StringPatternParseError::InvalidKind => Some(
            "Try prefixing with one of `exact:`, `glob:`, `regex:`, `substring:`, or one of these with `-i` suffix added (e.g. `glob-i:`) for case-insensitive matching"@,
        ),
        StringPatternParseError::GlobPattern | StringPatternParseError::Regex => None,
    }
}

/// Returns the hint for a string pattern that could not be parsed.
pub fn string_pattern_parse_error_hint(err: &StringPatternParseError) -> (r: Option<String>)
    ensures
        optional_text(r) == string_pattern_hint(*err),
{
    match err {
        StringPatternParseError::InvalidKind => Some(
            "Try prefixing with one of `exact:`, `glob:`, `regex:`, `substring:`, or one of these with `-i` suffix added (e.g. `glob-i:`) for case-insensitive matching".to_string(),
        ),
        StringPatternParseError::GlobPattern | StringPatternParseError::Regex => None,
    }
}

/// The list of the operations' short forms.
pub open spec fn short_operation_list(ids: Seq<OperationId>) -> Seq<char> {
    joined(ids.map_values(|id: OperationId| short_hash(id@)), ", "@)
}

/// The hint for an operation expression that could not be resolved.
pub open spec fn opset_resolution_hint(err: OpsetResolutionError) -> Option<Seq<char>> {
    match err {
        OpsetResolutionError::MultipleOperations { candidates } => Some(
            "Try specifying one of the operations by ID: "@ + short_operation_list(candidates@),
        ),
        _ => None,
    }
}

/// Returns the hint for an operation expression that could not be resolved.
pub fn opset_resolution_error_hint(err: &OpsetResolutionError) -> (r: Option<String>)
    ensures
        optional_text(r) == opset_resolution_hint(*err),
{
    match err {
        OpsetResolutionError::MultipleOperations { candidates } => {
            let mut short: Vec<String> = Vec::new();
            for i in 0..candidates.len()
                invariant
                    short.len() == i,
                    forall|j: int|
                        0 <= j < i ==> #[trigger] short[j]@ == short_hash(candidates[j]@),
            {
                short.push(short_operation_hash(&candidates[i]));
            }
            proof {
                reveal_strlit(", ");
                assert(texts(short@) =~= candidates@.map_values(
                    |id: OperationId| short_hash(id@),
                ));
            }
            let list = join(&short, ", ");
            Some("Try specifying one of the operations by ID: ".to_string().concat(list.as_str()))
        },
        OpsetResolutionError::EmptyOperations
        | OpsetResolutionError::InvalidIdPrefix
        | OpsetResolutionError::NoSuchOperation
        | OpsetResolutionError::AmbiguousIdPrefix => None,
    }
}

/// The hint to pick one of several commits.
pub open spec fn multiple_targets_hint(targets: Seq<CommitId>) -> Seq<char> {
    "Use commit ID to select single revision from: "@ + joined(
        targets.map_values(|id: CommitId| short_hash(id@)),
        ", "@,
    )
}

fn multiple_targets_text(targets: &Vec<CommitId>) -> (r: String)
    ensures
        r@ == multiple_targets_hint(targets@),
{
    let mut short: Vec<String> = Vec::new();
    for i in 0..targets.len()
        invariant
            short.len() == i,
            forall|j: int| 0 <= j < i ==> #[trigger] short[j]@ == short_hash(targets[j]@),
    {
        short.push(short_commit_hash(&targets[i]));
    }
    proof {
        reveal_strlit(", ");
        assert(texts(short@) =~= targets@.map_values(|id: CommitId| short_hash(id@)));
    }
    let list = join(&short, ", ");
    "Use commit ID to select single revision from: ".to_string().concat(list.as_str())
}

/// One of several commits with the same change ID, named by its offset.
pub open spec fn change_offset(symbol: Seq<char>, offset: usize) -> Seq<char> {
    symbol + "/"@ + decimal(offset as nat)
}

/// The hint to pick one of several commits with the same change ID.
pub open spec fn change_offset_hint(
    symbol: Seq<char>,
    visible_targets: Seq<(usize, CommitId)>,
) -> Seq<char> {
    "Use change offset to select single revision: "@ + joined(
        visible_targets.map_values(|target: (usize, CommitId)| change_offset(symbol, target.0)),
        ", "@,
    )
}

fn change_offset_text(symbol: &String, visible_targets: &Vec<(usize, CommitId)>) -> (r: String)
    ensures
        r@ == change_offset_hint(symbol@, visible_targets@),
{
    let mut offsets: Vec<String> = Vec::new();
    for i in 0..visible_targets.len()
        invariant
            offsets.len() == i,
            forall|j: int|
                0 <= j < i ==> #[trigger] offsets[j]@ == change_offset(
                    symbol@,
                    visible_targets[j].0,
                ),
    {
        let offset: usize = visible_targets[i].0;
        offsets.push(symbol.clone().concat("/").concat(decimal_text(offset).as_str()));
    }
    proof {
        reveal_strlit(", ");
        assert(texts(offsets@) =~= visible_targets@.map_values(
            |target: (usize, CommitId)| change_offset(symbol@, target.0),
        ));
    }
    let list = join(&offsets, ", ");
    "Use change offset to select single revision: ".to_string().concat(list.as_str())
}

/// An optional text as a list of at most one.
pub open spec fn at_most_one(text: Option<Seq<char>>) -> Seq<Seq<char>> {
    match text {
        Some(s) => seq![s],
        None => seq![],
    }
}

/// Turns an optional text into a list of at most one.
pub fn into_list(text: Option<String>) -> (r: Vec<String>)
    ensures
        texts(r@) == at_most_one(optional_text(text)),
{
    let mut list: Vec<String> = Vec::new();
    if let Some(s) = text {
        list.push(s);
    }
    list
}

/// The hints for a symbol that could not be resolved.
pub open spec fn revset_resolution_hints(err: RevsetResolutionError) -> Seq<Seq<char>> {
    match err {
        RevsetResolutionError::NoSuchRevision { name, candidates } => at_most_one(
            similarity_hint(texts(candidates@)),
        ),
        RevsetResolutionError::DivergentChangeId { symbol, visible_targets } => seq![
            change_offset_hint(symbol@, visible_targets@),
            "Use `change_id("@ + symbol@ + ")` to select all revisions"@,
            "To abandon unneeded revisions, run `jj abandon <commit_id>`"@,
        ],
        RevsetResolutionError::ConflictedRef { kind, symbol, targets } => if kind@ == "bookmark"@ {
            seq![
                multiple_targets_hint(targets@),
                "Use `bookmarks("@ + symbol@ + ")` to select all revisions"@,
                "To set which revision the bookmark points to, run `jj bookmark set "@ + symbol@
                    + " -r <REVISION>`"@,
            ]
        } else {
            seq![multiple_targets_hint(targets@)]
        },
        _ => seq![],
    }
}

/// Returns the hints for a symbol that could not be resolved.
pub fn revset_resolution_error_hints(err: &RevsetResolutionError) -> (r: Vec<String>)
    ensures
        texts(r@) == revset_resolution_hints(*err),
{
    match err {
        RevsetResolutionError::NoSuchRevision { name: _, candidates } => into_list(
            format_similarity_hint(candidates.as_slice()),
        ),
        RevsetResolutionError::DivergentChangeId { symbol, visible_targets } => {
            let mut hints: Vec<String> = Vec::new();
            hints.push(change_offset_text(symbol, visible_targets));
            hints.push(
                "Use `change_id(".to_string().concat(symbol.as_str()).concat(
                    ")` to select all revisions",
                ),
            );
            hints.push("To abandon unneeded revisions, run `jj abandon <commit_id>`".to_string());
            assert(texts(hints@) =~= revset_resolution_hints(*err));
            hints
        },
        RevsetResolutionError::ConflictedRef { kind, symbol, targets } => {
            let mut hints: Vec<String> = Vec::new();
            hints.push(multiple_targets_text(targets));
            if *kind == "bookmark".to_string() {
                hints.push(
                    "Use `bookmarks(".to_string().concat(symbol.as_str()).concat(
                        ")` to select all revisions",
                    ),
                );
                hints.push(
                    "To set which revision the bookmark points to, run `jj bookmark set ".to_string().concat(
                    symbol.as_str()).concat(" -r <REVISION>`"),
                );
            }
            assert(texts(hints@) =~= revset_resolution_hints(*err));
            hints
        },
        RevsetResolutionError::EmptyString
        | RevsetResolutionError::WorkspaceMissingWorkingCopy
        | RevsetResolutionError::AmbiguousCommitIdPrefix
        | RevsetResolutionError::AmbiguousChangeIdPrefix
        | RevsetResolutionError::Backend
        | RevsetResolutionError::Other => Vec::new(),
    }
}

/// The hint that the error behind another one gives.
pub open spec fn cause_hint(source: Option<AnyError>) -> Option<Seq<char>>
    decreases source,
{
    match source {
        Some(AnyError::ConfigGet(e)) => config_get_hint(e.error),
        Some(AnyError::FilePatternParse(e)) => file_pattern_hint(e.error),
        Some(AnyError::FilesetParse(e)) => fileset_parse_hint(e),
        Some(AnyError::RevsetParse(e)) => revset_parse_hint(e),
        Some(AnyError::RevsetResolution(e)) => {
            let hints = revset_resolution_hints(e.error);
            if hints.len() == 0 {
                None
            } else {
                Some(hints[0])
            }
        },
        Some(AnyError::StringPatternParse(e)) => string_pattern_hint(e.error),
        _ => None,
    }
}

/// The hint for a fileset expression that could not be parsed.
pub open spec fn fileset_parse_hint(err: Reported<FilesetParseError>) -> Option<Seq<char>>
    decreases err,
{
    match err.error.kind {
        FilesetParseErrorKind::SyntaxError => Some(
            "See https://docs.jj-vcs.dev/latest/filesets/ or use `jj help -k filesets` for filesets syntax and how to match file paths."@,
        ),
        FilesetParseErrorKind::NoSuchFunction { name, candidates } => similarity_hint(
            texts(candidates@),
        ),
        FilesetParseErrorKind::InvalidArguments => cause_hint(cause(err.report)),
        FilesetParseErrorKind::Expression => cause_hint(cause(err.report)),
        _ => None,
    }
}

/// The hint that offers an operator in place of a wrong one.
pub open spec fn similar_operator_hint(similar_op: Seq<char>, description: Seq<char>) -> Seq<char> {
    "Did you mean `"@ + similar_op + "` for "@ + description + "?"@
}

/// The hint for a revset expression that could not be parsed: that of the bottom error,
/// which is usually the root cause.
pub open spec fn revset_parse_hint(err: Reported<RevsetParseError>) -> Option<Seq<char>>
    decreases err,
{
    match err.error.origin {
        Some(origin) => revset_parse_hint(*origin),
        None => match err.error.kind {
            RevsetParseErrorKind::SyntaxError => Some(
                "See https://docs.jj-vcs.dev/latest/revsets/ or use `jj help -k revsets` for revsets syntax and how to quote symbols."@,
            ),
            RevsetParseErrorKind::NotPrefixOperator { op, similar_op, description } => Some(
                similar_operator_hint(similar_op@, description@),
            ),
            RevsetParseErrorKind::NotPostfixOperator { op, similar_op, description } => Some(
                similar_operator_hint(similar_op@, description@),
            ),
            RevsetParseErrorKind::NotInfixOperator { op, similar_op, description } => Some(
                similar_operator_hint(similar_op@, description@),
            ),
            RevsetParseErrorKind::NoSuchFunction { name, candidates } => similarity_hint(
                texts(candidates@),
            ),
            RevsetParseErrorKind::InvalidFunctionArguments => cause_hint(cause(err.report)),
            RevsetParseErrorKind::Expression => cause_hint(cause(err.report)),
            RevsetParseErrorKind::Other => None,
        },
    }
}

/// Returns the hint that the error behind `err` gives.
pub fn find_source_parse_error_hint(err: &AnyError) -> (r: Option<String>)
    ensures
        optional_text(r) == cause_hint(err.spec_source()),
{
    source_hint(err.source())
}

fn source_hint(source: Option<&AnyError>) -> (r: Option<String>)
    ensures
        optional_text(r) == cause_hint(
            match source {
                Some(e) => Some(*e),
                None => None,
            },
        ),
    decreases source,
{
    match source {
        Some(AnyError::ConfigGet(e)) => config_get_error_hint(&e.error),
        Some(AnyError::FilePatternParse(e)) => file_pattern_parse_error_hint(&e.error),
        Some(AnyError::FilesetParse(e)) => fileset_parse_error_hint(e),
        Some(AnyError::RevsetParse(e)) => revset_parse_error_hint(e),
        Some(AnyError::RevsetResolution(e)) => {
            let mut hints = revset_resolution_error_hints(&e.error);
            assert(texts(hints@).len() == hints@.len());
            if hints.len() == 0 {
                None
            } else {
                Some(hints.remove(0))
            }
        },
        Some(AnyError::StringPatternParse(e)) => string_pattern_parse_error_hint(&e.error),
        _ => None,
    }
}

/// Returns the hint for a fileset expression that could not be parsed.
pub fn fileset_parse_error_hint(err: &Reported<FilesetParseError>) -> (r: Option<String>)
    ensures
        optional_text(r) == fileset_parse_hint(*err),
    decreases err,
{
    match &err.error.kind {
        FilesetParseErrorKind::SyntaxError => Some(
            "See https://docs.jj-vcs.dev/latest/filesets/ or use `jj help -k filesets` for filesets syntax and how to match file paths.".to_string(),
        ),
        FilesetParseErrorKind::NoSuchFunction { name: _, candidates } => format_similarity_hint(
            candidates.as_slice(),
        ),
        FilesetParseErrorKind::InvalidArguments => source_hint(err.report.cause()),
        FilesetParseErrorKind::RedefinedFunctionParameter => None,
        FilesetParseErrorKind::Expression => source_hint(err.report.cause()),
        FilesetParseErrorKind::InAliasExpansion
        | FilesetParseErrorKind::InParameterExpansion
        | FilesetParseErrorKind::RecursiveAlias => None,
    }
}

fn similar_operator_text(similar_op: &String, description: &String) -> (r: String)
    ensures
        r@ == similar_operator_hint(similar_op@, description@),
{
    "Did you mean `".to_string().concat(similar_op.as_str()).concat("` for ").concat(
        description.as_str(),
    ).concat("?")
}

/// Returns the hint for a revset expression that could not be parsed.
pub fn revset_parse_error_hint(err: &Reported<RevsetParseError>) -> (r: Option<String>)
    ensures
        optional_text(r) == revset_parse_hint(*err),
    decreases err,
{
    // Only for the bottom error, which is usually the root cause
    if let Some(origin) = &err.error.origin {
        return revset_parse_error_hint(origin);
    }
    match &err.error.kind {
        RevsetParseErrorKind::SyntaxError => Some(
            "See https://docs.jj-vcs.dev/latest/revsets/ or use `jj help -k revsets` for revsets syntax and how to quote symbols.".to_string(),
        ),
        RevsetParseErrorKind::NotPrefixOperator { op: _, similar_op, description } => Some(
            similar_operator_text(similar_op, description),
        ),
        RevsetParseErrorKind::NotPostfixOperator { op: _, similar_op, description } => Some(
            similar_operator_text(similar_op, description),
        ),
        RevsetParseErrorKind::NotInfixOperator { op: _, similar_op, description } => Some(
            similar_operator_text(similar_op, description),
        ),
        RevsetParseErrorKind::NoSuchFunction { name: _, candidates } => format_similarity_hint(
            candidates.as_slice(),
        ),
        RevsetParseErrorKind::InvalidFunctionArguments => source_hint(err.report.cause()),
        RevsetParseErrorKind::Expression => source_hint(err.report.cause()),
        RevsetParseErrorKind::Other => None,
    }
}

/// The error at the bottom of a chain of original errors.
pub open spec fn bottom_error(err: Reported<RevsetParseError>) -> Reported<RevsetParseError>
    decreases err,
{
    match err.error.origin {
        Some(origin) => bottom_error(*origin),
        None => err,
    }
}

/// The hint for a revset that could not be parsed is that of the bottom error alone.
pub proof fn law_hint_is_that_of_bottom_error(err: Reported<RevsetParseError>)
    ensures
        bottom_error(err).error.origin is None,
        revset_parse_hint(err) == revset_parse_hint(bottom_error(err)),
    decreases err,
{
    match err.error.origin {
        Some(origin) => law_hint_is_that_of_bottom_error(*origin),
        None => {},
    }
}

/// Wrapping an error in a message leaves its hint within reach.
pub proof fn law_wrapped_error_keeps_its_hint(wrapped: ErrorWithMessage)
    ensures
        cause_hint(AnyError::WithMessage(wrapped).spec_source()) == cause_hint(
            Some(*wrapped.source),
        ),
{
}

/// `part` stands in `whole` in one piece.
pub open spec fn occurs_in(part: Seq<char>, whole: Seq<char>) -> bool {
    exists|before: Seq<char>, after: Seq<char>| #[trigger] (before + part + after) == whole
}

/// Every part stands in the joined text.
pub proof fn law_joined_holds_every_part(parts: Seq<Seq<char>>, sep: Seq<char>, k: int)
    requires
        0 <= k < parts.len(),
    ensures
        occurs_in(parts[k], joined(parts, sep)),
    decreases parts.len(),
{
    let none = Seq::<char>::empty();
    if parts.len() == 1 {
        assert(none + parts[0] + none =~= joined(parts, sep));
    } else if k == 0 {
        let after = sep + joined(parts.drop_first(), sep);
        assert(none + parts[0] + after =~= joined(parts, sep));
    } else {
        let rest = parts.drop_first();
        law_joined_holds_every_part(rest, sep, k - 1);
        let (before, after) = choose|before: Seq<char>, after: Seq<char>| #[trigger]
            (before + rest[k - 1] + after) == joined(rest, sep);
        let longer = parts[0] + sep + before;
        assert(longer + parts[k] + after =~= joined(parts, sep));
    }
}

/// A hint is given exactly where there are candidates, and it names each of them in
/// backquotes.
pub proof fn law_similarity_hint_names_every_candidate(names: Seq<Seq<char>>)
    ensures
        similarity_hint(names) is Some <==> names.len() > 0,
        forall|k: int|
            0 <= k < names.len() ==> occurs_in(
                backquoted(#[trigger] names[k]),
                similarity_hint(names)->0,
            ),
{
    assert forall|k: int| 0 <= k < names.len() implies occurs_in(
        backquoted(#[trigger] names[k]),
        similarity_hint(names)->0,
    ) by {
        let quoted = names.map_values(|name: Seq<char>| backquoted(name));
        law_joined_holds_every_part(quoted, ", "@, k);
        let (before, after) = choose|before: Seq<char>, after: Seq<char>| #[trigger]
            (before + quoted[k] + after) == joined(quoted, ", "@);
        let head = "Did you mean "@ + before;
        let tail = after + "?"@;
        assert(head + backquoted(names[k]) + tail =~= similarity_hint(names)->0);
    }
}

} // verus!
