use jj_core::error_model::{
    AnyError, ConfigGetError, ErrorWithMessage, FilePatternParseError, FilesetParseError,
    FilesetParseErrorKind, FsPathParseError, OpsetResolutionError, Report, Reported,
    RevsetParseError, RevsetParseErrorKind, RevsetResolutionError, StringPatternParseError,
    UiPathParseError,
};
use jj_core::hints::{
    config_get_error_hint, file_pattern_parse_error_hint, fileset_parse_error_hint,
    opset_resolution_error_hint, string_pattern_parse_error_hint,
};
use jj_core::ids::{short_commit_hash, CommitId, OperationId};
use jj_core::text::{decimal_text, truncate};
use jj_core::user_error::{
    find_source_parse_error_hint, format_similarity_hint, revset_parse_error_hint,
    revset_resolution_error_hints, short_operation_hash,
};

const FILESETS: &str = "See https://docs.jj-vcs.dev/latest/filesets/ or use `jj help -k filesets` \
                        for filesets syntax and how to match file paths.";
const REVSETS: &str = "See https://docs.jj-vcs.dev/latest/revsets/ or use `jj help -k revsets` for \
                       revsets syntax and how to quote symbols.";

fn strings(texts: &[&str]) -> Vec<String> {
    texts.iter().map(|t| t.to_string()).collect()
}

fn report(source: Option<AnyError>) -> Report {
    Report { text: "text".to_string(), source: source.map(Box::new) }
}

fn reported<E>(error: E) -> Reported<E> {
    Reported { error, report: report(None) }
}

fn caused<E>(error: E, source: AnyError) -> Reported<E> {
    Reported { error, report: report(Some(source)) }
}

fn fileset(kind: FilesetParseErrorKind) -> FilesetParseError {
    FilesetParseError { kind, kind_text: "kind".to_string() }
}

fn revset(kind: RevsetParseErrorKind) -> RevsetParseError {
    RevsetParseError { kind, kind_text: "kind".to_string(), origin: None }
}

fn commit(hex: &str) -> CommitId {
    CommitId { hex: hex.to_string() }
}

#[test]
fn similarity_hint_lists_candidates() {
    assert_eq!(format_similarity_hint(&[]), None);
    assert_eq!(
        format_similarity_hint(&strings(&["main"])),
        Some("Did you mean `main`?".to_string())
    );
    assert_eq!(
        format_similarity_hint(&strings(&["a", "b", "c"])),
        Some("Did you mean `a`, `b`, `c`?".to_string())
    );
}

#[test]
fn decimal_numbers() {
    assert_eq!(decimal_text(0), "0");
    assert_eq!(decimal_text(9), "9");
    assert_eq!(decimal_text(10), "10");
    assert_eq!(decimal_text(120345678), "120345678");
    assert_eq!(decimal_text(usize::MAX), usize::MAX.to_string());
}

#[test]
fn short_hashes() {
    let id = OperationId { hex: "0123456789abcdef0123456789abcdef".to_string() };
    assert_eq!(short_operation_hash(&id), "0123456789ab");
    assert_eq!(short_operation_hash(&OperationId { hex: "0123".to_string() }), "0123");
    assert_eq!(short_commit_hash(&commit("fedcba9876543210")), "fedcba987654");
    assert_eq!(truncate("héllo", 2), "hé");
    assert_eq!(truncate("", 12), "");
}

#[test]
fn config_hint_names_the_file() {
    assert_eq!(config_get_error_hint(&ConfigGetError::NotFound), None);
    assert_eq!(config_get_error_hint(&ConfigGetError::Type { source_path: None }), None);
    assert_eq!(
        config_get_error_hint(&ConfigGetError::Type {
            source_path: Some("/home/u/config.toml".to_string())
        }),
        Some("Check the config file: /home/u/config.toml".to_string())
    );
}

#[test]
fn file_pattern_hints() {
    assert_eq!(
        file_pattern_parse_error_hint(&FilePatternParseError::InvalidKind).unwrap(),
        "See https://docs.jj-vcs.dev/latest/filesets/#file-patterns or `jj help -k filesets` for \
         valid prefixes."
    );
    let ui_path = |quoted: Option<&str>| {
        FilePatternParseError::UiPath(UiPathParseError::Fs(FsPathParseError {
            quoted_repo_path: quoted.map(|q| q.to_string()),
        }))
    };
    assert_eq!(
        file_pattern_parse_error_hint(&ui_path(Some("\"foo/bar\""))).unwrap(),
        "Consider using root:\"foo/bar\" to specify repo-relative path"
    );
    assert_eq!(file_pattern_parse_error_hint(&ui_path(None)), None);
    assert_eq!(file_pattern_parse_error_hint(&FilePatternParseError::RelativePath), None);
    assert_eq!(file_pattern_parse_error_hint(&FilePatternParseError::GlobPattern), None);
}

#[test]
fn string_pattern_hints() {
    assert_eq!(
        string_pattern_parse_error_hint(&StringPatternParseError::InvalidKind).unwrap(),
        "Try prefixing with one of `exact:`, `glob:`, `regex:`, `substring:`, or one of these with \
         `-i` suffix added (e.g. `glob-i:`) for case-insensitive matching"
    );
    assert_eq!(string_pattern_parse_error_hint(&StringPatternParseError::GlobPattern), None);
    assert_eq!(string_pattern_parse_error_hint(&StringPatternParseError::Regex), None);
}

#[test]
fn opset_hint_lists_short_ids() {
    let candidates = vec![
        OperationId { hex: "0123456789abcdef".to_string() },
        OperationId { hex: "fedcba9876543210".to_string() },
    ];
    assert_eq!(
        opset_resolution_error_hint(&OpsetResolutionError::MultipleOperations { candidates }),
        Some(
            "Try specifying one of the operations by ID: 0123456789ab, fedcba987654".to_string()
        )
    );
    let empty = OpsetResolutionError::MultipleOperations { candidates: vec![] };
    assert_eq!(
        opset_resolution_error_hint(&empty),
        Some("Try specifying one of the operations by ID: ".to_string())
    );
    assert_eq!(opset_resolution_error_hint(&OpsetResolutionError::EmptyOperations), None);
    assert_eq!(opset_resolution_error_hint(&OpsetResolutionError::InvalidIdPrefix), None);
    assert_eq!(opset_resolution_error_hint(&OpsetResolutionError::NoSuchOperation), None);
    assert_eq!(opset_resolution_error_hint(&OpsetResolutionError::AmbiguousIdPrefix), None);
}

#[test]
fn fileset_hints() {
    let hint = |kind| fileset_parse_error_hint(&reported(fileset(kind)));
    assert_eq!(hint(FilesetParseErrorKind::SyntaxError).unwrap(), FILESETS);
    let candidates = strings(&["all", "none"]);
    let name = "al".to_string();
    assert_eq!(
        hint(FilesetParseErrorKind::NoSuchFunction { name, candidates }).unwrap(),
        "Did you mean `all`, `none`?"
    );
    assert_eq!(hint(FilesetParseErrorKind::InvalidArguments), None);
    assert_eq!(hint(FilesetParseErrorKind::RedefinedFunctionParameter), None);
    assert_eq!(hint(FilesetParseErrorKind::Expression), None);
    assert_eq!(hint(FilesetParseErrorKind::InAliasExpansion), None);
    assert_eq!(hint(FilesetParseErrorKind::InParameterExpansion), None);
    assert_eq!(hint(FilesetParseErrorKind::RecursiveAlias), None);

    for kind in [FilesetParseErrorKind::InvalidArguments, FilesetParseErrorKind::Expression] {
        let source = AnyError::FilePatternParse(reported(FilePatternParseError::InvalidKind));
        let err = caused(fileset(kind), source);
        assert!(fileset_parse_error_hint(&err).unwrap().contains("#file-patterns"));
    }
    let source = AnyError::FilePatternParse(reported(FilePatternParseError::InvalidKind));
    let err = caused(fileset(FilesetParseErrorKind::RecursiveAlias), source);
    assert_eq!(fileset_parse_error_hint(&err), None);
}

#[test]
fn revset_parse_hints() {
    let hint = |kind| revset_parse_error_hint(&reported(revset(kind)));
    assert_eq!(hint(RevsetParseErrorKind::SyntaxError).unwrap(), REVSETS);
    let text = |t: &str| t.to_string();
    assert_eq!(
        hint(RevsetParseErrorKind::NotPrefixOperator {
            op: text("-"),
            similar_op: text("~"),
            description: text("negation"),
        })
        .unwrap(),
        "Did you mean `~` for negation?"
    );
    assert_eq!(
        hint(RevsetParseErrorKind::NotPostfixOperator {
            op: text("^"),
            similar_op: text("-"),
            description: text("parents"),
        })
        .unwrap(),
        "Did you mean `-` for parents?"
    );
    assert_eq!(
        hint(RevsetParseErrorKind::NotInfixOperator {
            op: text("||"),
            similar_op: text("|"),
            description: text("union"),
        })
        .unwrap(),
        "Did you mean `|` for union?"
    );
    assert_eq!(
        hint(RevsetParseErrorKind::NoSuchFunction {
            name: text("head"),
            candidates: strings(&["heads"])
        })
        .unwrap(),
        "Did you mean `heads`?"
    );
    assert_eq!(hint(RevsetParseErrorKind::InvalidFunctionArguments), None);
    assert_eq!(hint(RevsetParseErrorKind::Expression), None);
    assert_eq!(hint(RevsetParseErrorKind::Other), None);

    for kind in [RevsetParseErrorKind::InvalidFunctionArguments, RevsetParseErrorKind::Expression] {
        let source = AnyError::StringPatternParse(reported(StringPatternParseError::InvalidKind));
        let err = caused(revset(kind), source);
        assert!(revset_parse_error_hint(&err).unwrap().starts_with("Try prefixing"));
    }
}

#[test]
fn revset_parse_hint_is_that_of_the_bottom_error() {
    let bottom = reported(revset(RevsetParseErrorKind::SyntaxError));
    let middle = reported(RevsetParseError {
        origin: Some(Box::new(bottom)),
        ..revset(RevsetParseErrorKind::Other)
    });
    let top = reported(RevsetParseError {
        origin: Some(Box::new(middle)),
        ..revset(RevsetParseErrorKind::NoSuchFunction {
            name: "f".to_string(),
            candidates: strings(&["g"]),
        })
    });
    assert_eq!(revset_parse_error_hint(&top).unwrap(), REVSETS);
}

#[test]
fn revset_resolution_hints() {
    let none: Vec<String> = vec![];
    let hints = revset_resolution_error_hints(&RevsetResolutionError::NoSuchRevision {
        name: "mian".to_string(),
        candidates: strings(&["main"]),
    });
    assert_eq!(hints, strings(&["Did you mean `main`?"]));
    let hints = revset_resolution_error_hints(&RevsetResolutionError::NoSuchRevision {
        name: "x".to_string(),
        candidates: vec![],
    });
    assert_eq!(hints, none);

    let hints = revset_resolution_error_hints(&RevsetResolutionError::DivergentChangeId {
        symbol: "qpvuntsm".to_string(),
        visible_targets: vec![(0, commit("aa")), (12, commit("bb"))],
    });
    assert_eq!(
        hints,
        strings(&[
            "Use change offset to select single revision: qpvuntsm/0, qpvuntsm/12",
            "Use `change_id(qpvuntsm)` to select all revisions",
            "To abandon unneeded revisions, run `jj abandon <commit_id>`",
        ])
    );

    let targets = || vec![commit("0123456789abcdef"), commit("fedcba9876543210")];
    let hints = revset_resolution_error_hints(&RevsetResolutionError::ConflictedRef {
        kind: "bookmark".to_string(),
        symbol: "main".to_string(),
        targets: targets(),
    });
    assert_eq!(
        hints,
        strings(&[
            "Use commit ID to select single revision from: 0123456789ab, fedcba987654",
            "Use `bookmarks(main)` to select all revisions",
            "To set which revision the bookmark points to, run `jj bookmark set main -r \
             <REVISION>`",
        ])
    );
    let hints = revset_resolution_error_hints(&RevsetResolutionError::ConflictedRef {
        kind: "tag".to_string(),
        symbol: "v1".to_string(),
        targets: targets(),
    });
    assert_eq!(
        hints,
        strings(&["Use commit ID to select single revision from: 0123456789ab, fedcba987654"])
    );

    for err in [
        RevsetResolutionError::EmptyString,
        RevsetResolutionError::WorkspaceMissingWorkingCopy,
        RevsetResolutionError::AmbiguousCommitIdPrefix,
        RevsetResolutionError::AmbiguousChangeIdPrefix,
        RevsetResolutionError::Backend,
        RevsetResolutionError::Other,
    ] {
        assert_eq!(revset_resolution_error_hints(&err), none);
    }
}

#[test]
fn hint_comes_from_the_source_of_an_error() {
    let path = Some("config.toml".to_string());
    let sources = vec![
        (
            AnyError::ConfigGet(reported(ConfigGetError::Type { source_path: path })),
            Some("Check the config file: config.toml".to_string()),
        ),
        (
            AnyError::FilesetParse(reported(fileset(FilesetParseErrorKind::SyntaxError))),
            Some(FILESETS.to_string()),
        ),
        (
            AnyError::RevsetParse(reported(revset(RevsetParseErrorKind::SyntaxError))),
            Some(REVSETS.to_string()),
        ),
        (
            AnyError::RevsetResolution(reported(RevsetResolutionError::DivergentChangeId {
                symbol: "z".to_string(),
                visible_targets: vec![(3, commit("aa"))],
            })),
            Some("Use change offset to select single revision: z/3".to_string()),
        ),
        (AnyError::RevsetResolution(reported(RevsetResolutionError::EmptyString)), None),
        (AnyError::Message("text".to_string()), None),
        (AnyError::Plain(report(None)), None),
    ];
    for (source, hint) in sources {
        let err = AnyError::WithMessage(ErrorWithMessage {
            message: "message".to_string(),
            source: Box::new(source),
        });
        assert_eq!(find_source_parse_error_hint(&err), hint);
    }
}

#[test]
fn hint_of_the_error_itself_is_not_looked_at() {
    let err = AnyError::RevsetParse(reported(revset(RevsetParseErrorKind::SyntaxError)));
    assert_eq!(find_source_parse_error_hint(&err), None);
    let err = AnyError::Plain(report(Some(err)));
    assert_eq!(find_source_parse_error_hint(&err).unwrap(), REVSETS);
}

#[test]
fn hint_is_found_through_expressions() {
    let pattern = AnyError::StringPatternParse(reported(StringPatternParseError::InvalidKind));
    let inner = AnyError::FilesetParse(caused(fileset(FilesetParseErrorKind::Expression), pattern));
    let outer = caused(revset(RevsetParseErrorKind::Expression), inner);
    assert!(revset_parse_error_hint(&outer).unwrap().starts_with("Try prefixing"));
}
