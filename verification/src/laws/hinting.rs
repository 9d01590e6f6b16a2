//! Laws on hints: which error gives which hint.

use vstd::prelude::*;
use vstd::string::*;

use crate::error_model::{
    AnyError, ConfigGetError, FilePatternParseError, FilesetParseError, FilesetParseErrorKind,
    OpsetResolutionError, Reported, RevsetParseError, RevsetParseErrorKind, RevsetResolutionError,
    StringPatternParseError, UiPathParseError,
};
use crate::hints::{
    change_offset, check_config_file_hint, config_get_error_hint, file_pattern_parse_error_hint,
    fileset_parse_error_hint, find_source_parse_error_hint, format_similarity_hint, into_list,
    opset_resolution_error_hint, revset_parse_error_hint, revset_resolution_error_hints,
    string_pattern_parse_error_hint,
};
use crate::ids::{short_hash, CommitId, OperationId};
use crate::laws::text::{is_decimal, is_short_form, lemma_decimal, lemma_joined_is_listed, listed};
use crate::text::{decimal, texts};

verus! {

/// The hint is `text`.
pub open spec fn reads(hint: Option<String>, text: Seq<char>) -> bool {
    hint matches Some(h) && h@ == text
}

/// Both hints say the same, or there is neither.
pub open spec fn same_hint(a: Option<String>, b: Option<String>) -> bool {
    match a {
        Some(text) => reads(b, text@),
        None => b is None,
    }
}

/// `parts` are the names, in order, each in backquotes.
pub open spec fn are_backquoted(parts: Seq<Seq<char>>, names: Seq<String>) -> bool {
    &&& parts.len() == names.len()
    &&& forall|k: int|
        0 <= k < names.len() ==> #[trigger] parts[k] == seq!['`'] + names[k]@ + seq!['`']
}

/// The hint offers every one of `names`, in order, and is missing only where there are
/// none.
pub open spec fn offers(hint: Option<String>, names: Seq<String>) -> bool {
    match hint {
        Some(text) => names.len() > 0 && exists|parts: Seq<Seq<char>>|
            #[trigger] are_backquoted(parts, names) && text@ == "Did you mean "@ + listed(parts)
                + "?"@,
        None => names.len() == 0,
    }
}

/// Where a name is not found, every similar name is offered, however many there are.
pub proof fn law_every_candidate_is_offered(candidates: &[String], hint: Option<String>)
    requires
        call_ensures(format_similarity_hint, (candidates,), hint),
    ensures
        offers(hint, candidates@),
{
    lemma_offers(hint, candidates@);
}

proof fn lemma_offers(hint: Option<String>, names: Seq<String>)
    requires
        crate::hints::optional_text(hint) == crate::hints::similarity_hint(texts(names)),
    ensures
        offers(hint, names),
{
    reveal_strlit("`");
    let parts = texts(names).map_values(|name: Seq<char>| crate::hints::backquoted(name));
    assert forall|k: int| 0 <= k < names.len() implies #[trigger] parts[k] == seq!['`'] + names[k]@
        + seq!['`'] by {
        assert(parts[k] =~= seq!['`'] + names[k]@ + seq!['`']);
    }
    assert(are_backquoted(parts, names));
    lemma_joined_is_listed(parts);
}

/// A wrong configuration names its file, wherever the file is known and the value was found
/// but is wrong.
pub proof fn law_configuration_hints(
    path: &Option<String>,
    err: &ConfigGetError,
    file: Option<String>,
    get: Option<String>,
)
    requires
        call_ensures(check_config_file_hint, (path,), file),
        call_ensures(config_get_error_hint, (err,), get),
    ensures
        match *path {
            Some(p) => reads(file, "Check the config file: "@ + p@),
            None => file is None,
        },
        match *err {
            ConfigGetError::NotFound => get is None,
            ConfigGetError::Type { source_path: Some(p) } => reads(
                get,
                "Check the config file: "@ + p@,
            ),
            ConfigGetError::Type { source_path: None } => get is None,
        },
{
}

/// A pattern of an unknown kind gets a hint on the kinds; a path outside the workspace gets
/// one on how to name it from the root, where that can be done; no other pattern gets one.
pub proof fn law_pattern_hints(
    file: &FilePatternParseError,
    string: &StringPatternParseError,
    file_hint: Option<String>,
    string_hint: Option<String>,
)
    requires
        call_ensures(file_pattern_parse_error_hint, (file,), file_hint),
        call_ensures(string_pattern_parse_error_hint, (string,), string_hint),
    ensures
        *file is InvalidKind ==> reads(
            file_hint,
            "See https://docs.jj-vcs.dev/latest/filesets/#file-patterns or `jj help -k filesets` for valid prefixes."@,
        ),
        *file matches FilePatternParseError::UiPath(UiPathParseError::Fs(e)) ==> match e.quoted_repo_path {
            Some(path) => reads(
                file_hint,
                "Consider using root:"@ + path@ + " to specify repo-relative path"@,
            ),
            None => file_hint is None,
        },
        *file is RelativePath || *file is GlobPattern ==> file_hint is None,
        *string is InvalidKind ==> reads(
            string_hint,
            "Try prefixing with one of `exact:`, `glob:`, `regex:`, `substring:`, or one of these with `-i` suffix added (e.g. `glob-i:`) for case-insensitive matching"@,
        ),
        !(*string is InvalidKind) ==> string_hint is None,
{
}

/// `parts` are the short forms of the operations, in order.
pub open spec fn are_short_operations(parts: Seq<Seq<char>>, ids: Seq<OperationId>) -> bool {
    &&& parts.len() == ids.len()
    &&& forall|k: int| 0 <= k < ids.len() ==> is_short_form(#[trigger] parts[k], ids[k].hex@)
}

/// `parts` are the short forms of the commits, in order.
pub open spec fn are_short_commits(parts: Seq<Seq<char>>, ids: Seq<CommitId>) -> bool {
    &&& parts.len() == ids.len()
    &&& forall|k: int| 0 <= k < ids.len() ==> is_short_form(#[trigger] parts[k], ids[k].hex@)
}

/// Where several operations are meant, every one of them is offered by its short form; no
/// other mistake gets a hint.
pub proof fn law_every_operation_is_offered(err: &OpsetResolutionError, hint: Option<String>)
    requires
        call_ensures(opset_resolution_error_hint, (err,), hint),
    ensures
        match *err {
            OpsetResolutionError::MultipleOperations { candidates } => {
                &&& hint matches Some(text)
                &&& exists|parts: Seq<Seq<char>>|
                    #[trigger] are_short_operations(parts, candidates@) && text@
                        == "Try specifying one of the operations by ID: "@ + listed(parts)
            },
            _ => hint is None,
        },
{
    if let OpsetResolutionError::MultipleOperations { candidates } = *err {
        let parts = candidates@.map_values(|id: OperationId| short_hash(id@));
        assert forall|k: int| 0 <= k < parts.len() implies is_short_form(
            #[trigger] parts[k],
            candidates@[k].hex@,
        ) by {
            assert(parts[k] =~= candidates@[k].hex@.take(parts[k].len() as int));
        }
        assert(are_short_operations(parts, candidates@));
        lemma_joined_is_listed(parts);
    }
}

/// `parts` name the visible commits of the change `symbol`, in order: each by the change
/// and its own offset.
pub open spec fn are_offsets(
    parts: Seq<Seq<char>>,
    symbol: Seq<char>,
    targets: Seq<(usize, CommitId)>,
) -> bool {
    &&& parts.len() == targets.len()
    &&& forall|k: int|
        0 <= k < targets.len() ==> is_offset(#[trigger] parts[k], symbol, targets[k].0)
}

/// `part` is `symbol`, a slash, and `offset` in decimal notation.
pub open spec fn is_offset(part: Seq<char>, symbol: Seq<char>, offset: usize) -> bool {
    &&& part.len() > symbol.len()
    &&& part.take(symbol.len() as int) == symbol
    &&& part[symbol.len() as int] == '/'
    &&& is_decimal(part.skip(symbol.len() as int + 1), offset as int)
}

/// A symbol that is not known gets the similar ones offered. A change with several visible
/// commits gets every one of them offered by its offset, and ways to select or abandon
/// them. A reference with several targets gets every one of them offered, and a bookmark
/// also ways to select or move it. No other error gets a hint.
pub proof fn law_resolution_hints(err: &RevsetResolutionError, hints: Vec<String>)
    requires
        call_ensures(revset_resolution_error_hints, (err,), hints),
    ensures
        match *err {
            RevsetResolutionError::NoSuchRevision { name, candidates } => {
                &&& hints@.len() == (if candidates@.len() == 0 {
                    0nat
                } else {
                    1
                })
                &&& candidates@.len() > 0 ==> offers(Some(hints@[0]), candidates@)
            },
            RevsetResolutionError::DivergentChangeId { symbol, visible_targets } => {
                &&& hints@.len() == 3
                &&& exists|parts: Seq<Seq<char>>|
                    #[trigger] are_offsets(parts, symbol@, visible_targets@) && hints@[0]@
                        == "Use change offset to select single revision: "@ + listed(parts)
                &&& hints@[1]@ == "Use `change_id("@ + symbol@ + ")` to select all revisions"@
                &&& hints@[2]@ == "To abandon unneeded revisions, run `jj abandon <commit_id>`"@
            },
            RevsetResolutionError::ConflictedRef { kind, symbol, targets } => {
                &&& hints@.len() > 0
                &&& exists|parts: Seq<Seq<char>>|
                    #[trigger] are_short_commits(parts, targets@) && hints@[0]@
                        == "Use commit ID to select single revision from: "@ + listed(parts)
                &&& kind@ != "bookmark"@ ==> hints@.len() == 1
                &&& kind@ == "bookmark"@ ==> {
                    &&& hints@.len() == 3
                    &&& hints@[1]@ == "Use `bookmarks("@ + symbol@ + ")` to select all revisions"@
                    &&& hints@[2]@
                        == "To set which revision the bookmark points to, run `jj bookmark set "@
                        + symbol@ + " -r <REVISION>`"@
                }
            },
            _ => hints@.len() == 0,
        },
{
    let said = texts(hints@);
    assert(said.len() == hints@.len());
    assert(forall|k: int| 0 <= k < hints@.len() ==> hints@[k]@ == #[trigger] said[k]);
    match *err {
        RevsetResolutionError::NoSuchRevision { name, candidates } => {
            if candidates@.len() > 0 {
                assert(hints@[0]@ == said[0]);
                lemma_offers(Some(hints@[0]), candidates@);
            }
        },
        RevsetResolutionError::DivergentChangeId { symbol, visible_targets } => {
            assert(hints@[0]@ == said[0]);
            assert(hints@[1]@ == said[1]);
            assert(hints@[2]@ == said[2]);
            reveal_strlit("/");
            let parts = visible_targets@.map_values(
                |target: (usize, CommitId)| change_offset(symbol@, target.0),
            );
            assert forall|k: int| 0 <= k < parts.len() implies is_offset(
                #[trigger] parts[k],
                symbol@,
                visible_targets@[k].0,
            ) by {
                let offset = decimal(visible_targets@[k].0 as nat);
                lemma_decimal(visible_targets@[k].0 as nat);
                assert(parts[k].take(symbol@.len() as int) =~= symbol@);
                assert(parts[k].skip(symbol@.len() as int + 1) =~= offset);
            }
            assert(are_offsets(parts, symbol@, visible_targets@));
            lemma_joined_is_listed(parts);
        },
        RevsetResolutionError::ConflictedRef { kind, symbol, targets } => {
            assert(hints@[0]@ == said[0]);
            if kind@ == "bookmark"@ {
                assert(hints@[1]@ == said[1]);
                assert(hints@[2]@ == said[2]);
            }
            let parts = targets@.map_values(|id: CommitId| short_hash(id@));
            assert forall|k: int| 0 <= k < parts.len() implies is_short_form(
                #[trigger] parts[k],
                targets@[k].hex@,
            ) by {
                assert(parts[k] =~= targets@[k].hex@.take(parts[k].len() as int));
            }
            assert(are_short_commits(parts, targets@));
            lemma_joined_is_listed(parts);
        },
        _ => {},
    }
}

/// An optional hint becomes a list of that hint, or an empty list.
pub proof fn law_hint_as_list(hint: Option<String>, list: Vec<String>)
    requires
        call_ensures(into_list, (hint,), list),
    ensures
        match hint {
            Some(text) => list@.len() == 1 && list@[0]@ == text@,
            None => list@.len() == 0,
        },
{
    assert(texts(list@).len() == list@.len());
    if list@.len() == 1 {
        assert(texts(list@)[0] == list@[0]@);
    }
}

/// The hint of an error's cause is the hint that the cause itself gets, for every kind of
/// cause that can get one; of several the first. Other causes give none, nor does an error
/// without a cause.
pub proof fn law_cause_gives_its_own_hint(
    err: &AnyError,
    source: Option<&AnyError>,
    hint: Option<String>,
    own: Option<String>,
    several: Vec<String>,
)
    requires
        call_ensures(AnyError::source, (err,), source),
        call_ensures(find_source_parse_error_hint, (err,), hint),
    ensures
        match source {
            Some(AnyError::ConfigGet(e)) => call_ensures(config_get_error_hint, (&e.error,), own)
                ==> same_hint(hint, own),
            Some(AnyError::FilePatternParse(e)) => call_ensures(
                file_pattern_parse_error_hint,
                (&e.error,),
                own,
            ) ==> same_hint(hint, own),
            Some(AnyError::FilesetParse(e)) => call_ensures(fileset_parse_error_hint, (&*e,), own)
                ==> same_hint(hint, own),
            Some(AnyError::RevsetParse(e)) => call_ensures(revset_parse_error_hint, (&*e,), own)
                ==> same_hint(hint, own),
            Some(AnyError::RevsetResolution(e)) => call_ensures(
                revset_resolution_error_hints,
                (&e.error,),
                several,
            ) ==> (if several@.len() == 0 {
                hint is None
            } else {
                reads(hint, several@[0]@)
            }),
            Some(AnyError::StringPatternParse(e)) => call_ensures(
                string_pattern_parse_error_hint,
                (&e.error,),
                own,
            ) ==> same_hint(hint, own),
            Some(AnyError::Message(_)) => hint is None,
            Some(AnyError::Plain(_)) => hint is None,
            Some(AnyError::WithMessage(_)) => hint is None,
            None => hint is None,
        },
{
    assert(texts(several@).len() == several@.len());
    if several@.len() > 0 {
        assert(texts(several@)[0] == several@[0]@);
    }
}

/// A fileset with a syntax error gets a hint on the syntax, one with an unknown function the
/// similar ones, one with wrong arguments or expressions the hint of the cause, and no other
/// one a hint.
pub proof fn law_fileset_hints(
    err: &Reported<FilesetParseError>,
    hint: Option<String>,
    below: Option<String>,
)
    requires
        call_ensures(fileset_parse_error_hint, (err,), hint),
        call_ensures(find_source_parse_error_hint, (&AnyError::FilesetParse(*err),), below),
    ensures
        match err.error.kind {
            FilesetParseErrorKind::SyntaxError => reads(
                hint,
                "See https://docs.jj-vcs.dev/latest/filesets/ or use `jj help -k filesets` for filesets syntax and how to match file paths."@,
            ),
            FilesetParseErrorKind::NoSuchFunction { name, candidates } => offers(hint, candidates@),
            FilesetParseErrorKind::InvalidArguments => same_hint(hint, below),
            FilesetParseErrorKind::Expression => same_hint(hint, below),
            FilesetParseErrorKind::RedefinedFunctionParameter => hint is None,
            FilesetParseErrorKind::InAliasExpansion => hint is None,
            FilesetParseErrorKind::InParameterExpansion => hint is None,
            FilesetParseErrorKind::RecursiveAlias => hint is None,
        },
{
    if let FilesetParseErrorKind::NoSuchFunction { name, candidates } = err.error.kind {
        lemma_offers(hint, candidates@);
    }
}

/// An error that comes from another one gets the hint of that other one, however deep that
/// lies.
pub proof fn law_revset_hint_comes_from_the_origin(
    err: &Reported<RevsetParseError>,
    hint: Option<String>,
    below: Option<String>,
)
    requires
        call_ensures(revset_parse_error_hint, (err,), hint),
        err.error.origin is Some,
        call_ensures(revset_parse_error_hint, (&*err.error.origin->0,), below),
    ensures
        same_hint(hint, below),
{
}

/// The hint to write `similar_op`, which `description` tells the use of.
pub open spec fn offers_operator(
    hint: Option<String>,
    similar_op: String,
    description: String,
) -> bool {
    reads(hint, "Did you mean `"@ + similar_op@ + "` for "@ + description@ + "?"@)
}

/// A revset error with no other one behind it: a syntax error gets a hint on the syntax, a
/// wrong operator the right one, an unknown function the similar ones, wrong arguments or
/// expressions the hint of the cause, and no other one a hint.
pub proof fn law_revset_hints(
    err: &Reported<RevsetParseError>,
    hint: Option<String>,
    below: Option<String>,
)
    requires
        call_ensures(revset_parse_error_hint, (err,), hint),
        err.error.origin is None,
        call_ensures(find_source_parse_error_hint, (&AnyError::RevsetParse(*err),), below),
    ensures
        match err.error.kind {
            RevsetParseErrorKind::SyntaxError => reads(
                hint,
                "See https://docs.jj-vcs.dev/latest/revsets/ or use `jj help -k revsets` for revsets syntax and how to quote symbols."@,
            ),
            RevsetParseErrorKind::NotPrefixOperator { op, similar_op, description }
            => offers_operator(hint, similar_op, description),
            RevsetParseErrorKind::NotPostfixOperator { op, similar_op, description }
            => offers_operator(hint, similar_op, description),
            RevsetParseErrorKind::NotInfixOperator { op, similar_op, description }
            => offers_operator(hint, similar_op, description),
            RevsetParseErrorKind::NoSuchFunction { name, candidates } => offers(hint, candidates@),
            RevsetParseErrorKind::InvalidFunctionArguments => same_hint(hint, below),
            RevsetParseErrorKind::Expression => same_hint(hint, below),
            RevsetParseErrorKind::Other => hint is None,
        },
{
    if let RevsetParseErrorKind::NoSuchFunction { name, candidates } = err.error.kind {
        lemma_offers(hint, candidates@);
    }
}

} // verus!
