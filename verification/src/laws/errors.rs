//! Laws on errors as the user sees them: how they are made and how hints are added.

use vstd::prelude::*;

use crate::error_model::{
    AnyError, ConfigGetError, ErrorWithMessage, FilePatternParseError, FilesetParseError, IoError,
    Report, Reported, RevsetParseError, RevsetResolutionError, StringPatternParseError,
};
use crate::text::{converts_to, texts};
use crate::user_error::{
    config_error, config_error_with_message, internal_error, internal_error_with_message,
    user_error, user_error_with_message, ErrorHint, FormatRecorder, HintView, UserError,
    UserErrorKind, UserErrorView,
};

verus! {

/// The user is told the texts `hints`, one after the other, and nothing else.
pub open spec fn hints_read(err: UserError, hints: Seq<Seq<char>>) -> bool {
    &&& err.hints@.len() == hints.len()
    &&& forall|k: int|
        0 <= k < hints.len() ==> (#[trigger] err.hints@[k] matches ErrorHint::PlainText(text)
            && text@ == hints[k])
}

/// The user sees `given` as an error of kind `kind`, with nothing above it.
pub open spec fn shown_as_is(err: UserError, kind: UserErrorKind, given: AnyError) -> bool {
    &&& err.kind == kind
    &&& *err.error == given
}

/// The user sees `message` as an error of kind `kind`, with `given` as the cause of it.
pub open spec fn shown_under(
    err: UserError,
    kind: UserErrorKind,
    message: Seq<char>,
    given: AnyError,
) -> bool {
    &&& err.kind == kind
    &&& *err.error matches AnyError::WithMessage(wrapped)
    &&& wrapped.message@ == message
    &&& *wrapped.source == given
}

/// Both hints say the same.
pub open spec fn same_hint(a: ErrorHint, b: ErrorHint) -> bool {
    match a {
        ErrorHint::PlainText(text) => b matches ErrorHint::PlainText(other) && text@ == other@,
        ErrorHint::Formatted(recorder) => b == ErrorHint::Formatted(recorder),
    }
}

/// Both errors say the same.
pub open spec fn same_error(a: AnyError, b: AnyError) -> bool {
    match a {
        AnyError::Message(text) => b matches AnyError::Message(other) && text@ == other@,
        AnyError::WithMessage(wrapped) => b matches AnyError::WithMessage(other)
            && wrapped.message@ == other.message@ && wrapped.source == other.source,
        _ => a == b,
    }
}

/// The user cannot tell the errors apart.
pub open spec fn same_to_the_user(a: UserError, b: UserError) -> bool {
    &&& a.kind == b.kind
    &&& same_error(*a.error, *b.error)
    &&& a.hints@.len() == b.hints@.len()
    &&& forall|k: int| 0 <= k < a.hints@.len() ==> same_hint(#[trigger] a.hints@[k], b.hints@[k])
}

/// `after` is `before` with more hints behind the ones it had.
pub open spec fn only_gains_hints(before: UserError, after: UserError) -> bool {
    &&& after.kind == before.kind
    &&& same_error(*after.error, *before.error)
    &&& after.hints@.len() >= before.hints@.len()
    &&& forall|k: int|
        0 <= k < before.hints@.len() ==> same_hint(#[trigger] after.hints@[k], before.hints@[k])
}

pub(crate) proof fn lemma_hints(err: UserError)
    ensures
        err@.hints.len() == err.hints@.len(),
        forall|k: int| 0 <= k < err.hints@.len() ==> (#[trigger] err.hints@[k])@ == err@.hints[k],
{
}

pub(crate) proof fn lemma_hints_read(err: UserError, before: UserErrorView, hints: Seq<Seq<char>>)
    requires
        err@ == before.with_hints(hints),
        before.hints.len() == 0,
    ensures
        hints_read(err, hints),
{
    lemma_hints(err);
    assert forall|k: int| 0 <= k < hints.len() implies (
    #[trigger] err.hints@[k] matches ErrorHint::PlainText(text) && text@ == hints[k]) by {
        assert(err.hints@[k]@ == err@.hints[k]);
        assert(err@.hints[k] == HintView::PlainText(hints[k]));
    }
}

pub(crate) proof fn lemma_same_to_the_user(a: UserError, b: UserError)
    requires
        a@ == b@,
    ensures
        same_to_the_user(a, b),
{
    lemma_hints(a);
    lemma_hints(b);
    assert forall|k: int| 0 <= k < a.hints@.len() implies same_hint(
        #[trigger] a.hints@[k],
        b.hints@[k],
    ) by {
        assert(a.hints@[k]@ == a@.hints[k]);
        assert(b.hints@[k]@ == b@.hints[k]);
    }
}

/// The three ways to present an error as it is differ in the kind alone: what is at fault
/// is the user's doing, the configuration or the program. None of them adds a hint.
pub proof fn law_kinds_of_errors<E: Into<AnyError>>(
    err: E,
    kind: UserErrorKind,
    any: UserError,
    user: UserError,
    config: UserError,
    internal: UserError,
)
    requires
        call_ensures(UserError::new::<E>, (kind, err), any),
        call_ensures(user_error::<E>, (err,), user),
        call_ensures(config_error::<E>, (err,), config),
        call_ensures(internal_error::<E>, (err,), internal),
    ensures
        any.kind == kind,
        user.kind == UserErrorKind::User,
        config.kind == UserErrorKind::Config,
        internal.kind == UserErrorKind::Internal,
        converts_to(err, *any.error),
        converts_to(err, *user.error),
        converts_to(err, *config.error),
        converts_to(err, *internal.error),
        any.hints@.len() == 0,
        user.hints@.len() == 0,
        config.hints@.len() == 0,
        internal.hints@.len() == 0,
{
    lemma_hints(any);
    lemma_hints(user);
    lemma_hints(config);
    lemma_hints(internal);
}

/// An error under a message keeps the error as its cause, whatever the kind, and has no
/// hint.
pub proof fn law_message_goes_over_the_cause<M: Into<String>, S: Into<AnyError>>(
    kind: UserErrorKind,
    message: M,
    source: S,
    any: UserError,
    user: UserError,
    config: UserError,
    internal: UserError,
    text: Seq<char>,
    cause: AnyError,
)
    requires
        call_ensures(UserError::with_message::<M, S>, (kind, message, source), any),
        call_ensures(user_error_with_message::<M, S>, (message, source), user),
        call_ensures(config_error_with_message::<M, S>, (message, source), config),
        call_ensures(internal_error_with_message::<M, S>, (message, source), internal),
        forall|t: String| #[trigger] converts_to(message, t) ==> t@ == text,
        forall|c: AnyError| #[trigger] converts_to(source, c) ==> c == cause,
    ensures
        shown_under(any, kind, text, cause),
        shown_under(user, UserErrorKind::User, text, cause),
        shown_under(config, UserErrorKind::Config, text, cause),
        shown_under(internal, UserErrorKind::Internal, text, cause),
        any.hints@.len() == 0,
        user.hints@.len() == 0,
        config.hints@.len() == 0,
        internal.hints@.len() == 0,
{
    lemma_hints(any);
    lemma_hints(user);
    lemma_hints(config);
    lemma_hints(internal);
}

/// A message and an error are wrapped as they are given.
pub proof fn law_wrapping_keeps_both<M: Into<String>, S: Into<AnyError>>(
    message: M,
    source: S,
    r: ErrorWithMessage,
)
    requires
        call_ensures(ErrorWithMessage::new::<M, S>, (message, source), r),
    ensures
        converts_to(message, r.message),
        converts_to(source, *r.source),
{
}

/// Texts become errors that say them; an error from which a hint can be drawn keeps all
/// that is known of it.
pub proof fn law_conversion_loses_nothing(
    text: String,
    slice: &str,
    wrapped: ErrorWithMessage,
    config: Reported<ConfigGetError>,
    file_pattern: Reported<FilePatternParseError>,
    fileset: Reported<FilesetParseError>,
    revset: Reported<RevsetParseError>,
    resolution: Reported<RevsetResolutionError>,
    string_pattern: Reported<StringPatternParseError>,
    r: AnyError,
)
    ensures
        call_ensures(<AnyError as From<String>>::from, (text,), r) ==> r == AnyError::Message(text),
        call_ensures(<AnyError as From<&str>>::from, (slice,), r) ==> (r matches AnyError::Message(t)
            && t@ == slice@),
        call_ensures(<AnyError as From<ErrorWithMessage>>::from, (wrapped,), r) ==> r
            == AnyError::WithMessage(wrapped),
        call_ensures(<AnyError as From<Reported<ConfigGetError>>>::from, (config,), r) ==> r
            == AnyError::ConfigGet(config),
        call_ensures(<AnyError as From<Reported<FilePatternParseError>>>::from, (file_pattern,), r)
            ==> r == AnyError::FilePatternParse(file_pattern),
        call_ensures(<AnyError as From<Reported<FilesetParseError>>>::from, (fileset,), r) ==> r
            == AnyError::FilesetParse(fileset),
        call_ensures(<AnyError as From<Reported<RevsetParseError>>>::from, (revset,), r) ==> r
            == AnyError::RevsetParse(revset),
        call_ensures(<AnyError as From<Reported<RevsetResolutionError>>>::from, (resolution,), r)
            ==> r == AnyError::RevsetResolution(resolution),
        call_ensures(
            <AnyError as From<Reported<StringPatternParseError>>>::from,
            (string_pattern,),
            r,
        ) ==> r == AnyError::StringPatternParse(string_pattern),
{
}

/// The cause of an error is the one that its message stands over, or the one that it
/// reports; bare text has none.
pub proof fn law_cause_of_an_error<E>(
    err: &AnyError,
    report: &Report,
    source: Option<&AnyError>,
    cause: Option<&AnyError>,
    reported: Reported<E>,
    plain: AnyError,
)
    requires
        call_ensures(AnyError::source, (err,), source),
        call_ensures(Report::cause, (report,), cause),
        call_ensures(Reported::<E>::into_plain, (reported,), plain),
    ensures
        match *err {
            AnyError::Message(_) => source is None,
            AnyError::WithMessage(wrapped) => source == Some(&*wrapped.source),
            AnyError::Plain(r) => is_cause(r, source),
            AnyError::ConfigGet(e) => is_cause(e.report, source),
            AnyError::FilePatternParse(e) => is_cause(e.report, source),
            AnyError::FilesetParse(e) => is_cause(e.report, source),
            AnyError::RevsetParse(e) => is_cause(e.report, source),
            AnyError::RevsetResolution(e) => is_cause(e.report, source),
            AnyError::StringPatternParse(e) => is_cause(e.report, source),
        },
        is_cause(*report, cause),
        plain == AnyError::Plain(reported.report),
{
}

/// `cause` is the error that `report` names as its cause, or none where it names none.
pub open spec fn is_cause(report: Report, cause: Option<&AnyError>) -> bool {
    match cause {
        Some(err) => report.source matches Some(source) && *source == *err,
        None => report.source is None,
    }
}

/// However hints are added, the error stays the same and the hints that it had come first,
/// unchanged; all that is added comes behind them, in order.
pub proof fn law_hints_go_to_the_end<H: Into<String>, W>(
    err: UserError,
    hint: H,
    hinted: UserError,
    added: &mut UserError,
    extended: &mut UserError,
    hints: Vec<String>,
    formatted: &mut UserError,
    recorder: FormatRecorder,
    written: &mut UserError,
    write: W,
    text: Seq<char>,
) where W: FnOnce(&mut FormatRecorder) -> Result<(), Reported<IoError>>
    requires
        forall|t: String| #[trigger] converts_to(hint, t) ==> t@ == text,
        call_ensures(UserError::hinted::<H>, (err, hint), hinted),
        call_ensures(UserError::add_hint::<H>, (added, hint), ()),
        call_ensures(UserError::extend_hints, (extended, hints), ()),
        call_ensures(UserError::add_formatted_hint, (formatted, recorder), ()),
        call_ensures(UserError::add_formatted_hint_with::<W>, (written, write), ()),
    ensures
        only_gains_hints(err, hinted),
        hinted.hints@.len() == err.hints@.len() + 1,
        hinted.hints@.last() matches ErrorHint::PlainText(t) && t@ == text,
        only_gains_hints(*old(added), *final(added)),
        final(added).hints@.len() == old(added).hints@.len() + 1,
        final(added).hints@.last() matches ErrorHint::PlainText(t) && t@ == text,
        only_gains_hints(*old(extended), *final(extended)),
        final(extended).hints@.len() == old(extended).hints@.len() + hints@.len(),
        forall|k: int|
            0 <= k < hints@.len() ==> (final(extended).hints@[old(extended).hints@.len() + k] matches
                ErrorHint::PlainText(t) && t@ == (#[trigger] hints@[k])@),
        only_gains_hints(*old(formatted), *final(formatted)),
        final(formatted).hints@.len() == old(formatted).hints@.len() + 1,
        final(formatted).hints@.last() == ErrorHint::Formatted(recorder),
        only_gains_hints(*old(written), *final(written)),
        final(written).hints@.len() == old(written).hints@.len() + 1,
        // What is written goes to a fresh recorder that keeps colors
        exists|f: &mut FormatRecorder, outcome: Result<(), Reported<IoError>>|
            {
                &&& f.maybe_color
                &&& f.data@.len() == 0
                &&& f.labels@.len() == 0
                &&& #[trigger] call_ensures(write, (f,), outcome)
                &&& final(written).hints@.last() == ErrorHint::Formatted(*final(f))
            },
{
    lemma_only_gains(err, hinted);
    lemma_only_gains(*added, *final(added));
    lemma_only_gains(*extended, *final(extended));
    lemma_only_gains(*formatted, *final(formatted));
    lemma_only_gains(*written, *final(written));
    lemma_hints(err);
    lemma_hints(hinted);
    lemma_hints(*added);
    lemma_hints(*final(added));
    lemma_hints(*extended);
    lemma_hints(*final(extended));
    lemma_hints(*formatted);
    lemma_hints(*final(formatted));
    lemma_hints(*written);
    lemma_hints(*final(written));
    assert(hinted.hints@.last()@ == hinted@.hints.last());
    assert(final(added).hints@.last()@ == final(added)@.hints.last());
    assert(final(formatted).hints@.last()@ == final(formatted)@.hints.last());
    assert(final(written).hints@.last()@ == final(written)@.hints.last());
    assert forall|k: int| 0 <= k < hints@.len() implies (
    final(extended).hints@[extended.hints@.len() + k] matches ErrorHint::PlainText(t) && t@ == (
    #[trigger] hints@[k])@) by {
        let at = extended.hints@.len() + k;
        assert(final(extended).hints@[at]@ == final(extended)@.hints[at]);
        assert(final(extended)@.hints[at] == HintView::PlainText(texts(hints@)[k]));
    }
}

proof fn lemma_only_gains(before: UserError, after: UserError)
    requires
        after@.kind == before@.kind,
        after@.error == before@.error,
        after@.hints.len() >= before@.hints.len(),
        forall|k: int| 0 <= k < before@.hints.len() ==> after@.hints[k] == before@.hints[k],
    ensures
        only_gains_hints(before, after),
{
    lemma_hints(before);
    lemma_hints(after);
    assert forall|k: int| 0 <= k < before.hints@.len() implies same_hint(
        #[trigger] after.hints@[k],
        before.hints@[k],
    ) by {
        assert(after.hints@[k]@ == after@.hints[k]);
        assert(before.hints@[k]@ == before@.hints[k]);
    }
}

/// A new recorder has recorded nothing.
pub proof fn law_new_recorder_is_blank(maybe_color: bool, r: FormatRecorder)
    requires
        call_ensures(FormatRecorder::new, (maybe_color,), r),
    ensures
        r.maybe_color == maybe_color,
        r.data@.len() == 0,
        r.labels@.len() == 0,
{
}

} // verus!
