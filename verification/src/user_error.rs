//! Errors as they are shown to the user: a kind, the error itself, and hints.

use std::sync::Arc;

use vstd::prelude::*;

use crate::error_model::{AnyError, ErrorView, ErrorWithMessage, IoError, Reported};
use crate::text::{converts_to, texts};

pub use crate::hints::{
    find_source_parse_error_hint, format_similarity_hint, revset_parse_error_hint,
    revset_resolution_error_hints,
};
pub use crate::ids::short_operation_hash;

verus! {

/// Who or what is at fault.
#[derive(Clone, Copy, Debug, PartialEq, Eq, Structural)]
pub enum UserErrorKind {
    User,
    Config,
    /// Invalid command line.
    Cli,
    BrokenPipe,
    Internal,
}

/// A change of the labels in effect.
#[derive(Clone, Debug)]
pub enum LabelChange {
    Push(String),
    Pop,
}

/// Formatted output, recorded for later.
#[derive(Clone, Debug)]
pub struct FormatRecorder {
    /// Whether the output may be shown in color.
    pub maybe_color: bool,
    pub data: Vec<u8>,
    /// Each change of labels, with the length of `data` at which it happened.
    pub labels: Vec<(usize, LabelChange)>,
}

impl FormatRecorder {
    /// Nothing has been recorded.
    pub open spec fn is_blank(self, maybe_color: bool) -> bool {
        &&& self.maybe_color == maybe_color
        &&& self.data@.len() == 0
        &&& self.labels@.len() == 0
    }

    /// A recorder that has recorded nothing.
    pub fn new(maybe_color: bool) -> (r: Self)
        ensures
            r.is_blank(maybe_color),
    {
        FormatRecorder { maybe_color, data: Vec::new(), labels: Vec::new() }
    }
}

/// What the user may try.
#[derive(Clone, Debug)]
pub enum ErrorHint {
    PlainText(String),
    Formatted(FormatRecorder),
}

/// A hint as a value.
pub enum HintView {
    PlainText(Seq<char>),
    Formatted(FormatRecorder),
}

impl View for ErrorHint {
    type V = HintView;

    open spec fn view(&self) -> HintView {
        match *self {
            ErrorHint::PlainText(text) => HintView::PlainText(text@),
            ErrorHint::Formatted(recorder) => HintView::Formatted(recorder),
        }
    }
}

/// An error as it is shown to the user.
#[derive(Clone, Debug)]
pub struct UserError {
    pub kind: UserErrorKind,
    pub error: Arc<AnyError>,
    pub hints: Vec<ErrorHint>,
}

/// A user error as a value.
#[verifier::ext_equal]
pub struct UserErrorView {
    pub kind: UserErrorKind,
    pub error: ErrorView,
    pub hints: Seq<HintView>,
}

impl View for UserError {
    type V = UserErrorView;

    open spec fn view(&self) -> UserErrorView {
        UserErrorView {
            kind: self.kind,
            error: self.error@,
            hints: self.hints@.map_values(|hint: ErrorHint| hint@),
        }
    }
}

impl UserErrorView {
    /// An error that is shown as it is.
    pub open spec fn bare(kind: UserErrorKind, err: AnyError) -> Self {
        UserErrorView { kind, error: err@, hints: seq![] }
    }

    /// An error that is shown under a message, as the cause of it.
    pub open spec fn titled(kind: UserErrorKind, message: Seq<char>, source: AnyError) -> Self {
        UserErrorView { kind, error: ErrorView::WithMessage(message, source), hints: seq![] }
    }

    /// The same error, followed by more plain-text hints.
    pub open spec fn with_hints(self, hints: Seq<Seq<char>>) -> Self {
        UserErrorView {
            hints: self.hints + hints.map_values(|text: Seq<char>| HintView::PlainText(text)),
            ..self
        }
    }

    /// The same error, followed by one more hint.
    pub open spec fn with_hint(self, hint: HintView) -> Self {
        UserErrorView { hints: self.hints.push(hint), ..self }
    }
}

impl ErrorWithMessage {
    /// Puts a message over an error.
    pub fn new<M: Into<String>, S: Into<AnyError>>(message: M, source: S) -> (r: Self)
        ensures
            converts_to(message, r.message),
            converts_to(source, *r.source),
    {
        ErrorWithMessage { message: message.into(), source: Box::new(source.into()) }
    }
}

impl UserError {
    /// Presents an error as it is.
    pub fn new<E: Into<AnyError>>(kind: UserErrorKind, err: E) -> (r: Self)
        ensures
            r.kind == kind,
            converts_to(err, *r.error),
            r.hints@.len() == 0,
            r@ == UserErrorView::bare(kind, *r.error),
    {
        let r = UserError { kind, error: Arc::new(err.into()), hints: Vec::new() };
        assert(r@ =~= UserErrorView::bare(kind, *r.error));
        r
    }

    /// Presents an error under a message, as the cause of it.
    pub fn with_message<M: Into<String>, S: Into<AnyError>>(
        kind: UserErrorKind,
        message: M,
        source: S,
    ) -> (r: Self)
        ensures
            exists|text: String, cause: AnyError|
                {
                    &&& #[trigger] converts_to(message, text)
                    &&& #[trigger] converts_to(source, cause)
                    &&& r@ == UserErrorView::titled(kind, text@, cause)
                },
    {
        let wrapped = ErrorWithMessage::new(message, source);
        let ghost text = wrapped.message;
        let ghost cause = *wrapped.source;
        let r = Self::new(kind, wrapped);
        assert(converts_to(message, text) && converts_to(source, cause));
        r
    }

    /// Returns error with the given plain-text `hint` attached.
    pub fn hinted<H: Into<String>>(self, hint: H) -> (r: Self)
        ensures
            exists|text: String|
                {
                    &&& #[trigger] converts_to(hint, text)
                    &&& r@ == self@.with_hint(HintView::PlainText(text@))
                },
    {
        let mut r = self;
        r.add_hint(hint);
        r
    }

    /// Appends plain-text `hint` to the error.
    pub fn add_hint<H: Into<String>>(&mut self, hint: H)
        ensures
            exists|text: String|
                {
                    &&& #[trigger] converts_to(hint, text)
                    &&& final(self)@ == old(self)@.with_hint(HintView::PlainText(text@))
                },
    {
        let text: String = hint.into();
        let ghost t = text;
        self.hints.push(ErrorHint::PlainText(text));
        assert(converts_to(hint, t));
        assert(self@ =~= old(self)@.with_hint(HintView::PlainText(t@)));
    }

    /// Appends formatted `hint` to the error.
    pub fn add_formatted_hint(&mut self, hint: FormatRecorder)
        ensures
            final(self)@ == old(self)@.with_hint(HintView::Formatted(hint)),
    {
        self.hints.push(ErrorHint::Formatted(hint));
        assert(self@ =~= old(self)@.with_hint(HintView::Formatted(hint)));
    }

    /// Constructs formatted hint and appends it to the error.
    pub fn add_formatted_hint_with<W>(&mut self, write: W) where
        W: FnOnce(&mut FormatRecorder) -> Result<(), Reported<IoError>>,

        requires
            forall|formatter: &mut FormatRecorder|
                formatter.is_blank(true) ==> #[trigger] call_requires(write, (formatter,)),
            forall|formatter: &mut FormatRecorder, written: Result<(), Reported<IoError>>|
                formatter.is_blank(true) && #[trigger] call_ensures(write, (formatter,), written)
                    ==> written is Ok,
        ensures
            exists|formatter: &mut FormatRecorder, written: Result<(), Reported<IoError>>|
                {
                    &&& formatter.is_blank(true)
                    &&& #[trigger] call_ensures(write, (formatter,), written)
                    &&& final(self)@ == old(self)@.with_hint(HintView::Formatted(*final(formatter)))
                },
    {
        let mut formatter = FormatRecorder::new(true);
        let _written = write(&mut formatter);
        self.add_formatted_hint(formatter);
    }

    /// Appends 0 or more plain-text `hints` to the error.
    pub fn extend_hints(&mut self, hints: Vec<String>)
        ensures
            final(self)@ == old(self)@.with_hints(texts(hints@)),
    {
        let ghost all = hints@;
        proof {
            assert(texts(all.take(0)) =~= Seq::<Seq<char>>::empty());
            assert(old(self)@.with_hints(texts(all.take(0))) =~= old(self)@);
        }
        for text in iter: hints
            invariant
                iter.seq() == all,
                self@ == old(self)@.with_hints(texts(all.take(iter.index()))),
        {
            let ghost was = self@;
            let ghost before = all.take(iter.index());
            let ghost after = all.take(iter.index() + 1);
            self.hints.push(ErrorHint::PlainText(text));
            proof {
                assert(after =~= before.push(text));
                assert(texts(after) =~= texts(before).push(text@));
                assert(self@.hints =~= was.hints.push(HintView::PlainText(text@)));
                assert(self@ =~= old(self)@.with_hints(texts(after)));
            }
        }
        assert(all.take(all.len() as int) =~= all);
    }
}

/// Presents an error that the user can do something about.
pub fn user_error<E: Into<AnyError>>(err: E) -> (r: UserError)
    ensures
        converts_to(err, *r.error),
        r@ == UserErrorView::bare(UserErrorKind::User, *r.error),
{
    UserError::new(UserErrorKind::User, err)
}

/// Presents an error that the user can do something about, under a message.
pub fn user_error_with_message<M: Into<String>, S: Into<AnyError>>(message: M, source: S) -> (r:
    UserError)
    ensures
        exists|text: String, cause: AnyError|
            {
                &&& #[trigger] converts_to(message, text)
                &&& #[trigger] converts_to(source, cause)
                &&& r@ == UserErrorView::titled(UserErrorKind::User, text@, cause)
            },
{
    UserError::with_message(UserErrorKind::User, message, source)
}

/// Presents an error that lies in the configuration.
pub fn config_error<E: Into<AnyError>>(err: E) -> (r: UserError)
    ensures
        converts_to(err, *r.error),
        r@ == UserErrorView::bare(UserErrorKind::Config, *r.error),
{
    UserError::new(UserErrorKind::Config, err)
}

/// Presents an error that lies in the configuration, under a message.
pub fn config_error_with_message<M: Into<String>, S: Into<AnyError>>(message: M, source: S) -> (r:
    UserError)
    ensures
        exists|text: String, cause: AnyError|
            {
                &&& #[trigger] converts_to(message, text)
                &&& #[trigger] converts_to(source, cause)
                &&& r@ == UserErrorView::titled(UserErrorKind::Config, text@, cause)
            },
{
    UserError::with_message(UserErrorKind::Config, message, source)
}

/// Presents an error that the user cannot do anything about.
pub fn internal_error<E: Into<AnyError>>(err: E) -> (r: UserError)
    ensures
        converts_to(err, *r.error),
        r@ == UserErrorView::bare(UserErrorKind::Internal, *r.error),
{
    UserError::new(UserErrorKind::Internal, err)
}

/// Presents an error that the user cannot do anything about, under a message.
pub fn internal_error_with_message<M: Into<String>, S: Into<AnyError>>(message: M, source: S) -> (r:
    UserError)
    ensures
        exists|text: String, cause: AnyError|
            {
                &&& #[trigger] converts_to(message, text)
                &&& #[trigger] converts_to(source, cause)
                &&& r@ == UserErrorView::titled(UserErrorKind::Internal, text@, cause)
            },
{
    UserError::with_message(UserErrorKind::Internal, message, source)
}

/// An error that has a presentation to the user.
pub trait PresentError: Sized {
    /// How the error is presented.
    spec fn presented(err: Reported<Self>) -> UserErrorView;

    /// Presents the error.
    fn present(err: Reported<Self>) -> (r: UserError)
        ensures
            r@ == Self::presented(err),
    ;
}

impl<E: PresentError> From<Reported<E>> for UserError {
    fn from(err: Reported<E>) -> (r: UserError)
        ensures
            r@ == E::presented(err),
    {
        E::present(err)
    }
}

// The presentation holds new strings, of which only the characters are known.
impl<E: PresentError> vstd::std_specs::convert::FromSpecImpl<Reported<E>> for UserError {
    open spec fn obeys_from_spec() -> bool {
        false
    }

    open spec fn from_spec(err: Reported<E>) -> UserError {
        arbitrary()
    }
}

/// Hints given in two goes are hints given in one.
pub proof fn law_hints_accumulate(
    err: UserErrorView,
    first: Seq<Seq<char>>,
    second: Seq<Seq<char>>,
)
    ensures
        err.with_hints(first).with_hints(second) == err.with_hints(first + second),
{
    assert(err.with_hints(first).with_hints(second) =~= err.with_hints(first + second));
}

/// No hints leave an error as it is, and a list of one hint is that hint.
pub proof fn law_few_hints(err: UserErrorView, text: Seq<char>)
    ensures
        err.with_hints(seq![]) == err,
        err.with_hints(seq![text]) == err.with_hint(HintView::PlainText(text)),
{
    assert(err.with_hints(seq![]) =~= err);
    assert(err.with_hints(seq![text]) =~= err.with_hint(HintView::PlainText(text)));
}

/// Hints change neither the kind nor the error, and earlier hints stay where they are.
pub proof fn law_hints_only_append(err: UserErrorView, hints: Seq<Seq<char>>, hint: HintView)
    ensures
        err.with_hints(hints).kind == err.kind,
        err.with_hints(hints).error == err.error,
        err.hints.is_prefix_of(err.with_hints(hints).hints),
        err.with_hint(hint).kind == err.kind,
        err.with_hint(hint).error == err.error,
        err.hints.is_prefix_of(err.with_hint(hint).hints),
{
    assert(err.hints =~= err.with_hints(hints).hints.take(err.hints.len() as int));
    assert(err.hints =~= err.with_hint(hint).hints.take(err.hints.len() as int));
}

} // verus!
