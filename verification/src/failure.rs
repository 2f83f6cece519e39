//! The unified error of every context: one cause, raised once where the
//! failure happened, and the annotations that callers further up attached to
//! it.

use vstd::prelude::*;
use crate::text::{decimal, joined, to_decimal};

verus! {

/// The family a failure belongs to.
#[derive(Clone, Copy, Debug, PartialEq, Eq, Structural)]
pub enum FailureKind {
    /// Reading a file or reaching a server failed.
    Transport,
    /// What was read is not what was expected: not JSON, or JSON of another shape.
    Format,
    /// The server answered, but not with success.
    Protocol,
    /// A rule of the application was broken.
    Domain,
}

/// The failure at the place where it happened. There is one variant for each
/// type of source error, and each keeps all that the source error held.
#[derive(Clone, Debug, PartialEq, Eq)]
pub enum Cause {
    /// A file could not be read.
    Io { message: String },
    /// A request did not reach the server, or its answer did not arrive.
    Http { message: String },
    /// A text is not JSON, or a value could not be written as JSON.
    Json { message: String },
    /// A JSON document lacks a field, or holds something else than a string there.
    Schema { field: String },
    /// The server answered with a status outside the successful ones.
    Status { status_code: u16 },
    /// The token is known and its time has run out.
    TokenExpired { token: String },
    /// The token is not known.
    TokenInvalid { token: String },
}

/// A [`Cause`] as a mathematical value.
pub ghost enum CauseView {
    Io { message: Seq<char> },
    Http { message: Seq<char> },
    Json { message: Seq<char> },
    Schema { field: Seq<char> },
    Status { status_code: u16 },
    TokenExpired { token: Seq<char> },
    TokenInvalid { token: Seq<char> },
}

impl CauseView {
    /// The family of the failure.
    pub open spec fn kind(self) -> FailureKind {
        match self {
            CauseView::Io { .. } => FailureKind::Transport,
            CauseView::Http { .. } => FailureKind::Transport,
            CauseView::Json { .. } => FailureKind::Format,
            CauseView::Schema { .. } => FailureKind::Format,
            CauseView::Status { .. } => FailureKind::Protocol,
            CauseView::TokenExpired { .. } => FailureKind::Domain,
            CauseView::TokenInvalid { .. } => FailureKind::Domain,
        }
    }

    /// The line that describes the failure to a reader.
    pub open spec fn message(self) -> Seq<char> {
        match self {
            CauseView::Io { message } => message,
            CauseView::Http { message } => message,
            CauseView::Json { message } => message,
            CauseView::Schema { field } => "missing or invalid field `"@ + field + "`"@,
            CauseView::Status { status_code } => "unexpected status code "@ + decimal(
                status_code as nat,
            ),
            CauseView::TokenExpired { .. } => "auth token has expired"@,
            CauseView::TokenInvalid { .. } => "invalid auth token"@,
        }
    }
}

impl View for Cause {
    type V = CauseView;

    open spec fn view(&self) -> CauseView {
        match self {
            Cause::Io { message } => CauseView::Io { message: message@ },
            Cause::Http { message } => CauseView::Http { message: message@ },
            Cause::Json { message } => CauseView::Json { message: message@ },
            Cause::Schema { field } => CauseView::Schema { field: field@ },
            Cause::Status { status_code } => CauseView::Status { status_code: *status_code },
            Cause::TokenExpired { token } => CauseView::TokenExpired { token: token@ },
            Cause::TokenInvalid { token } => CauseView::TokenInvalid { token: token@ },
        }
    }
}

impl Cause {
    /// The family of the failure.
    pub fn kind(&self) -> (kind: FailureKind)
        ensures
            kind == self@.kind(),
    {
        match self {
            Cause::Io { .. } => FailureKind::Transport,
            Cause::Http { .. } => FailureKind::Transport,
            Cause::Json { .. } => FailureKind::Format,
            Cause::Schema { .. } => FailureKind::Format,
            Cause::Status { .. } => FailureKind::Protocol,
            Cause::TokenExpired { .. } => FailureKind::Domain,
            Cause::TokenInvalid { .. } => FailureKind::Domain,
        }
    }

    /// The line that describes the failure to a reader.
    pub fn message(&self) -> (line: String)
        ensures
            line@ == self@.message(),
    {
        match self {
            Cause::Io { message } => message.clone(),
            Cause::Http { message } => message.clone(),
            Cause::Json { message } => message.clone(),
            Cause::Schema { field } => {
                let start = joined("missing or invalid field `", field.as_str());
                joined(start.as_str(), "`")
            },
            Cause::Status { status_code } => {
                let code: u64 = *status_code as u64;
                let number = to_decimal(code);
                joined("unexpected status code ", number.as_str())
            },
            Cause::TokenExpired { .. } => String::from_str("auth token has expired"),
            Cause::TokenInvalid { .. } => String::from_str("invalid auth token"),
        }
    }
}

/// The unified error of every context: the cause, and the annotations that were
/// attached to it, in the order in which they were attached.
#[derive(Clone, Debug, PartialEq, Eq)]
pub struct Failure {
    cause: Cause,
    annotations: Vec<String>,
}

/// A [`Failure`] as a mathematical value.
pub ghost struct FailureView {
    /// The failure that was raised.
    pub cause: CauseView,
    /// The annotations, the first attached first.
    pub annotations: Seq<Seq<char>>,
}

impl View for Failure {
    type V = FailureView;

    closed spec fn view(&self) -> FailureView {
        FailureView { cause: self.cause@, annotations: self.annotations.deep_view() }
    }
}

/// The error that raising `cause` gives: the cause, whole, and no annotation.
pub open spec fn raised(cause: CauseView) -> FailureView {
    FailureView { cause, annotations: Seq::empty() }
}

/// The error that wrapping `error` with `detail` gives: the same cause, and
/// `detail` as the outermost annotation.
pub open spec fn wrapped(error: FailureView, detail: Seq<char>) -> FailureView {
    FailureView { cause: error.cause, annotations: error.annotations.push(detail) }
}

impl FailureView {
    /// The family of the failure: that of its cause, whatever was attached.
    pub open spec fn kind(self) -> FailureKind {
        self.cause.kind()
    }

    /// The chain as it is shown: the outermost annotation first, each earlier
    /// one after it, and the line of the cause last.
    pub open spec fn chain(self) -> Seq<Seq<char>> {
        self.annotations.reverse().push(self.cause.message())
    }
}

impl Failure {
    /// Raises a source failure into the unified error. Nothing of it is lost.
    pub fn raise(cause: Cause) -> (error: Failure)
        ensures
            error@ == raised(cause@),
    {
        let error = Failure { cause, annotations: Vec::new() };
        assert(error.annotations.deep_view() =~= Seq::<Seq<char>>::empty());
        error
    }

    /// Attaches `detail` to the error, outside of what was attached before.
    pub fn wrap(self, detail: String) -> (error: Failure)
        ensures
            error@ == wrapped(self@, detail@),
    {
        let ghost before = self.annotations.deep_view();
        let mut annotations = self.annotations;
        annotations.push(detail);
        assert(annotations.deep_view() =~= before.push(detail@));
        Failure { cause: self.cause, annotations }
    }

    /// The family of the failure.
    pub fn kind(&self) -> (kind: FailureKind)
        ensures
            kind == self@.kind(),
    {
        self.cause.kind()
    }

    /// The failure that was raised, as it was raised.
    pub fn cause(&self) -> (cause: &Cause)
        ensures
            cause@ == self@.cause,
    {
        &self.cause
    }

    /// How many annotations were attached.
    pub fn depth(&self) -> (n: usize)
        ensures
            n == self@.annotations.len(),
    {
        self.annotations.len()
    }

    /// The annotation at `position`, counted from the outermost, which is at 0.
    pub fn annotation(&self, position: usize) -> (detail: Option<&String>)
        ensures
            match detail {
                Some(d) => position < self@.annotations.len() && d@
                    == self@.annotations.reverse()[position as int],
                None => position >= self@.annotations.len(),
            },
    {
        let n = self.annotations.len();
        if position < n {
            Some(&self.annotations[n - 1 - position])
        } else {
            None
        }
    }

    /// The chain as it is shown: the outermost annotation first, the line of
    /// the cause last.
    pub fn chain(&self) -> (lines: Vec<String>)
        ensures
            lines.deep_view() == self@.chain(),
    {
        let n = self.annotations.len();
        let ghost all = self.annotations.deep_view();
        let mut lines: Vec<String> = Vec::new();
        let mut done: usize = 0;
        while done < n
            invariant
                n == self.annotations.len(),
                all == self.annotations.deep_view(),
                done <= n,
                lines.len() == done,
                forall|i: int| 0 <= i < done ==> (#[trigger] lines[i])@ == all[n - 1 - i],
            decreases n - done,
        {
            lines.push(self.annotations[n - 1 - done].clone());
            done = done + 1;
        }
        lines.push(self.cause.message());
        assert(lines.deep_view() =~= self@.chain());
        lines
    }
}

/// A type of failure that can be raised: it says which cause stands for it,
/// and gives all that it holds to that cause.
pub trait SourceError: Sized {
    /// The cause that stands for this failure.
    spec fn cause(&self) -> CauseView;

    /// Turns the failure into its cause.
    fn into_cause(self) -> (cause: Cause)
        ensures
            cause@ == self.cause(),
    ;
}

/// The outcome of a capability as a mathematical value: the view of what it
/// returned, or the view of the failure.
pub open spec fn outcome<T: View>(out: Result<T, Failure>) -> Result<T::V, FailureView> {
    match out {
        Ok(value) => Ok(value@),
        Err(failure) => Err(failure@),
    }
}

/// Raising loses nothing: the error holds the cause as it was, it belongs to
/// the cause's family, nothing is attached to it, and its chain is the line of
/// the cause alone.
pub proof fn raise_is_lossless(cause: CauseView)
    ensures
        raised(cause).cause == cause,
        raised(cause).kind() == cause.kind(),
        raised(cause).annotations.len() == 0,
        raised(cause).chain() == seq![cause.message()],
{
    assert(raised(cause).chain() =~= seq![cause.message()]);
}

/// Two causes that differ raise errors that differ.
pub proof fn raise_is_injective(first: CauseView, second: CauseView)
    requires
        raised(first) == raised(second),
    ensures
        first == second,
{
}

/// Wrapping never touches what was raised: the cause and the family stay, and
/// the line of the cause stays last in the chain.
pub proof fn wrap_keeps_cause(error: FailureView, detail: Seq<char>)
    ensures
        wrapped(error, detail).cause == error.cause,
        wrapped(error, detail).kind() == error.kind(),
        wrapped(error, detail).chain().last() == error.cause.message(),
{
}

/// Wrapping puts the new annotation in front of the chain and leaves the rest
/// of the chain as it was.
pub proof fn wrap_extends_chain(error: FailureView, detail: Seq<char>)
    ensures
        wrapped(error, detail).chain() == seq![detail] + error.chain(),
{
    let before = error.annotations;
    let after = before.push(detail);
    assert(after.reverse() =~= seq![detail] + before.reverse());
    assert(wrapped(error, detail).chain() =~= seq![detail] + error.chain());
}

/// Wrapping stacks: after wrapping with `first` and then with `second`, both
/// annotations are there, `second` outermost, `first` next, and below them the
/// chain of the error as it was.
pub proof fn wraps_stack(error: FailureView, first: Seq<char>, second: Seq<char>)
    ensures
        wrapped(wrapped(error, first), second).annotations == error.annotations.push(first).push(
            second,
        ),
        wrapped(wrapped(error, first), second).chain() == seq![second, first] + error.chain(),
        wrapped(wrapped(error, first), second).chain()[0] == second,
        wrapped(wrapped(error, first), second).chain()[1] == first,
        wrapped(wrapped(error, first), second).cause == error.cause,
{
    wrap_extends_chain(error, first);
    wrap_extends_chain(wrapped(error, first), second);
    assert(seq![second] + (seq![first] + error.chain()) =~= seq![second, first] + error.chain());
}

} // verus!
