//! Why a run ended early.

use vstd::prelude::*;

verus! {

/// The step of a run that failed. Any failure ends the run: nothing is retried
/// and nothing after it is attempted.
#[derive(Clone, Copy, Debug, PartialEq, Eq, Structural)]
pub enum FailureKind {
    /// No repository could be opened at the given path.
    RepositoryOpen,
    /// The text of the base identifier does not denote an object identifier.
    InvalidIdentifier,
    /// The base identifier names no commit in the object store.
    ObjectNotFound,
    /// The system clock could not be read.
    Clock,
    /// The object store refused a write.
    Write,
}

/// A failed step together with the cause that the failing party gave.
#[derive(Debug)]
pub struct Failure {
    pub kind: FailureKind,
    pub cause: String,
}

/// A failure as a mathematical value.
pub struct FailureView {
    pub kind: FailureKind,
    pub cause: Seq<char>,
}

impl View for Failure {
    type V = FailureView;

    open spec fn view(&self) -> FailureView {
        FailureView { kind: self.kind, cause: self.cause@ }
    }
}

/// The words that name a failed step in a report.
pub open spec fn kind_label(kind: FailureKind) -> Seq<char> {
    match kind {
        FailureKind::RepositoryOpen => "cannot open repository"@,
        FailureKind::InvalidIdentifier => "invalid base commit identifier"@,
        FailureKind::ObjectNotFound => "base commit not found"@,
        FailureKind::Clock => "cannot read the system clock"@,
        FailureKind::Write => "cannot write commit object"@,
    }
}

/// The text of a report: the failed step, a colon and a space, and the cause.
pub open spec fn report_text(f: FailureView) -> Seq<char> {
    kind_label(f.kind) + ": "@ + f.cause
}

impl FailureKind {
    /// The words that name this step in a report.
    pub fn label(self) -> (s: &'static str)
        ensures
            s@ == kind_label(self),
    {
        match self {
            FailureKind::RepositoryOpen => "cannot open repository",
            FailureKind::InvalidIdentifier => "invalid base commit identifier",
            FailureKind::ObjectNotFound => "base commit not found",
            FailureKind::Clock => "cannot read the system clock",
            FailureKind::Write => "cannot write commit object",
        }
    }
}

impl Failure {
    /// A failure of the step `kind` with the given cause.
    pub fn new(kind: FailureKind, cause: String) -> (f: Failure)
        ensures
            f@ == (FailureView { kind, cause: cause@ }),
    {
        Failure { kind, cause }
    }

    /// The message shown to the user: which step failed, and why.
    pub fn report(&self) -> (text: String)
        ensures
            text@ == report_text(self@),
    {
        let mut text = self.kind.label().to_owned();
        text.append(": ");
        text.append(self.cause.as_str());
        text
    }

    /// A copy of this failure.
    pub fn duplicate(&self) -> (f: Failure)
        ensures
            f@ == self@,
    {
        Failure { kind: self.kind, cause: self.cause.clone() }
    }
}

} // verus!
