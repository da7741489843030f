//! The completion bridge: the value/error envelope through which every
//! asynchronous operation reports its outcome.
//!
//! An operation's eventual `Result` is translated into a settlement of its
//! completion handle: success resolves the handle with a [`Value`], failure
//! rejects it with a [`Failure`] carrying a kind and a human-readable
//! message. A handle is [`Completion::Pending`] from the moment the call
//! returns until the deferred operation has run.

use vstd::prelude::*;

verus! {

/// The three ways an operation can fail.
#[derive(Clone, Copy, PartialEq, Eq, Structural, Debug)]
pub enum FailureKind {
    /// The segmentation engine itself failed while loading a dictionary.
    EngineFailure,
    /// A produced value could not be represented in the host's value model.
    MarshallingFailure,
    /// A prior operation failed catastrophically while holding exclusive
    /// access to the engine; the instance is permanently unusable.
    LockPoisoned,
}

/// A rejection: its kind, and a descriptive message for the host.
#[derive(Debug)]
pub struct Failure {
    pub kind: FailureKind,
    pub message: String,
}

/// What a successful operation resolves with: a success sentinel for a
/// dictionary load, or the ordered token sequence of a cut.
pub enum Value {
    Done,
    Tokens(Vec<String>),
}

/// The state of a completion handle.
pub enum Completion {
    Pending,
    Resolved(Value),
    Rejected(Failure),
}

/// The mathematical image of a [`Value`].
pub enum ValueView {
    Done,
    Tokens(Seq<Seq<char>>),
}

/// The mathematical image of a [`Completion`].
pub enum CompletionView {
    Pending,
    Resolved(ValueView),
    Rejected(FailureKind, Seq<char>),
}

impl View for Value {
    type V = ValueView;

    open spec fn view(&self) -> ValueView {
        match self {
            Value::Done => ValueView::Done,
            Value::Tokens(t) => ValueView::Tokens(t@.map_values(|w: String| w@)),
        }
    }
}

impl View for Completion {
    type V = CompletionView;

    open spec fn view(&self) -> CompletionView {
        match self {
            Completion::Pending => CompletionView::Pending,
            Completion::Resolved(v) => CompletionView::Resolved(v@),
            Completion::Rejected(f) => CompletionView::Rejected(f.kind, f.message@),
        }
    }
}

impl Failure {
    /// The rejection every operation on a poisoned instance reports.
    pub fn lock_poisoned() -> (f: Failure)
        ensures
            f.kind == FailureKind::LockPoisoned,
            f.message@ == "the engine lock is poisoned: a prior operation failed while holding it"@,
    {
        Failure {
            kind: FailureKind::LockPoisoned,
            message: String::from_str(
                "the engine lock is poisoned: a prior operation failed while holding it",
            ),
        }
    }

    /// A rejection forwarding a failure of the segmentation engine.
    pub fn engine(detail: String) -> (f: Failure)
        ensures
            f.kind == FailureKind::EngineFailure,
            f.message@ == "engine failure: "@ + detail@,
    {
        Failure {
            kind: FailureKind::EngineFailure,
            message: String::from_str("engine failure: ").concat(detail.as_str()),
        }
    }

    /// A rejection for a value the host's value model cannot represent.
    pub fn marshalling(detail: String) -> (f: Failure)
        ensures
            f.kind == FailureKind::MarshallingFailure,
            f.message@ == "marshalling failure: "@ + detail@,
    {
        Failure {
            kind: FailureKind::MarshallingFailure,
            message: String::from_str("marshalling failure: ").concat(detail.as_str()),
        }
    }
}

/// Translate an operation's result into the settlement of its completion
/// handle: a value resolves the handle, a failure rejects it.
pub fn settle(r: Result<Value, Failure>) -> (c: Completion)
    ensures
        c@ == match r {
            Ok(v) => CompletionView::Resolved(v@),
            Err(f) => CompletionView::Rejected(f.kind, f.message@),
        },
{
    match r {
        Ok(v) => Completion::Resolved(v),
        Err(f) => Completion::Rejected(f),
    }
}

} // verus!
