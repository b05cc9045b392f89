//! The query boundary: where an aborted evaluation becomes a typed outcome.

use crate::cancel::Cancellable;
use crate::cancel::Cancelled;
use vstd::prelude::*;

verus! {

/// How an evaluation ends on its ordinary result channel. An evaluation that
/// sees the raised flag at one of its poll points returns `Aborted` early; any
/// failure of its own is part of `T` and is not touched here.
#[derive(Debug, PartialEq, Eq)]
pub enum Evaluation<T> {
    /// The evaluation ran to its end and produced this value.
    Complete(T),
    /// The evaluation saw the raised cancellation flag and stopped.
    Aborted,
}

/// The outcome that the boundary hands to the caller for a given evaluation.
pub open spec fn settle<T>(evaluation: Evaluation<T>) -> Cancellable<T> {
    match evaluation {
        Evaluation::Complete(value) => Ok(value),
        Evaluation::Aborted => Err(Cancelled),
    }
}

/// Runs `f` and converts how it ended: a completed evaluation gives `Ok` with
/// its value unchanged, an aborted one gives `Err(Cancelled)`. The result is
/// `Ok(v)` only if `f` could complete with `v`, and `Err` only if `f` could abort.
pub fn boundary<F, T>(f: F) -> (res: Cancellable<T>) where F: FnOnce() -> Evaluation<T>
    requires
        f.requires(()),
    ensures
        match res {
            Ok(value) => f.ensures((), Evaluation::Complete(value)),
            Err(signal) => signal == Cancelled && f.ensures((), Evaluation::Aborted),
        },
{
    match f() {
        Evaluation::Complete(value) => Ok(value),
        Evaluation::Aborted => Err(Cancelled),
    }
}

} // verus!
