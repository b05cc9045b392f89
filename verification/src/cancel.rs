//! Cancellation: the typed signal, the per-generation flag and its life cycle.

use vstd::prelude::*;

verus! {

/// The one recoverable outcome of this crate: a query was abandoned because the
/// generation it was reading began to change. It carries nothing but its kind;
/// the caller is expected to retry on a fresh snapshot.
#[derive(Clone, Copy, Debug, PartialEq, Eq, Structural)]
pub struct Cancelled;

/// What every read entry point returns: the value, or [`Cancelled`].
pub type Cancellable<T> = Result<T, Cancelled>;

/// Where a generation stands with respect to cancellation.
#[derive(Clone, Copy, Debug, PartialEq, Eq, Structural)]
pub enum Phase {
    /// The flag is lowered; queries run to completion.
    Active,
    /// The flag is raised and no newer generation exists yet.
    Cancelling,
    /// A newer generation exists; the flag stays raised for good.
    Superseded,
}

impl Phase {
    /// Position in the life cycle. A generation only ever moves to a higher rank.
    pub open spec fn rank(self) -> nat {
        match self {
            Phase::Active => 0,
            Phase::Cancelling => 1,
            Phase::Superseded => 2,
        }
    }

    /// Whether the generation's flag is raised in this phase.
    pub open spec fn cancelled(self) -> bool {
        self != Phase::Active
    }

    /// Whether a query started in this phase is told to stop at its first poll.
    pub fn is_cancelled(self) -> (b: bool)
        ensures
            b == self.cancelled(),
    {
        match self {
            Phase::Active => false,
            Phase::Cancelling => true,
            Phase::Superseded => true,
        }
    }
}

/// The cancellation flag of one generation. It can be created lowered and it can
/// be raised; nothing lowers it again.
#[derive(Debug)]
pub struct CancellationFlag {
    raised: bool,
}

impl View for CancellationFlag {
    type V = bool;

    /// `true` once the flag has been raised.
    closed spec fn view(&self) -> bool {
        self.raised
    }
}

impl CancellationFlag {
    /// A lowered flag, as every generation starts with.
    pub fn new() -> (flag: CancellationFlag)
        ensures
            !flag@,
    {
        CancellationFlag { raised: false }
    }

    /// Raises the flag. Raising a raised flag changes nothing.
    pub fn raise(&mut self)
        ensures
            final(self)@,
    {
        self.raised = true;
    }

    /// Reads the flag.
    pub fn is_raised(&self) -> (raised: bool)
        ensures
            raised == self@,
    {
        self.raised
    }
}

} // verus!
