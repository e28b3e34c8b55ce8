use vstd::prelude::*;

verus! {

/// The error kinds that driver operations report.
#[derive(Debug, Clone, Copy, PartialEq, Eq)]
pub enum DError {
    /// A hardware-signalled or otherwise unclassified failure.
    Unknown(&'static str),
    /// A polling loop used up its attempt budget.
    Timeout,
    /// An allocation failed, or a ring had no free slot.
    NoMemory,
    /// The caller broke a documented precondition.
    InvalidParameter,
}

} // verus!
