//! Typed failures returned by the core.
//!
//! Nothing in this crate aborts the owning process: every failure is a value
//! of one of these enums, handed back to the caller, which decides whether to
//! halt trading, alert, or retry delivery of the offending event.

use vstd::prelude::*;

verus! {

/// A structurally invalid construction argument: a required identifier was
/// empty, or an order quantity was zero.
#[derive(Clone, Copy, Debug, PartialEq, Eq, Structural)]
pub enum ValidationError {
    /// A required identifier string was empty.
    EmptyIdentifier,
    /// A required reason string was empty.
    EmptyReason,
    /// An order quantity was zero.
    ZeroQuantity,
}

/// A failure of [`crate::aggregate::OrderAggregate::apply`].
#[derive(Clone, Copy, Debug, PartialEq, Eq, Structural)]
pub enum ApplyError {
    /// The event kind is not legal from the current status on the primary
    /// (non-reconciliation) path: a logic or venue-protocol defect.
    InvalidTransition,
    /// A primary event's `ts_init` regressed below the aggregate's watermark.
    OutOfOrder,
    /// A novel reconciliation event still fails the transition table; it is
    /// surfaced for policy-level resolution rather than silently applied.
    ReconciliationConflict,
}

} // verus!
