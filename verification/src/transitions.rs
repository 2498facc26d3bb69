//! The transition table: which event kinds are legal from which status.
//!
//! The table is a static mapping from (current status, event kind) to a
//! [`TransitionTarget`]; absent entries are implicitly invalid. Lookup is
//! two-staged: where the final status depends on the event's payload or the
//! aggregate's fill state, the entry names a resolver rather than a fixed
//! status, and the aggregate picks the final status when it applies the
//! event.
//!
//! Two design rules are proved in [`lemma_transition_completeness`]: every
//! non-terminal status has at least one outgoing edge, and no edge leaves a
//! terminal status. A modify- or cancel-rejection never transitions a live
//! order out of its current status; it only records the reason.

use vstd::prelude::*;

use crate::events::EventKind;
use crate::status::{spec_is_terminal, OrderStatus};

verus! {

/// The second stage of a lookup: either a fixed target status, or a resolver
/// that picks the target from payload and fill state.
#[derive(Clone, Copy, Debug, PartialEq, Eq, Structural)]
pub enum TransitionTarget {
    /// The target status is fixed by (status, kind) alone.
    Fixed(OrderStatus),
    /// A fill: `PartiallyFilled` while cumulative filled quantity stays below
    /// the order quantity, `Filled` once it reaches it.
    FillResolved,
    /// Back to the working status: `Accepted` while nothing has filled,
    /// `PartiallyFilled` otherwise.
    ActiveResolved,
}

/// The transition table. `None` means the event kind is not legal from the
/// status. No entry leaves a terminal status, and `EventKind::Initialized`
/// has no entry anywhere: the initialized event constructs the aggregate and
/// is never applied to one.
pub open spec fn spec_transition(s: OrderStatus, k: EventKind) -> Option<TransitionTarget> {
    if spec_is_terminal(s) {
        None
    } else {
        match s {
            OrderStatus::Initialized => match k {
                EventKind::Denied => Some(TransitionTarget::Fixed(OrderStatus::Denied)),
                EventKind::Submitted => Some(TransitionTarget::Fixed(OrderStatus::Submitted)),
                _ => None,
            },
            OrderStatus::Submitted => match k {
                EventKind::Accepted => Some(TransitionTarget::Fixed(OrderStatus::Accepted)),
                EventKind::Rejected => Some(TransitionTarget::Fixed(OrderStatus::Rejected)),
                EventKind::Canceled => Some(TransitionTarget::Fixed(OrderStatus::Canceled)),
                EventKind::Expired => Some(TransitionTarget::Fixed(OrderStatus::Expired)),
                EventKind::PendingUpdate => Some(
                    TransitionTarget::Fixed(OrderStatus::PendingUpdate),
                ),
                EventKind::PendingCancel => Some(
                    TransitionTarget::Fixed(OrderStatus::PendingCancel),
                ),
                EventKind::ModifyRejected => Some(TransitionTarget::Fixed(OrderStatus::Submitted)),
                EventKind::CancelRejected => Some(TransitionTarget::Fixed(OrderStatus::Submitted)),
                EventKind::Filled => Some(TransitionTarget::FillResolved),
                _ => None,
            },
            OrderStatus::Accepted => match k {
                EventKind::Canceled => Some(TransitionTarget::Fixed(OrderStatus::Canceled)),
                EventKind::Expired => Some(TransitionTarget::Fixed(OrderStatus::Expired)),
                EventKind::Triggered => Some(TransitionTarget::Fixed(OrderStatus::Triggered)),
                EventKind::PendingUpdate => Some(
                    TransitionTarget::Fixed(OrderStatus::PendingUpdate),
                ),
                EventKind::PendingCancel => Some(
                    TransitionTarget::Fixed(OrderStatus::PendingCancel),
                ),
                EventKind::ModifyRejected => Some(TransitionTarget::Fixed(OrderStatus::Accepted)),
                EventKind::CancelRejected => Some(TransitionTarget::Fixed(OrderStatus::Accepted)),
                EventKind::Updated => Some(TransitionTarget::Fixed(OrderStatus::Accepted)),
                EventKind::Filled => Some(TransitionTarget::FillResolved),
                _ => None,
            },
            OrderStatus::Triggered => match k {
                EventKind::Canceled => Some(TransitionTarget::Fixed(OrderStatus::Canceled)),
                EventKind::Expired => Some(TransitionTarget::Fixed(OrderStatus::Expired)),
                EventKind::PendingUpdate => Some(
                    TransitionTarget::Fixed(OrderStatus::PendingUpdate),
                ),
                EventKind::PendingCancel => Some(
                    TransitionTarget::Fixed(OrderStatus::PendingCancel),
                ),
                EventKind::ModifyRejected => Some(TransitionTarget::Fixed(OrderStatus::Triggered)),
                EventKind::CancelRejected => Some(TransitionTarget::Fixed(OrderStatus::Triggered)),
                EventKind::Updated => Some(TransitionTarget::Fixed(OrderStatus::Triggered)),
                EventKind::Filled => Some(TransitionTarget::FillResolved),
                _ => None,
            },
            OrderStatus::PendingUpdate => match k {
                EventKind::Updated => Some(TransitionTarget::ActiveResolved),
                EventKind::Canceled => Some(TransitionTarget::Fixed(OrderStatus::Canceled)),
                EventKind::Expired => Some(TransitionTarget::Fixed(OrderStatus::Expired)),
                EventKind::PendingCancel => Some(
                    TransitionTarget::Fixed(OrderStatus::PendingCancel),
                ),
                EventKind::ModifyRejected => Some(
                    TransitionTarget::Fixed(OrderStatus::PendingUpdate),
                ),
                EventKind::CancelRejected => Some(
                    TransitionTarget::Fixed(OrderStatus::PendingUpdate),
                ),
                EventKind::Filled => Some(TransitionTarget::FillResolved),
                _ => None,
            },
            OrderStatus::PendingCancel => match k {
                EventKind::Canceled => Some(TransitionTarget::Fixed(OrderStatus::Canceled)),
                EventKind::Expired => Some(TransitionTarget::Fixed(OrderStatus::Expired)),
                EventKind::ModifyRejected => Some(
                    TransitionTarget::Fixed(OrderStatus::PendingCancel),
                ),
                EventKind::CancelRejected => Some(
                    TransitionTarget::Fixed(OrderStatus::PendingCancel),
                ),
                EventKind::Filled => Some(TransitionTarget::FillResolved),
                _ => None,
            },
            OrderStatus::PartiallyFilled => match k {
                EventKind::Canceled => Some(TransitionTarget::Fixed(OrderStatus::Canceled)),
                EventKind::Expired => Some(TransitionTarget::Fixed(OrderStatus::Expired)),
                EventKind::PendingUpdate => Some(
                    TransitionTarget::Fixed(OrderStatus::PendingUpdate),
                ),
                EventKind::PendingCancel => Some(
                    TransitionTarget::Fixed(OrderStatus::PendingCancel),
                ),
                EventKind::ModifyRejected => Some(
                    TransitionTarget::Fixed(OrderStatus::PartiallyFilled),
                ),
                EventKind::CancelRejected => Some(
                    TransitionTarget::Fixed(OrderStatus::PartiallyFilled),
                ),
                EventKind::Updated => Some(TransitionTarget::Fixed(OrderStatus::PartiallyFilled)),
                EventKind::Filled => Some(TransitionTarget::FillResolved),
                _ => None,
            },
            _ => None,
        }
    }
}

/// Executable lookup into the transition table.
pub fn transition(s: OrderStatus, k: EventKind) -> (r: Option<TransitionTarget>)
    ensures
        r == spec_transition(s, k),
{
    if s.is_terminal() {
        return None;
    }
    match s {
        OrderStatus::Initialized => match k {
            EventKind::Denied => Some(TransitionTarget::Fixed(OrderStatus::Denied)),
            EventKind::Submitted => Some(TransitionTarget::Fixed(OrderStatus::Submitted)),
            _ => None,
        },
        OrderStatus::Submitted => match k {
            EventKind::Accepted => Some(TransitionTarget::Fixed(OrderStatus::Accepted)),
            EventKind::Rejected => Some(TransitionTarget::Fixed(OrderStatus::Rejected)),
            EventKind::Canceled => Some(TransitionTarget::Fixed(OrderStatus::Canceled)),
            EventKind::Expired => Some(TransitionTarget::Fixed(OrderStatus::Expired)),
            EventKind::PendingUpdate => Some(TransitionTarget::Fixed(OrderStatus::PendingUpdate)),
            EventKind::PendingCancel => Some(TransitionTarget::Fixed(OrderStatus::PendingCancel)),
            EventKind::ModifyRejected => Some(TransitionTarget::Fixed(OrderStatus::Submitted)),
            EventKind::CancelRejected => Some(TransitionTarget::Fixed(OrderStatus::Submitted)),
            EventKind::Filled => Some(TransitionTarget::FillResolved),
            _ => None,
        },
        OrderStatus::Accepted => match k {
            EventKind::Canceled => Some(TransitionTarget::Fixed(OrderStatus::Canceled)),
            EventKind::Expired => Some(TransitionTarget::Fixed(OrderStatus::Expired)),
            EventKind::Triggered => Some(TransitionTarget::Fixed(OrderStatus::Triggered)),
            EventKind::PendingUpdate => Some(TransitionTarget::Fixed(OrderStatus::PendingUpdate)),
            EventKind::PendingCancel => Some(TransitionTarget::Fixed(OrderStatus::PendingCancel)),
            EventKind::ModifyRejected => Some(TransitionTarget::Fixed(OrderStatus::Accepted)),
            EventKind::CancelRejected => Some(TransitionTarget::Fixed(OrderStatus::Accepted)),
            EventKind::Updated => Some(TransitionTarget::Fixed(OrderStatus::Accepted)),
            EventKind::Filled => Some(TransitionTarget::FillResolved),
            _ => None,
        },
        OrderStatus::Triggered => match k {
            EventKind::Canceled => Some(TransitionTarget::Fixed(OrderStatus::Canceled)),
            EventKind::Expired => Some(TransitionTarget::Fixed(OrderStatus::Expired)),
            EventKind::PendingUpdate => Some(TransitionTarget::Fixed(OrderStatus::PendingUpdate)),
            EventKind::PendingCancel => Some(TransitionTarget::Fixed(OrderStatus::PendingCancel)),
            EventKind::ModifyRejected => Some(TransitionTarget::Fixed(OrderStatus::Triggered)),
            EventKind::CancelRejected => Some(TransitionTarget::Fixed(OrderStatus::Triggered)),
            EventKind::Updated => Some(TransitionTarget::Fixed(OrderStatus::Triggered)),
            EventKind::Filled => Some(TransitionTarget::FillResolved),
            _ => None,
        },
        OrderStatus::PendingUpdate => match k {
            EventKind::Updated => Some(TransitionTarget::ActiveResolved),
            EventKind::Canceled => Some(TransitionTarget::Fixed(OrderStatus::Canceled)),
            EventKind::Expired => Some(TransitionTarget::Fixed(OrderStatus::Expired)),
            EventKind::PendingCancel => Some(TransitionTarget::Fixed(OrderStatus::PendingCancel)),
            EventKind::ModifyRejected => Some(TransitionTarget::Fixed(OrderStatus::PendingUpdate)),
            EventKind::CancelRejected => Some(TransitionTarget::Fixed(OrderStatus::PendingUpdate)),
            EventKind::Filled => Some(TransitionTarget::FillResolved),
            _ => None,
        },
        OrderStatus::PendingCancel => match k {
            EventKind::Canceled => Some(TransitionTarget::Fixed(OrderStatus::Canceled)),
            EventKind::Expired => Some(TransitionTarget::Fixed(OrderStatus::Expired)),
            EventKind::ModifyRejected => Some(TransitionTarget::Fixed(OrderStatus::PendingCancel)),
            EventKind::CancelRejected => Some(TransitionTarget::Fixed(OrderStatus::PendingCancel)),
            EventKind::Filled => Some(TransitionTarget::FillResolved),
            _ => None,
        },
        OrderStatus::PartiallyFilled => match k {
            EventKind::Canceled => Some(TransitionTarget::Fixed(OrderStatus::Canceled)),
            EventKind::Expired => Some(TransitionTarget::Fixed(OrderStatus::Expired)),
            EventKind::PendingUpdate => Some(TransitionTarget::Fixed(OrderStatus::PendingUpdate)),
            EventKind::PendingCancel => Some(TransitionTarget::Fixed(OrderStatus::PendingCancel)),
            EventKind::ModifyRejected => Some(
                TransitionTarget::Fixed(OrderStatus::PartiallyFilled),
            ),
            EventKind::CancelRejected => Some(
                TransitionTarget::Fixed(OrderStatus::PartiallyFilled),
            ),
            EventKind::Updated => Some(TransitionTarget::Fixed(OrderStatus::PartiallyFilled)),
            EventKind::Filled => Some(TransitionTarget::FillResolved),
            _ => None,
        },
        _ => None,
    }
}

/// Transition completeness: every non-terminal status has at least one
/// outgoing edge in the table, and no edge leaves a terminal status.
pub proof fn lemma_transition_completeness(s: OrderStatus)
    ensures
        !spec_is_terminal(s) ==> exists|k: EventKind| spec_transition(s, k) is Some,
        spec_is_terminal(s) ==> forall|k: EventKind| spec_transition(s, k) is None,
{
    if !spec_is_terminal(s) {
        match s {
            OrderStatus::Initialized => {
                assert(spec_transition(s, EventKind::Submitted) is Some);
            },
            _ => {
                assert(spec_transition(s, EventKind::Canceled) is Some);
            },
        }
    }
}

} // verus!
