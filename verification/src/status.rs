//! The order-status enumeration.

use vstd::prelude::*;

verus! {

/// The status of an order aggregate. `Initialized` is the initial status;
/// `Denied`, `Rejected`, `Canceled`, `Expired` and `Filled` are terminal.
#[derive(Clone, Copy, Debug, PartialEq, Eq, Structural)]
pub enum OrderStatus {
    Initialized,
    Denied,
    Submitted,
    Accepted,
    Rejected,
    Triggered,
    PendingUpdate,
    PendingCancel,
    Canceled,
    Expired,
    PartiallyFilled,
    Filled,
}

/// True of a status from which no primary event may cause a transition.
pub open spec fn spec_is_terminal(s: OrderStatus) -> bool {
    match s {
        OrderStatus::Denied => true,
        OrderStatus::Rejected => true,
        OrderStatus::Canceled => true,
        OrderStatus::Expired => true,
        OrderStatus::Filled => true,
        _ => false,
    }
}

impl OrderStatus {
    /// True of a status from which no primary event may cause a transition.
    pub fn is_terminal(&self) -> (r: bool)
        ensures
            r == spec_is_terminal(*self),
    {
        match self {
            OrderStatus::Denied => true,
            OrderStatus::Rejected => true,
            OrderStatus::Canceled => true,
            OrderStatus::Expired => true,
            OrderStatus::Filled => true,
            _ => false,
        }
    }
}

} // verus!
