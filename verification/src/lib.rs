//! Order-management core for an algorithmic trading platform.
//!
//! The crate turns a stream of discrete order-lifecycle notifications
//! (submission, acceptance, rejection, fills, cancels, modifications,
//! expiries, reconciliation updates) into an authoritative view of every
//! order's current state. Events are applied to an [`aggregate::OrderAggregate`]
//! through a strict finite-state-machine discipline encoded in
//! [`transitions`]; out-of-band reconciliation traffic is screened by
//! [`reconciliation`]; events round-trip through the canonical wire form in
//! [`codec`]. The laws the core obeys — transition completeness, idempotence,
//! quantity and timestamp monotonicity, terminal immutability, the
//! serialization round trip — are stated and proved in [`transitions`],
//! [`laws`] and [`codec`].

pub mod aggregate;
pub mod codec;
pub mod errors;
pub mod events;
pub mod identifiers;
pub mod laws;
pub mod modify_rejected;
pub mod reconciliation;
pub mod status;
pub mod text;
pub mod transitions;
