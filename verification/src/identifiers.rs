//! Identifier newtypes shared by every order-lifecycle event.
//!
//! Each identifier wraps an immutable owned string; its view is the string's
//! character sequence. A constructed identifier is structurally valid
//! (non-empty) — construction through [`TraderId::new`] and its siblings
//! rejects the empty string with [`ValidationError::EmptyIdentifier`]. The
//! `from_raw` constructors are crate-internal and unvalidated: the wire
//! decoder reconstructs exactly what was transmitted.

use vstd::prelude::*;

use vstd::string::StringExecFns;

use crate::errors::ValidationError;
use crate::text::{hex_str, spec_hex};

verus! {

/// The trader that owns an order.
#[derive(Clone, Debug)]
pub struct TraderId {
    value: String,
}

impl View for TraderId {
    type V = Seq<char>;

    closed spec fn view(&self) -> Seq<char> {
        self.value@
    }
}

impl TraderId {
    /// A structurally valid identifier is non-empty.
    pub open spec fn is_valid(&self) -> bool {
        self@.len() > 0
    }

    /// Wraps `value`, rejecting the empty string.
    pub fn new(value: String) -> (r: Result<Self, ValidationError>)
        ensures
            r is Ok <==> value@.len() > 0,
            r is Ok ==> r->Ok_0@ == value@ && r->Ok_0.is_valid(),
            r is Err ==> r->Err_0 == ValidationError::EmptyIdentifier,
    {
        if value.as_str().is_empty() {
            Err(ValidationError::EmptyIdentifier)
        } else {
            Ok(TraderId { value })
        }
    }

    pub(crate) fn from_raw(value: String) -> (r: Self)
        ensures
            r@ == value@,
    {
        TraderId { value }
    }

    pub fn as_str(&self) -> (s: &str)
        ensures
            s@ == self@,
    {
        self.value.as_str()
    }
}

/// The strategy that issued an order.
#[derive(Clone, Debug)]
pub struct StrategyId {
    value: String,
}

impl View for StrategyId {
    type V = Seq<char>;

    closed spec fn view(&self) -> Seq<char> {
        self.value@
    }
}

impl StrategyId {
    /// A structurally valid identifier is non-empty.
    pub open spec fn is_valid(&self) -> bool {
        self@.len() > 0
    }

    /// Wraps `value`, rejecting the empty string.
    pub fn new(value: String) -> (r: Result<Self, ValidationError>)
        ensures
            r is Ok <==> value@.len() > 0,
            r is Ok ==> r->Ok_0@ == value@ && r->Ok_0.is_valid(),
            r is Err ==> r->Err_0 == ValidationError::EmptyIdentifier,
    {
        if value.as_str().is_empty() {
            Err(ValidationError::EmptyIdentifier)
        } else {
            Ok(StrategyId { value })
        }
    }

    pub(crate) fn from_raw(value: String) -> (r: Self)
        ensures
            r@ == value@,
    {
        StrategyId { value }
    }

    pub fn as_str(&self) -> (s: &str)
        ensures
            s@ == self@,
    {
        self.value.as_str()
    }
}

/// The instrument an order trades, e.g. a symbol qualified by its venue.
#[derive(Clone, Debug)]
pub struct InstrumentId {
    value: String,
}

impl View for InstrumentId {
    type V = Seq<char>;

    closed spec fn view(&self) -> Seq<char> {
        self.value@
    }
}

impl InstrumentId {
    /// A structurally valid identifier is non-empty.
    pub open spec fn is_valid(&self) -> bool {
        self@.len() > 0
    }

    /// Wraps `value`, rejecting the empty string.
    pub fn new(value: String) -> (r: Result<Self, ValidationError>)
        ensures
            r is Ok <==> value@.len() > 0,
            r is Ok ==> r->Ok_0@ == value@ && r->Ok_0.is_valid(),
            r is Err ==> r->Err_0 == ValidationError::EmptyIdentifier,
    {
        if value.as_str().is_empty() {
            Err(ValidationError::EmptyIdentifier)
        } else {
            Ok(InstrumentId { value })
        }
    }

    pub(crate) fn from_raw(value: String) -> (r: Self)
        ensures
            r@ == value@,
    {
        InstrumentId { value }
    }

    pub fn as_str(&self) -> (s: &str)
        ensures
            s@ == self@,
    {
        self.value.as_str()
    }
}

/// The client-assigned order identifier: the aggregate's identity.
#[derive(Clone, Debug)]
pub struct ClientOrderId {
    value: String,
}

impl View for ClientOrderId {
    type V = Seq<char>;

    closed spec fn view(&self) -> Seq<char> {
        self.value@
    }
}

impl ClientOrderId {
    /// A structurally valid identifier is non-empty.
    pub open spec fn is_valid(&self) -> bool {
        self@.len() > 0
    }

    /// Wraps `value`, rejecting the empty string.
    pub fn new(value: String) -> (r: Result<Self, ValidationError>)
        ensures
            r is Ok <==> value@.len() > 0,
            r is Ok ==> r->Ok_0@ == value@ && r->Ok_0.is_valid(),
            r is Err ==> r->Err_0 == ValidationError::EmptyIdentifier,
    {
        if value.as_str().is_empty() {
            Err(ValidationError::EmptyIdentifier)
        } else {
            Ok(ClientOrderId { value })
        }
    }

    pub(crate) fn from_raw(value: String) -> (r: Self)
        ensures
            r@ == value@,
    {
        ClientOrderId { value }
    }

    pub fn as_str(&self) -> (s: &str)
        ensures
            s@ == self@,
    {
        self.value.as_str()
    }

    /// Identifier equality, the identity test used before `apply`.
    pub fn eq_id(&self, other: &Self) -> (r: bool)
        ensures
            r == (self@ == other@),
    {
        self.value == other.value
    }

    /// An equal copy.
    pub fn clone_id(&self) -> (r: Self)
        ensures
            r@ == self@,
    {
        ClientOrderId { value: self.value.clone() }
    }
}

/// The venue-assigned order identifier, known once the venue acknowledges.
#[derive(Clone, Debug)]
pub struct VenueOrderId {
    value: String,
}

impl View for VenueOrderId {
    type V = Seq<char>;

    closed spec fn view(&self) -> Seq<char> {
        self.value@
    }
}

impl VenueOrderId {
    /// A structurally valid identifier is non-empty.
    pub open spec fn is_valid(&self) -> bool {
        self@.len() > 0
    }

    /// Wraps `value`, rejecting the empty string.
    pub fn new(value: String) -> (r: Result<Self, ValidationError>)
        ensures
            r is Ok <==> value@.len() > 0,
            r is Ok ==> r->Ok_0@ == value@ && r->Ok_0.is_valid(),
            r is Err ==> r->Err_0 == ValidationError::EmptyIdentifier,
    {
        if value.as_str().is_empty() {
            Err(ValidationError::EmptyIdentifier)
        } else {
            Ok(VenueOrderId { value })
        }
    }

    pub(crate) fn from_raw(value: String) -> (r: Self)
        ensures
            r@ == value@,
    {
        VenueOrderId { value }
    }

    /// An equal copy.
    pub fn clone_id(&self) -> (r: Self)
        ensures
            r@ == self@,
    {
        VenueOrderId { value: self.value.clone() }
    }

    pub fn as_str(&self) -> (s: &str)
        ensures
            s@ == self@,
    {
        self.value.as_str()
    }
}

/// The account an order executes against.
#[derive(Clone, Debug)]
pub struct AccountId {
    value: String,
}

impl View for AccountId {
    type V = Seq<char>;

    closed spec fn view(&self) -> Seq<char> {
        self.value@
    }
}

impl AccountId {
    /// A structurally valid identifier is non-empty.
    pub open spec fn is_valid(&self) -> bool {
        self@.len() > 0
    }

    /// Wraps `value`, rejecting the empty string.
    pub fn new(value: String) -> (r: Result<Self, ValidationError>)
        ensures
            r is Ok <==> value@.len() > 0,
            r is Ok ==> r->Ok_0@ == value@ && r->Ok_0.is_valid(),
            r is Err ==> r->Err_0 == ValidationError::EmptyIdentifier,
    {
        if value.as_str().is_empty() {
            Err(ValidationError::EmptyIdentifier)
        } else {
            Ok(AccountId { value })
        }
    }

    pub(crate) fn from_raw(value: String) -> (r: Self)
        ensures
            r@ == value@,
    {
        AccountId { value }
    }

    pub fn as_str(&self) -> (s: &str)
        ensures
            s@ == self@,
    {
        self.value.as_str()
    }
}

/// A globally unique, time-orderable event identifier: a 128-bit value.
#[derive(Clone, Copy, Debug, PartialEq, Eq, Structural)]
pub struct UUID4 {
    pub value: u128,
}

impl UUID4 {
    /// Wraps a raw 128-bit value.
    pub fn new(value: u128) -> (r: Self)
        ensures
            r.value == value,
    {
        UUID4 { value }
    }

    /// The canonical textual rendering: 32 lower-case hexadecimal digits in
    /// five hyphen-separated groups of 8, 4, 4, 4 and 12.
    pub open spec fn spec_canonical(&self) -> Seq<char> {
        spec_hex((self.value / 0x1000000000000000000000000) as nat, 8) + "-"@ + spec_hex(
            ((self.value / 0x100000000000000000000) % 0x10000) as nat,
            4,
        ) + "-"@ + spec_hex(((self.value / 0x10000000000000000) % 0x10000) as nat, 4) + "-"@
            + spec_hex(((self.value / 0x1000000000000) % 0x10000) as nat, 4) + "-"@ + spec_hex(
            (self.value % 0x1000000000000) as nat,
            12,
        )
    }

    /// Renders the canonical textual form.
    pub fn to_canonical_string(&self) -> (s: String)
        ensures
            s@ == self.spec_canonical(),
    {
        let x = self.value;
        let mut s = hex_str(x / 0x1000000000000000000000000u128, 8);
        s.append("-");
        let g2 = hex_str((x / 0x100000000000000000000u128) % 0x10000u128, 4);
        s.append(g2.as_str());
        s.append("-");
        let g3 = hex_str((x / 0x10000000000000000u128) % 0x10000u128, 4);
        s.append(g3.as_str());
        s.append("-");
        let g4 = hex_str((x / 0x1000000000000u128) % 0x10000u128, 4);
        s.append(g4.as_str());
        s.append("-");
        let g5 = hex_str(x % 0x1000000000000u128, 12);
        s.append(g5.as_str());
        proof {
            assert(s@ =~= self.spec_canonical());
        }
        s
    }
}

} // verus!
