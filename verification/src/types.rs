//! Value types of the engine: order identity, fixed-point price in integer
//! cents, saturating quantity, nanosecond timestamp, side, and order status.

use std::time::SystemTime;

use vstd::prelude::*;

use crate::errors::{NyquestroError, NyquestroResult};

verus! {

/// A non-zero order identifier. Uniqueness across orders is the caller's
/// concern; this type only rules out the zero value.
#[derive(Debug, Clone, Copy, PartialEq, Eq, Hash, Structural)]
pub struct OrderID(u64);

impl View for OrderID {
    type V = u64;

    closed spec fn view(&self) -> u64 {
        self.0
    }
}

impl OrderID {
    /// An identifier is valid exactly when it is non-zero.
    pub open spec fn wf(&self) -> bool {
        self@ != 0
    }

    /// Wraps a raw identifier, rejecting zero.
    pub fn new(id: u64) -> (r: NyquestroResult<OrderID>)
        ensures
            id != 0 ==> (r matches Ok(v) && v@ == id && v.wf()),
            id == 0 ==> (r matches Err(e) && e == NyquestroError::InvalidOrderID),
    {
        if id == 0 {
            Err(NyquestroError::InvalidOrderID)
        } else {
            Ok(OrderID(id))
        }
    }

    /// The raw identifier.
    pub fn value(&self) -> (r: u64)
        ensures
            r == self@,
    {
        self.0
    }
}

/// Which side of the book an order rests on.
#[derive(Debug, Clone, Copy, PartialEq, Eq, Structural)]
pub enum Side {
    Buy,
    Sell,
}

impl Side {
    /// The other side of the book.
    pub open spec fn spec_opposite(&self) -> Side {
        match self {
            Side::Buy => Side::Sell,
            Side::Sell => Side::Buy,
        }
    }

    /// Buy maps to Sell and Sell maps to Buy.
    pub fn opposite(&self) -> (r: Side)
        ensures
            r == self.spec_opposite(),
    {
        match self {
            Side::Buy => Side::Sell,
            Side::Sell => Side::Buy,
        }
    }
}

/// Taking the opposite side twice leads back to the side one started on.
pub proof fn lemma_opposite_involution(side: Side)
    ensures
        side.spec_opposite().spec_opposite() == side,
{
}

/// A strictly positive price counted in minor currency units (cents).
/// Two prices are equal exactly when their cent counts are equal.
#[derive(Debug, Clone, Copy, PartialEq, Eq, PartialOrd, Ord, Hash, Structural)]
pub struct Px(u64);

impl View for Px {
    type V = u64;

    closed spec fn view(&self) -> u64 {
        self.0
    }
}

impl Px {
    /// A price is valid exactly when its cent count is non-zero.
    pub open spec fn wf(&self) -> bool {
        self@ > 0
    }

    /// Wraps a price in cents, rejecting zero.
    pub fn new_from_cents(cent_price: u64) -> (r: NyquestroResult<Px>)
        ensures
            cent_price > 0 ==> (r matches Ok(v) && v@ == cent_price && v.wf()),
            cent_price == 0 ==> (r matches Err(e) && e == (NyquestroError::InvalidPrice {
                value: cent_price,
            })),
    {
        if cent_price > 0 {
            Ok(Px(cent_price))
        } else {
            Err(NyquestroError::InvalidPrice { value: cent_price })
        }
    }

    /// Two prices are the same value exactly when their cent counts agree.
    pub proof fn lemma_eq_is_cent_eq(a: Px, b: Px)
        ensures
            (a == b) <==> (a@ == b@),
    {
    }

    /// The price in cents.
    pub fn to_cents(&self) -> (r: u64)
        ensures
            r == self@,
    {
        self.0
    }
}

/// A unit count. Zero is a valid quantity here; consumers that need a
/// non-empty amount enforce that themselves. Subtraction saturates at zero.
#[derive(Debug, Clone, Copy, PartialEq, Eq, PartialOrd, Ord, Structural)]
pub struct Qty(u32);

impl View for Qty {
    type V = u32;

    closed spec fn view(&self) -> u32 {
        self.0
    }
}

impl Qty {
    /// Wraps a unit count; every value, zero included, is accepted.
    pub fn new(value: u32) -> (r: Qty)
        ensures
            r@ == value,
    {
        Qty(value)
    }

    /// The raw unit count.
    pub fn value(&self) -> (r: u32)
        ensures
            r == self@,
    {
        self.0
    }

    /// Whether subtracting `other` stays at or above zero.
    pub fn can_subtract(&self, other: Qty) -> (r: bool)
        ensures
            r == (self@ >= other@),
    {
        if self.value() < other.value() {
            false
        } else {
            true
        }
    }

    /// Subtraction clamped at zero from below: the result is
    /// `max(self - other, 0)`, and no operand magnitude can make it wrap.
    pub fn saturating_sub(&self, other: Qty) -> (r: Qty)
        ensures
            r@ == vstd::math::max(self@ - other@, 0),
    {
        let result = if self.value() > other.value() {
            self.value() - other.value()
        } else {
            0
        };

        Qty(result)
    }
}

/// A timestamp in nanoseconds since the UNIX epoch.
#[derive(Debug, Clone, Copy, PartialEq, Eq, PartialOrd, Ord, Structural)]
pub struct Ts(u64);

impl View for Ts {
    type V = u64;

    closed spec fn view(&self) -> u64 {
        self.0
    }
}

impl Ts {
    /// Samples the live clock. Relies on `std::time::SystemTime::now`; the
    /// value depends on when the call happens, so nothing is promised of it.
    /// Assumes the system clock reads at or after the UNIX epoch: on a clock
    /// set before it, the conversion aborts.
    #[verifier::external_body]
    pub fn now() -> Ts {
        let time_now = SystemTime::now()
            .duration_since(SystemTime::UNIX_EPOCH)
            .unwrap()
            .as_nanos() as u64;

        Ts(time_now)
    }

    /// Wraps an explicit nanosecond count, for deterministic construction.
    pub fn from_nanos(nanos: u64) -> (r: Ts)
        ensures
            r@ == nanos,
    {
        Ts(nanos)
    }

    /// Whether this timestamp lies strictly before the given nanosecond count.
    pub fn is_before(&self, timestamp: u64) -> (r: bool)
        ensures
            r == (self@ < timestamp),
    {
        if self.0 < timestamp {
            true
        } else {
            false
        }
    }

    /// Whether this timestamp lies strictly after the given nanosecond count.
    pub fn is_after(&self, timestamp: u64) -> (r: bool)
        ensures
            r == (self@ > timestamp),
    {
        if self.0 > timestamp {
            true
        } else {
            false
        }
    }

    /// The absolute distance in nanoseconds between this timestamp and the
    /// given one, whatever their order.
    pub fn duration_since(&self, time_in_nanos: u64) -> (r: u64)
        ensures
            r == vstd::math::abs(self@ - time_in_nanos),
    {
        if self.is_after(time_in_nanos) {
            self.nanos() - time_in_nanos
        } else {
            time_in_nanos - self.nanos()
        }
    }

    /// The raw nanosecond count.
    pub fn nanos(&self) -> (r: u64)
        ensures
            r == self@,
    {
        self.0
    }

    /// The timestamp in whole microseconds (truncating).
    pub fn micros(&self) -> (r: u64)
        ensures
            r == self@ / 1000,
    {
        self.0 / 1000
    }

    /// The timestamp in whole milliseconds (truncating).
    pub fn millis(&self) -> (r: u64)
        ensures
            r == self@ / 1000000,
    {
        self.0 / 1000000
    }

}

/// Where an order stands in its fill lifecycle. `Cancelled` is assigned by
/// an external actor and never derived from the quantity pair.
#[derive(Debug, Clone, Copy, PartialEq, Eq, PartialOrd, Ord, Structural)]
pub enum Status {
    Open,
    PartiallyFilled,
    FullyFilled,
    Cancelled,
}

} // verus!
