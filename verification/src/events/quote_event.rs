//! A quote notification: the best price and size on one side of the book
//! at a point in time.

use vstd::prelude::*;

use crate::errors::{NyquestroError, NyquestroResult};
use crate::types::{Px, Qty, Side, Ts};

verus! {

#[derive(Debug, Clone, Copy, PartialEq, Eq, Structural)]
pub struct QuoteEvent {
    pub price: Px,
    pub quantity: Qty,
    pub side: Side,
    pub timestamp: Ts,
}

impl QuoteEvent {
    /// Builds a quote record from already-validated data, rejecting an
    /// empty size.
    pub fn new(price: Px, quantity: Qty, side: Side, timestamp: Ts) -> (r: NyquestroResult<
        QuoteEvent,
    >)
        ensures
            quantity@ == 0 ==> (r matches Err(e) && e == NyquestroError::InvalidQuantity),
            quantity@ != 0 ==> (r matches Ok(ev) && ev == (QuoteEvent {
                price,
                quantity,
                side,
                timestamp,
            })),
    {
        if quantity.value() == 0 {
            return Err(NyquestroError::InvalidQuantity);
        }

        Ok(QuoteEvent { price, quantity, side, timestamp })
    }

    pub fn get_price(&self) -> (r: Px)
        ensures
            r == self.price,
    {
        self.price
    }

    pub fn get_quantity(&self) -> (r: Qty)
        ensures
            r == self.quantity,
    {
        self.quantity
    }

    pub fn get_side(&self) -> (r: Side)
        ensures
            r == self.side,
    {
        self.side
    }

    pub fn get_timestamp(&self) -> (r: Ts)
        ensures
            r == self.timestamp,
    {
        self.timestamp
    }
}

} // verus!
