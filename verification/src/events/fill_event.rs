//! A trade fill notification: the two matched orders, the execution price,
//! the filled quantity and the execution time.

use vstd::prelude::*;

use crate::errors::{NyquestroError, NyquestroResult};
use crate::types::{OrderID, Px, Qty, Ts};

verus! {

#[derive(Debug, Clone, Copy, PartialEq, Eq, Structural)]
pub struct FillEvent {
    pub buyer_order_id: OrderID,
    pub seller_order_id: OrderID,
    pub price: Px,
    pub quantity: Qty,
    pub timestamp: Ts,
}

impl FillEvent {
    /// Builds a fill record from already-validated data, rejecting an empty
    /// fill quantity.
    pub fn new(
        buyer_order_id: OrderID,
        seller_order_id: OrderID,
        price: Px,
        quantity: Qty,
        timestamp: Ts,
    ) -> (r: NyquestroResult<FillEvent>)
        ensures
            quantity@ == 0 ==> (r matches Err(e) && e == NyquestroError::InvalidQuantity),
            quantity@ != 0 ==> (r matches Ok(ev) && ev == (FillEvent {
                buyer_order_id,
                seller_order_id,
                price,
                quantity,
                timestamp,
            })),
    {
        if quantity.value() == 0 {
            return Err(NyquestroError::InvalidQuantity);
        }

        Ok(FillEvent { buyer_order_id, seller_order_id, price, quantity, timestamp })
    }

    pub fn get_buyer_order_id(&self) -> (r: OrderID)
        ensures
            r == self.buyer_order_id,
    {
        self.buyer_order_id
    }

    pub fn get_seller_order_id(&self) -> (r: OrderID)
        ensures
            r == self.seller_order_id,
    {
        self.seller_order_id
    }

    pub fn get_price(&self) -> (r: Px)
        ensures
            r == self.price,
    {
        self.price
    }

    pub fn get_quantity(&self) -> (r: Qty)
        ensures
            r == self.quantity,
    {
        self.quantity
    }

    pub fn get_timestamp(&self) -> (r: Ts)
        ensures
            r == self.timestamp,
    {
        self.timestamp
    }
}

} // verus!
