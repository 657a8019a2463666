//! An order lifecycle notification: acceptance, cancellation, or rejection
//! with a reason.

use vstd::prelude::*;

use crate::errors::{NyquestroError, NyquestroResult};
use crate::types::{OrderID, Px, Qty, Side, Ts};

verus! {

/// Why an order was turned away.
#[derive(Debug, Clone, Copy, PartialEq, Eq, Structural)]
pub enum OrderRejectionReason {
    InvalidQuantity,
    InvalidPrice,
    InvalidSide,
    InvalidTimestamp,
    InvalidOrderID,
    InvalidOrderStatus,
    InvalidOrderType,
}

#[derive(Debug, Clone, Copy, PartialEq, Eq, Structural)]
pub enum OrderEvent {
    New { order_id: OrderID, price: Px, quantity: Qty, side: Side, timestamp: Ts },
    Cancelled { order_id: OrderID, price: Px, quantity: Qty, side: Side, timestamp: Ts },
    Rejected {
        order_id: OrderID,
        price: Px,
        quantity: Qty,
        side: Side,
        reason: OrderRejectionReason,
        timestamp: Ts,
    },
}

impl OrderEvent {
    /// The identifier carried by the event, whichever variant it is.
    pub open spec fn spec_order_id(&self) -> OrderID {
        match *self {
            OrderEvent::New { order_id, .. } => order_id,
            OrderEvent::Cancelled { order_id, .. } => order_id,
            OrderEvent::Rejected { order_id, .. } => order_id,
        }
    }

    /// The price carried by the event, whichever variant it is.
    pub open spec fn spec_price(&self) -> Px {
        match *self {
            OrderEvent::New { price, .. } => price,
            OrderEvent::Cancelled { price, .. } => price,
            OrderEvent::Rejected { price, .. } => price,
        }
    }

    /// The quantity carried by the event, whichever variant it is.
    pub open spec fn spec_quantity(&self) -> Qty {
        match *self {
            OrderEvent::New { quantity, .. } => quantity,
            OrderEvent::Cancelled { quantity, .. } => quantity,
            OrderEvent::Rejected { quantity, .. } => quantity,
        }
    }

    /// The side carried by the event, whichever variant it is.
    pub open spec fn spec_side(&self) -> Side {
        match *self {
            OrderEvent::New { side, .. } => side,
            OrderEvent::Cancelled { side, .. } => side,
            OrderEvent::Rejected { side, .. } => side,
        }
    }

    /// The timestamp carried by the event, whichever variant it is.
    pub open spec fn spec_timestamp(&self) -> Ts {
        match *self {
            OrderEvent::New { timestamp, .. } => timestamp,
            OrderEvent::Cancelled { timestamp, .. } => timestamp,
            OrderEvent::Rejected { timestamp, .. } => timestamp,
        }
    }

    /// Builds the acceptance variant from already-validated data, rejecting
    /// an empty quantity.
    pub fn new(order_id: OrderID, price: Px, quantity: Qty, side: Side, timestamp: Ts) -> (r:
        NyquestroResult<OrderEvent>)
        ensures
            quantity@ == 0 ==> (r matches Err(e) && e == NyquestroError::InvalidQuantity),
            quantity@ != 0 ==> (r matches Ok(ev) && ev == (OrderEvent::New {
                order_id,
                price,
                quantity,
                side,
                timestamp,
            })),
    {
        if quantity.value() == 0 {
            return Err(NyquestroError::InvalidQuantity);
        }

        Ok(OrderEvent::New { order_id, price, quantity, side, timestamp })
    }

    pub fn get_order_id(&self) -> (r: OrderID)
        ensures
            r == self.spec_order_id(),
    {
        match self {
            OrderEvent::New { order_id, .. } => *order_id,
            OrderEvent::Cancelled { order_id, .. } => *order_id,
            OrderEvent::Rejected { order_id, .. } => *order_id,
        }
    }

    pub fn get_price(&self) -> (r: Px)
        ensures
            r == self.spec_price(),
    {
        match self {
            OrderEvent::New { price, .. } => *price,
            OrderEvent::Cancelled { price, .. } => *price,
            OrderEvent::Rejected { price, .. } => *price,
        }
    }

    pub fn get_quantity(&self) -> (r: Qty)
        ensures
            r == self.spec_quantity(),
    {
        match self {
            OrderEvent::New { quantity, .. } => *quantity,
            OrderEvent::Cancelled { quantity, .. } => *quantity,
            OrderEvent::Rejected { quantity, .. } => *quantity,
        }
    }

    pub fn get_side(&self) -> (r: Side)
        ensures
            r == self.spec_side(),
    {
        match self {
            OrderEvent::New { side, .. } => *side,
            OrderEvent::Cancelled { side, .. } => *side,
            OrderEvent::Rejected { side, .. } => *side,
        }
    }

    pub fn get_timestamp(&self) -> (r: Ts)
        ensures
            r == self.spec_timestamp(),
    {
        match self {
            OrderEvent::New { timestamp, .. } => *timestamp,
            OrderEvent::Cancelled { timestamp, .. } => *timestamp,
            OrderEvent::Rejected { timestamp, .. } => *timestamp,
        }
    }
}

} // verus!
