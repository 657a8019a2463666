//! A single resting order: immutable identity, side and price, an original
//! quantity, a remaining quantity that fills reduce, and a status derived
//! from the quantity pair.

use vstd::prelude::*;

use crate::errors::{NyquestroError, NyquestroResult};
use crate::types::{OrderID, Px, Qty, Side, Status, Ts};

verus! {

/// The mathematical picture of an order: its raw field values.
pub ghost struct OrderView {
    pub order_id: u64,
    pub side: Side,
    pub price: u64,
    pub quantity: u32,
    pub remaining_quantity: u32,
    pub timestamp: u64,
    pub status: Status,
}

/// The status an order must show for a given original/remaining pair:
/// untouched orders are open, partly reduced ones partially filled, and
/// exhausted ones fully filled. `Cancelled` is never derived.
pub open spec fn spec_status_from(quantity: u32, remaining: u32) -> Status {
    if remaining == quantity {
        Status::Open
    } else if 0 < remaining && remaining < quantity {
        Status::PartiallyFilled
    } else {
        Status::FullyFilled
    }
}

/// What every order constructed through `Order::new` maintains: a non-zero
/// original quantity, a remaining quantity that never exceeds it, a status
/// consistent with the quantity pair, and valid identity and price.
pub open spec fn order_view_wf(v: OrderView) -> bool {
    &&& v.quantity > 0
    &&& v.remaining_quantity <= v.quantity
    &&& v.status == spec_status_from(v.quantity, v.remaining_quantity)
    &&& v.order_id != 0
    &&& v.price > 0
}

#[derive(Debug, Clone, Copy, PartialEq)]
pub struct Order {
    order_id: OrderID,
    side: Side,
    price: Px,
    quantity: Qty,
    remaining_quantity: Qty,
    timestamp: Ts,
    status: Status,
}

impl View for Order {
    type V = OrderView;

    closed spec fn view(&self) -> OrderView {
        OrderView {
            order_id: self.order_id@,
            side: self.side,
            price: self.price@,
            quantity: self.quantity@,
            remaining_quantity: self.remaining_quantity@,
            timestamp: self.timestamp@,
            status: self.status,
        }
    }
}

impl Order {
    /// The order's well-formedness invariant, established at construction
    /// and preserved by every mutation.
    pub open spec fn wf(&self) -> bool {
        order_view_wf(self@)
    }

    /// Builds an open order with remaining quantity equal to the original,
    /// stamped with the current clock. A zero quantity is rejected.
    pub fn new(order_id: OrderID, side: Side, price: Px, quantity: Qty) -> (r: NyquestroResult<
        Order,
    >)
        requires
            order_id.wf(),
            price.wf(),
        ensures
            quantity@ == 0 ==> (r matches Err(e) && e == NyquestroError::InvalidQuantity),
            quantity@ != 0 ==> (r matches Ok(o) && o.wf() && o@.order_id == order_id@ && o@.side
                == side && o@.price == price@ && o@.quantity == quantity@ && o@.remaining_quantity
                == quantity@ && o@.status == Status::Open),
    {
        if quantity.value() == 0 {
            return Err(NyquestroError::InvalidQuantity);
        }

        Ok(
            Order {
                order_id,
                side,
                price,
                quantity,
                remaining_quantity: quantity,
                timestamp: Ts::now(),
                status: Status::Open,
            },
        )
    }

    /// Recomputes the status from the original/remaining pair, leaving every
    /// other field as it was. Never fails.
    pub fn update_status(&mut self) -> (r: NyquestroResult<()>)
        ensures
            r is Ok,
            final(self)@ == (OrderView {
                status: spec_status_from(old(self)@.quantity, old(self)@.remaining_quantity),
                ..old(self)@
            }),
    {
        if self.quantity.value() == self.remaining_quantity.value() {
            self.status = Status::Open
        } else if self.quantity.value() > self.remaining_quantity.value()
            && self.remaining_quantity.value() != Qty::new(0).value() {
            self.status = Status::PartiallyFilled
        } else {
            self.status = Status::FullyFilled
        }
        Ok(())
    }

    /// Reduces the remaining quantity by the fill amount, saturating at
    /// zero, and rederives the status. Over-filling caps at zero rather
    /// than failing.
    pub fn fill(&mut self, fill_amount: Qty) -> (r: NyquestroResult<()>)
        requires
            old(self).wf(),
        ensures
            r is Ok,
            final(self).wf(),
            final(self)@.remaining_quantity == vstd::math::max(
                old(self)@.remaining_quantity - fill_amount@,
                0,
            ),
            final(self)@.status == spec_status_from(
                old(self)@.quantity,
                final(self)@.remaining_quantity,
            ),
            final(self)@.order_id == old(self)@.order_id,
            final(self)@.side == old(self)@.side,
            final(self)@.price == old(self)@.price,
            final(self)@.quantity == old(self)@.quantity,
            final(self)@.timestamp == old(self)@.timestamp,
    {
        self.remaining_quantity = self.remaining_quantity.saturating_sub(fill_amount);
        self.update_status()?;

        Ok(())
    }

    pub fn get_order_id(&self) -> (r: OrderID)
        ensures
            r@ == self@.order_id,
    {
        self.order_id
    }

    pub fn get_side(&self) -> (r: Side)
        ensures
            r == self@.side,
    {
        self.side
    }

    pub fn get_price(&self) -> (r: Px)
        ensures
            r@ == self@.price,
    {
        self.price
    }

    pub fn get_quantity(&self) -> (r: Qty)
        ensures
            r@ == self@.quantity,
    {
        self.quantity
    }

    pub fn get_remaining_quantity(&self) -> (r: Qty)
        ensures
            r@ == self@.remaining_quantity,
    {
        self.remaining_quantity
    }

    pub fn get_timestamp(&self) -> (r: Ts)
        ensures
            r@ == self@.timestamp,
    {
        self.timestamp
    }

    pub fn get_status(&self) -> (r: Status)
        ensures
            r == self@.status,
    {
        self.status
    }
}

} // verus!
