//! A price level: the orders resting at one exact price, together with the
//! running total of their remaining quantities at insertion time.

use vstd::prelude::*;

use crate::errors::{NyquestroError, NyquestroResult};
use crate::order::{order_view_wf, Order, OrderView};
use crate::types::{Px, Qty};

verus! {

/// The mathematical picture of a price level: its price in cents, the
/// sequence of resting orders in insertion order, and the aggregate
/// remaining quantity.
pub ghost struct PriceLevelView {
    pub price: u64,
    pub orders: Seq<OrderView>,
    pub total_quantity: u32,
}

/// The sum of the remaining quantities of a sequence of orders.
pub open spec fn sum_remaining(orders: Seq<OrderView>) -> int
    decreases orders.len(),
{
    if orders.len() == 0 {
        0
    } else {
        sum_remaining(orders.drop_last()) + orders.last().remaining_quantity
    }
}

/// Appending an order grows the sum by exactly that order's remaining
/// quantity.
proof fn lemma_sum_remaining_push(orders: Seq<OrderView>, v: OrderView)
    ensures
        sum_remaining(orders.push(v)) == sum_remaining(orders) + v.remaining_quantity,
{
    assert(orders.push(v).drop_last() =~= orders);
    assert(orders.push(v).last() == v);
}

pub struct PriceLevel {
    price: Px,
    orders: Vec<Order>,
    total_quantity: Qty,
}

impl View for PriceLevel {
    type V = PriceLevelView;

    closed spec fn view(&self) -> PriceLevelView {
        PriceLevelView {
            price: self.price@,
            orders: self.orders@.map_values(|o: Order| o@),
            total_quantity: self.total_quantity@,
        }
    }
}

impl PriceLevel {
    /// The level's invariant: a valid price, every resting order
    /// well-formed and priced exactly at the level's price, and the total
    /// equal to the sum of the resting orders' remaining quantities.
    pub open spec fn wf(&self) -> bool {
        &&& self@.price > 0
        &&& self@.total_quantity == sum_remaining(self@.orders)
        &&& forall|i: int|
            0 <= i < self@.orders.len() ==> (#[trigger] self@.orders[i]).price == self@.price
        &&& forall|i: int| 0 <= i < self@.orders.len() ==> order_view_wf(#[trigger] self@.orders[i])
    }

    /// Builds an empty level for the given price.
    pub fn new(price: Px) -> (r: NyquestroResult<PriceLevel>)
        requires
            price.wf(),
        ensures
            r matches Ok(l) && l.wf() && l@.price == price@ && l@.orders.len() == 0
                && l@.total_quantity == 0,
    {
        let level = PriceLevel { price, orders: Vec::new(), total_quantity: Qty::new(0) };
        proof {
            assert(level@.orders =~= Seq::<OrderView>::empty());
        }
        Ok(level)
    }

    /// Appends an order priced at the level's price and grows the total by
    /// the order's remaining quantity at insertion; an order at any other
    /// price is rejected, with its price in cents as context, and the level
    /// is left unchanged. Later fills applied to the caller's copy of an
    /// order never reach the copy resting here.
    pub fn add_order(&mut self, order: Order) -> (r: NyquestroResult<()>)
        requires
            old(self).wf(),
            order.wf(),
            order@.price == old(self)@.price ==> old(self)@.total_quantity
                + order@.remaining_quantity <= u32::MAX,
        ensures
            final(self).wf(),
            order@.price != old(self)@.price ==> (r matches Err(e)
                && e == (NyquestroError::InvalidPrice { value: order@.price })
                && final(self)@ == old(self)@),
            order@.price == old(self)@.price ==> (r is Ok
                && final(self)@.price == old(self)@.price
                && final(self)@.orders == old(self)@.orders.push(order@)
                && final(self)@.total_quantity == old(self)@.total_quantity
                    + order@.remaining_quantity),
    {
        let order_price = order.get_price();
        proof {
            Px::lemma_eq_is_cent_eq(order_price, self.price);
        }
        if order_price != self.price {
            return Err(NyquestroError::InvalidPrice { value: order_price.to_cents() });
        }

        let ghost old_orders = self.orders@;
        self.orders.push(order.clone());

        self.total_quantity = Qty::new(
            self.total_quantity.value() + order.get_remaining_quantity().value(),
        );

        proof {
            assert(self.orders@.map_values(|o: Order| o@) =~= old_orders.map_values(
                |o: Order| o@,
            ).push(order@));
            lemma_sum_remaining_push(old_orders.map_values(|o: Order| o@), order@);
        }

        Ok(())
    }

    /// The level's price.
    pub fn get_price(&self) -> (r: NyquestroResult<Px>)
        ensures
            r matches Ok(p) && p@ == self@.price,
    {
        Ok(self.price)
    }

    /// A copy of the resting orders, in insertion order.
    pub fn get_orders(&self) -> (r: NyquestroResult<Vec<Order>>)
        ensures
            r matches Ok(v) && v@.map_values(|o: Order| o@) == self@.orders,
    {
        let copy = self.orders.clone();
        proof {
            assert forall|i: int| 0 <= i < copy@.len() implies copy@[i] == self.orders@[i] by {
                assert(cloned::<Order>(self.orders@[i], copy@[i]));
            }
            assert(copy@ =~= self.orders@);
        }
        Ok(copy)
    }

    /// The aggregate remaining quantity as of each order's insertion.
    pub fn get_total_quantity(&self) -> (r: NyquestroResult<Qty>)
        ensures
            r matches Ok(q) && q@ == self@.total_quantity,
    {
        Ok(self.total_quantity)
    }
}

/// In a well-formed level the advertised total is exactly the sum of the
/// remaining quantities of the orders resting in it.
pub proof fn lemma_total_is_sum_of_resting_orders(level: &PriceLevel)
    requires
        level.wf(),
    ensures
        level@.total_quantity == sum_remaining(level@.orders),
{
}

} // verus!
