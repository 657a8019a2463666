use nyquestro::errors::NyquestroError;
use nyquestro::order::Order;
use nyquestro::price_level::PriceLevel;
use nyquestro::types::{OrderID, Px, Qty, Side, Status};

#[test]
fn test_price_level_starts_empty() {
    let level = PriceLevel::new(Px::new_from_cents(10000).unwrap()).unwrap();
    assert_eq!(level.get_price().unwrap().to_cents(), 10000);
    assert_eq!(level.get_orders().unwrap().len(), 0);
    assert_eq!(level.get_total_quantity().unwrap().value(), 0);
}

#[test]
fn test_price_level_rejects_mismatched_price() {
    let mut level = PriceLevel::new(Px::new_from_cents(10000).unwrap()).unwrap();
    let order = Order::new(
        OrderID::new(1).unwrap(),
        Side::Buy,
        Px::new_from_cents(9900).unwrap(),
        Qty::new(10),
    )
    .unwrap();

    let result = level.add_order(order);
    assert!(result.is_err());
    // The error carries the offending order's price.
    assert_eq!(
        result.unwrap_err(),
        NyquestroError::InvalidPrice { value: 9900 }
    );
    // The level is untouched.
    assert_eq!(level.get_orders().unwrap().len(), 0);
    assert_eq!(level.get_total_quantity().unwrap().value(), 0);
}

#[test]
fn test_price_level_accumulates_total_quantity() {
    let price = Px::new_from_cents(10000).unwrap();
    let mut level = PriceLevel::new(price).unwrap();

    let order1 = Order::new(OrderID::new(1).unwrap(), Side::Buy, price, Qty::new(10)).unwrap();
    let order2 = Order::new(OrderID::new(2).unwrap(), Side::Buy, price, Qty::new(7)).unwrap();

    level.add_order(order1).unwrap();
    assert_eq!(level.get_total_quantity().unwrap().value(), 10);

    level.add_order(order2).unwrap();
    assert_eq!(level.get_total_quantity().unwrap().value(), 17);

    let orders = level.get_orders().unwrap();
    assert_eq!(orders.len(), 2);
    // Insertion order is preserved.
    assert_eq!(orders[0].get_order_id().value(), 1);
    assert_eq!(orders[1].get_order_id().value(), 2);
}

#[test]
fn test_price_level_total_ignores_outside_fills() {
    let price = Px::new_from_cents(5000).unwrap();
    let mut level = PriceLevel::new(price).unwrap();

    let mut order1 = Order::new(OrderID::new(1).unwrap(), Side::Sell, price, Qty::new(10)).unwrap();
    let mut order2 = Order::new(OrderID::new(2).unwrap(), Side::Sell, price, Qty::new(5)).unwrap();

    level.add_order(order1).unwrap();
    level.add_order(order2).unwrap();
    assert_eq!(level.get_total_quantity().unwrap().value(), 15);

    // Fills applied to the caller's copies never reach the copies resting in
    // the level: the total stays the sum as of insertion.
    order1.fill(Qty::new(10)).unwrap();
    order2.fill(Qty::new(3)).unwrap();
    assert_eq!(level.get_total_quantity().unwrap().value(), 15);

    let resting = level.get_orders().unwrap();
    assert_eq!(resting[0].get_remaining_quantity().value(), 10);
    assert_eq!(resting[0].get_status(), Status::Open);
    assert_eq!(resting[1].get_remaining_quantity().value(), 5);
}

#[test]
fn test_price_level_counts_remaining_at_insertion() {
    let price = Px::new_from_cents(2500).unwrap();
    let mut level = PriceLevel::new(price).unwrap();

    let mut order = Order::new(OrderID::new(3).unwrap(), Side::Buy, price, Qty::new(20)).unwrap();
    // A fill made before insertion is reflected in the total.
    order.fill(Qty::new(8)).unwrap();

    level.add_order(order).unwrap();
    assert_eq!(level.get_total_quantity().unwrap().value(), 12);

    let resting = level.get_orders().unwrap();
    assert_eq!(resting[0].get_quantity().value(), 20);
    assert_eq!(resting[0].get_remaining_quantity().value(), 12);
    assert_eq!(resting[0].get_status(), Status::PartiallyFilled);
}
