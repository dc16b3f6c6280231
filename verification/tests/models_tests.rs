use kipko::currencies;
use kipko::decimal::Decimal;
use kipko::models::{
    MenuItem, Order, OrderItem, OrderItemStatus, OrderStatus, Payment, PaymentMethod, Table, TableStatus,
};
use kipko::money::Money;

fn new_id() -> u128 {
    uuid::Uuid::new_v4().as_u128()
}

fn usd(mantissa: i64, scale: u32) -> Money {
    Money::new(Decimal::new(mantissa, scale), currencies::usd()).unwrap()
}

#[test]
fn test_table_state_machine() {
    let mut table = Table::new(1, 4, Some("Main Floor".to_string()));
    assert_eq!(table.status, TableStatus::Empty);

    assert!(table.occupy().is_ok());
    assert_eq!(table.status, TableStatus::Occupied);

    assert!(table.clear().is_ok());
    assert_eq!(table.status, TableStatus::Dirty);

    assert!(table.clean().is_ok());
    assert_eq!(table.status, TableStatus::Empty);

    assert!(table.clear().is_err());
    assert!(table.clean().is_err());
}

#[test]
fn test_order_item_lifecycle() {
    let order_id = new_id();
    let menu_item_id = new_id();
    let price = Money::new(Decimal::new(1050, 2), "USD".to_string()).unwrap();

    let mut item = OrderItem::new(order_id, menu_item_id, 2, price);
    assert_eq!(item.status, OrderItemStatus::Pending);
    assert_eq!(item.subtotal().amount(), Decimal::new(2100, 2));

    assert!(item.fire().is_ok());
    assert_eq!(item.status, OrderItemStatus::Fired);

    assert!(item.void("Customer request".to_string(), new_id()).is_ok());
    assert_eq!(item.status, OrderItemStatus::Voided);
    assert_eq!(item.void_reason, Some("Customer request".to_string()));
}

#[test]
fn test_menu_item_tax_calculation() {
    let category_id = new_id();
    let price = Money::new(Decimal::new(2000, 2), "USD".to_string()).unwrap();
    let menu_item = MenuItem::new(category_id, "Test Item".to_string(), price, Decimal::new(85, 1));

    let tax = menu_item.calculate_tax(1);
    assert_eq!(tax.amount(), Decimal::new(170, 2));
}

#[test]
fn refused_table_moves_name_the_status() {
    let mut table = Table::new(2, 2, None);
    assert_eq!(table.clear(), Err("Cannot clear table in status: Empty".to_string()));
    assert_eq!(table.clean(), Err("Cannot clean table in status: Empty".to_string()));
    table.occupy().unwrap();
    assert_eq!(table.occupy(), Err("Cannot occupy table in status: Occupied".to_string()));
    assert_eq!(table.status, TableStatus::Occupied);
    table.clear().unwrap();
    assert!(table.occupy().is_ok());
}

#[test]
fn refused_item_moves_leave_the_item() {
    let mut item = OrderItem::new(new_id(), new_id(), 1, usd(500, 2));
    item.void("wrong table".to_string(), new_id()).unwrap();
    assert_eq!(item.fire(), Err("Cannot fire item in status: Voided".to_string()));
    assert_eq!(item.void("again".to_string(), new_id()), Err("Cannot void item in status: Voided".to_string()));
    assert_eq!(item.void_reason, Some("wrong table".to_string()));
}

#[test]
fn subtotal_fails_for_a_negative_quantity() {
    let item = OrderItem::new(new_id(), new_id(), -1, usd(500, 2));
    assert!(item.checked_subtotal().is_none());
    let item = OrderItem::new(new_id(), new_id(), 3, usd(125, 2));
    assert_eq!(item.checked_subtotal().unwrap().amount(), Decimal::new(375, 2));
}

#[test]
fn order_totals_skip_voided_items() {
    let mut order = Order::new(new_id(), new_id());
    assert_eq!(order.status, OrderStatus::Open);
    let first = OrderItem::new(order.id, new_id(), 2, usd(1050, 2));
    let mut second = OrderItem::new(order.id, new_id(), 1, usd(400, 2));
    second.void("mistake".to_string(), new_id()).unwrap();
    let third = OrderItem::new(order.id, new_id(), 1, usd(250, 2));
    order.calculate_totals(&[first, second, third]);
    assert_eq!(order.subtotal.amount(), Decimal::new(2350, 2));
    assert_eq!(order.total_amount.amount(), Decimal::new(2350, 2));
}

#[test]
fn order_closes_once() {
    let mut order = Order::new(new_id(), new_id());
    assert!(order.close().is_ok());
    assert_eq!(order.status, OrderStatus::Closed);
    assert_eq!(order.close(), Err("Cannot close order in status: Closed".to_string()));
    assert_eq!(order.cancel(), Err("Cannot cancel order in status: Closed".to_string()));
    let mut other = Order::new(new_id(), new_id());
    assert!(other.cancel().is_ok());
    assert_eq!(other.status, OrderStatus::Cancelled);
}

#[test]
fn menu_tax_fails_outside_the_percentage_range() {
    let menu_item = MenuItem::new(new_id(), "Soup".to_string(), usd(500, 2), Decimal::new(101, 0));
    assert!(menu_item.checked_calculate_tax(1).is_none());
    let menu_item = MenuItem::new(new_id(), "Soup".to_string(), usd(500, 2), Decimal::new(10, 0));
    assert_eq!(menu_item.checked_calculate_tax(3).unwrap().amount(), Decimal::new(150, 2));
}

#[test]
fn payment_total_includes_the_tip() {
    let mut payment = Payment::new(new_id(), usd(2000, 2), PaymentMethod::Card, new_id());
    assert_eq!(payment.total_amount().amount(), Decimal::new(2000, 2));
    payment.tip_amount = usd(300, 2);
    assert_eq!(payment.total_amount().amount(), Decimal::new(2300, 2));
}
