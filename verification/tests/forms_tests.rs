use kipko::currencies;
use kipko::decimal::Decimal;
use kipko::forms::{menu_item_from_form, reservation_from_form};
use kipko::models::MenuItem;
use kipko::money::Money;
use kipko::reports::popular_items;
use kipko::time::Timestamp;

const TABLE: &str = "67e55044-10b1-426f-9247-bb680e5fe0c8";
const CUSTOMER: &str = "a1a2a3a4-b1b2-c1c2-d1d2-d3d4d5d6d7d8";

#[test]
fn reservation_form_reads_ids_and_time() {
    let r = reservation_from_form(TABLE, Some(CUSTOMER), "2024-05-01T19:30", 4, "window seat").unwrap();
    assert_eq!(r.table_id, 0x67e5504410b1426f9247bb680e5fe0c8);
    assert_eq!(r.customer_id, Some(0xa1a2a3a4b1b2c1c2d1d2d3d4d5d6d7d8));
    assert_eq!(r.reservation_time, Timestamp::from_unix(1714591800, 0));
    assert_eq!(r.party_size, 4);
    assert_eq!(r.notes, Some("window seat".to_string()));
}

#[test]
fn reservation_form_defaults() {
    let r = reservation_from_form(TABLE, Some("nobody"), "2024-05-01T19:30", 0, "").unwrap();
    assert_eq!(r.customer_id, None);
    assert_eq!(r.party_size, 1);
    assert_eq!(r.notes, None);
    assert!(reservation_from_form(TABLE, None, "2024-05-01T19:30", 2, "").unwrap().customer_id.is_none());
}

#[test]
fn reservation_form_needs_table_and_time() {
    assert!(reservation_from_form("table five", None, "2024-05-01T19:30", 2, "").is_none());
    assert!(reservation_from_form(TABLE, None, "tomorrow", 2, "").is_none());
}

#[test]
fn menu_form_reads_category_price_and_rate() {
    let d = menu_item_from_form(TABLE, "Soup".to_string(), "Hot".to_string(), "450.50", "8", String::new(), 12, 3)
        .unwrap();
    assert_eq!(d.category_id, 0x67e5504410b1426f9247bb680e5fe0c8);
    assert_eq!(d.price, Decimal::new(45050, 2));
    assert_eq!(d.tax_rate, Decimal::new(8, 0));
    assert_eq!(d.stock_quantity, 12);
    assert_eq!(d.low_stock_threshold, 3);
}

#[test]
fn menu_form_keeps_starting_values_for_unreadable_numbers() {
    let d = menu_item_from_form(TABLE, "Tea".to_string(), String::new(), "cheap", "", String::new(), 0, 10).unwrap();
    assert_eq!(d.price, Decimal::zero());
    assert_eq!(d.tax_rate, Decimal::new(16, 0));
    assert!(menu_item_from_form("", "Tea".to_string(), String::new(), "1", "1", String::new(), 0, 10).is_none());
}

#[test]
fn decimals_read_from_text() {
    assert_eq!(Decimal::from_text("-3.25"), Some(Decimal::new(-325, 2)));
    assert_eq!(Decimal::from_text("3.2.5"), None);
}

#[test]
fn popular_items_are_the_first_five() {
    let items: Vec<MenuItem> = (0..7)
        .map(|i| {
            MenuItem::new(0, format!("Dish {}", i), Money::new(Decimal::new(i, 0), currencies::usd()).unwrap(), Decimal::zero())
        })
        .collect();
    let popular = popular_items(&items);
    assert_eq!(popular.len(), 5);
    assert_eq!(popular[4].name, "Dish 4");
    assert_eq!(popular_items(&items[..2]).len(), 2);
}
