use kipko::currencies;
use kipko::decimal::Decimal;
use kipko::models::{MenuItem, OrderItem, OrderItemStatus};
use kipko::money::{Money, MoneyError};
use kipko::tax::{TaxEngine, TaxError, TaxExemption, TaxExemptionType, TaxJurisdiction};
use kipko::time::Timestamp;

fn new_id() -> u128 {
    uuid::Uuid::new_v4().as_u128()
}

fn create_test_menu_item(name: &str, price: Decimal, tax_rate: Decimal) -> MenuItem {
    let category_id = new_id();
    MenuItem::new(category_id, name.to_string(), Money::new(price, currencies::usd()).unwrap(), tax_rate)
}

fn create_test_order_item(menu_item_id: u128, quantity: i32, price: Decimal) -> OrderItem {
    let order_id = new_id();
    OrderItem::new(order_id, menu_item_id, quantity, Money::new(price, currencies::usd()).unwrap())
}

fn to_rust_decimal(d: Decimal) -> rust_decimal::Decimal {
    rust_decimal::Decimal::from_i128_with_scale(d.mantissa(), d.scale())
}

#[test]
fn test_tax_engine_initialization() {
    let engine = TaxEngine::initialize_default();
    assert!(!engine.get_active_jurisdictions().is_empty());
    assert!(!engine.get_active_exemptions().is_empty());
}

#[test]
fn test_simple_tax_calculation() {
    let engine = TaxEngine::initialize_default();
    let menu_item = create_test_menu_item("Burger", Decimal::new(1000, 2), Decimal::new(85, 1));
    let order_item = create_test_order_item(menu_item.id, 2, Decimal::new(1000, 2));

    let result = engine.calculate_order_tax(&[order_item], &[menu_item], None).unwrap();

    assert_eq!(result.subtotal.amount(), Decimal::new(2000, 2));
    assert_eq!(result.total_tax.amount(), Decimal::new(170, 2));
    assert_eq!(result.grand_total.amount(), Decimal::new(2170, 2));
}

#[test]
fn test_exempt_tax_calculation() {
    let mut engine = TaxEngine::initialize_default();
    let menu_item = create_test_menu_item("Burger", Decimal::new(1000, 2), Decimal::new(85, 1));
    let order_item = create_test_order_item(menu_item.id, 2, Decimal::new(1000, 2));

    let exemption = TaxExemption::new("Test Exemption".to_string(), TaxExemptionType::NonProfit, None);
    let exemption_id = exemption.id;
    engine.add_exemption(exemption);

    let result = engine.calculate_order_tax(&[order_item], &[menu_item], Some(exemption_id)).unwrap();

    assert_eq!(result.subtotal.amount(), Decimal::new(2000, 2));
    assert_eq!(result.total_tax.amount(), Decimal::new(0, 2));
    assert_eq!(result.grand_total.amount(), Decimal::new(2000, 2));
    assert!(result.items[0].is_exempt);
    assert!(result.items[0].exemption_reason.is_some());
}

#[test]
fn test_voided_items_excluded() {
    let engine = TaxEngine::initialize_default();
    let menu_item = create_test_menu_item("Burger", Decimal::new(1000, 2), Decimal::new(85, 1));
    let mut order_item = create_test_order_item(menu_item.id, 2, Decimal::new(1000, 2));
    order_item.status = OrderItemStatus::Voided;

    let result = engine.calculate_order_tax(&[order_item], &[menu_item], None).unwrap();

    assert_eq!(result.subtotal.amount(), Decimal::new(0, 2));
    assert_eq!(result.total_tax.amount(), Decimal::new(0, 2));
    assert_eq!(result.grand_total.amount(), Decimal::new(0, 2));
}

#[test]
fn test_tax_breakdown() {
    let engine = TaxEngine::initialize_default();
    let menu_item = create_test_menu_item("Burger", Decimal::new(1000, 2), Decimal::new(85, 1));
    let order_item = create_test_order_item(menu_item.id, 1, Decimal::new(1000, 2));

    let result = engine.calculate_order_tax(&[order_item], &[menu_item], None).unwrap();

    assert!(!result.tax_breakdown.is_empty());

    let breakdown_total: rust_decimal::Decimal = result
        .tax_breakdown
        .iter()
        .map(|td| to_rust_decimal(td.tax_amount.amount()))
        .fold(rust_decimal::Decimal::ZERO, |acc, amount| acc + amount);

    assert_eq!(breakdown_total, to_rust_decimal(result.total_tax.amount()));
}

#[test]
fn test_invalid_tax_rate() {
    let engine = TaxEngine::new();
    let amount = Money::new(Decimal::new(10000, 2), currencies::usd()).unwrap();

    assert!(engine.calculate_item_tax(&amount, Decimal::new(-50, 1)).is_err());
    assert!(engine.calculate_item_tax(&amount, Decimal::new(1500, 1)).is_err());
}

#[test]
fn test_jurisdiction_effectiveness() {
    let utc = chrono::Utc::now();
    let now = Timestamp::from_unix(utc.timestamp(), utc.timestamp_subsec_nanos());
    let future = Timestamp::from_unix(now.secs + 30 * 24 * 60 * 60, now.nanos);

    let mut jurisdiction =
        TaxJurisdiction::new("Future Tax".to_string(), "FUTURE".to_string(), Decimal::new(100, 1)).unwrap();
    jurisdiction.effective_date = future;

    let _engine = TaxEngine::new();

    assert!(!jurisdiction.is_effective_at(now));
    assert!(jurisdiction.is_effective_at(future));
}

#[test]
fn invalid_jurisdiction_rate_is_refused() {
    let result = TaxJurisdiction::new("Bad".to_string(), "BAD".to_string(), Decimal::new(1001, 1));
    assert_eq!(result.unwrap_err(), TaxError::InvalidTaxRate(Decimal::new(1001, 1)));
}

#[test]
fn expired_jurisdiction_no_longer_applies() {
    let mut jurisdiction = TaxJurisdiction::new("Old".to_string(), "OLD".to_string(), Decimal::new(5, 0)).unwrap();
    jurisdiction.effective_date = Timestamp::from_unix(100, 0);
    jurisdiction.expiry_date = Some(Timestamp::from_unix(200, 0));
    assert!(jurisdiction.is_effective_at(Timestamp::from_unix(150, 0)));
    assert!(!jurisdiction.is_effective_at(Timestamp::from_unix(200, 0)));
    assert!(!jurisdiction.is_effective_at(Timestamp::from_unix(99, 999_999_999)));
}

#[test]
fn breakdown_is_shared_in_proportion_to_the_rates() {
    let engine = TaxEngine::initialize_default();
    let menu_item = create_test_menu_item("Steak", Decimal::new(5000, 2), Decimal::new(9, 0));
    let order_item = create_test_order_item(menu_item.id, 2, Decimal::new(5000, 2));
    let date = Timestamp::from_unix(i64::MAX / 2, 0);
    let result = engine.calculate_order_tax_at(&[order_item], &[menu_item], None, date).unwrap();
    assert_eq!(result.total_tax.amount(), Decimal::new(900, 2));
    assert_eq!(result.tax_breakdown.len(), 3);
    assert_eq!(result.tax_breakdown[0].jurisdiction_name, "State Tax");
    assert_eq!(result.tax_breakdown[0].tax_amount.amount(), Decimal::new(650, 2));
    assert_eq!(result.tax_breakdown[1].tax_amount.amount(), Decimal::new(200, 2));
    assert_eq!(result.tax_breakdown[2].tax_amount.amount(), Decimal::new(50, 2));
    assert_eq!(result.tax_breakdown[2].taxable_amount.amount(), Decimal::new(10000, 2));
}

#[test]
fn no_breakdown_before_the_jurisdictions_take_effect() {
    let engine = TaxEngine::initialize_default();
    let menu_item = create_test_menu_item("Tea", Decimal::new(300, 2), Decimal::new(10, 0));
    let order_item = create_test_order_item(menu_item.id, 1, Decimal::new(300, 2));
    let result = engine
        .calculate_order_tax_at(&[order_item], &[menu_item], None, Timestamp::from_unix(0, 0))
        .unwrap();
    assert!(result.tax_breakdown.is_empty());
    assert_eq!(result.total_tax.amount(), Decimal::new(30, 2));
}

#[test]
fn unknown_menu_item_is_reported() {
    let engine = TaxEngine::initialize_default();
    let menu_item = create_test_menu_item("Burger", Decimal::new(1000, 2), Decimal::new(85, 1));
    let order_item = create_test_order_item(new_id(), 1, Decimal::new(1000, 2));
    let result = engine.calculate_order_tax(&[order_item], &[menu_item], None);
    assert_eq!(result.unwrap_err(), TaxError::ExemptionNotFound("Menu item not found".to_string()));
}

#[test]
fn item_rate_outside_range_is_reported() {
    let engine = TaxEngine::new();
    let menu_item = create_test_menu_item("Burger", Decimal::new(1000, 2), Decimal::new(120, 0));
    let order_item = create_test_order_item(menu_item.id, 1, Decimal::new(1000, 2));
    let result = engine.calculate_order_tax(&[order_item], &[menu_item], None);
    assert_eq!(result.unwrap_err(), TaxError::InvalidTaxRate(Decimal::new(120, 0)));
}

#[test]
fn items_in_another_currency_are_reported() {
    let engine = TaxEngine::new();
    let menu_item = create_test_menu_item("Burger", Decimal::new(1000, 2), Decimal::new(10, 0));
    let order_item = OrderItem::new(
        new_id(),
        menu_item.id,
        1,
        Money::new(Decimal::new(1000, 2), currencies::eur()).unwrap(),
    );
    let result = engine.calculate_order_tax(&[order_item], &[menu_item], None);
    assert_eq!(
        result.unwrap_err(),
        TaxError::MoneyError(MoneyError::CurrencyMismatch { expected: "USD".to_string(), actual: "EUR".to_string() })
    );
}

#[test]
fn agricultural_exemption_covers_seed_and_feed_only() {
    let mut engine = TaxEngine::new();
    let exemption = TaxExemption::new("Farm".to_string(), TaxExemptionType::Agricultural, None);
    let id = exemption.id;
    engine.add_exemption(exemption);
    let seeds = create_test_menu_item("Bird SEED mix", Decimal::new(400, 2), Decimal::new(10, 0));
    let soup = create_test_menu_item("Soup", Decimal::new(600, 2), Decimal::new(10, 0));
    let items = [
        create_test_order_item(seeds.id, 1, Decimal::new(400, 2)),
        create_test_order_item(soup.id, 1, Decimal::new(600, 2)),
    ];
    let result = engine.calculate_order_tax(&items, &[seeds, soup], Some(id)).unwrap();
    assert!(result.items[0].is_exempt);
    assert!(!result.items[1].is_exempt);
    assert_eq!(result.total_tax.amount(), Decimal::new(60, 2));
    assert_eq!(result.items[1].total_amount.amount(), Decimal::new(660, 2));
}

#[test]
fn unknown_exemption_means_no_exemption() {
    let engine = TaxEngine::initialize_default();
    let menu_item = create_test_menu_item("Burger", Decimal::new(1000, 2), Decimal::new(10, 0));
    let order_item = create_test_order_item(menu_item.id, 1, Decimal::new(1000, 2));
    let result = engine.calculate_order_tax(&[order_item], &[menu_item], Some(new_id())).unwrap();
    assert!(!result.items[0].is_exempt);
    assert!(result.items[0].exemption_reason.is_none());
    assert_eq!(result.total_tax.amount(), Decimal::new(100, 2));
}

#[test]
fn effective_rate_adds_the_jurisdictions_in_force() {
    let engine = TaxEngine::initialize_default();
    let late = Timestamp::from_unix(i64::MAX / 2, 0);
    assert_eq!(engine.get_effective_tax_rate(late), Decimal::new(9, 0));
    assert_eq!(engine.get_effective_tax_rate(Timestamp::from_unix(0, 0)), Decimal::zero());
    assert_eq!(engine.get_active_jurisdictions_at(late).len(), 3);
}

#[test]
fn default_engine_contents() {
    let engine = TaxEngine::initialize_default();
    let exemptions = engine.get_active_exemptions();
    assert_eq!(exemptions.len(), 2);
    assert_eq!(exemptions[0].certificate_number, Some("RES-12345".to_string()));
    assert_eq!(exemptions[1].exemption_type, TaxExemptionType::NonProfit);
}
