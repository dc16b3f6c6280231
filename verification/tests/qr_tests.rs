use base64::Engine;
use kipko::qr::{generate_menu_qr_code, generate_order_qr_code, generate_qr_code, generate_table_qr_code};

fn new_id() -> u128 {
    uuid::Uuid::new_v4().as_u128()
}

const PREFIX: &str = "data:image/svg+xml;base64,";

#[test]
fn test_generate_qr_code() {
    let result = generate_qr_code("test data", 200);
    assert!(result.is_ok());
    let data_url = result.unwrap();
    assert!(data_url.starts_with("data:image/svg+xml;base64,"));
}

#[test]
fn test_generate_table_qr_code() {
    let table_id = new_id();
    let result = generate_table_qr_code(table_id, 5, "https://kipko.com");
    assert!(!result.is_empty());
    assert!(result.starts_with("data:image/svg+xml;base64,"));
}

#[test]
fn test_generate_order_qr_code() {
    let order_id = new_id();
    let result = generate_order_qr_code(order_id, "https://kipko.com");
    assert!(!result.is_empty());
    assert!(result.starts_with("data:image/svg+xml;base64,"));
}

#[test]
fn qr_payload_is_base64_of_an_svg_document() {
    let url = generate_qr_code("hello", 100).unwrap();
    let payload = &url[PREFIX.len()..];
    let svg = base64::engine::general_purpose::STANDARD.decode(payload).unwrap();
    let text = String::from_utf8(svg).unwrap();
    assert!(text.contains("<svg"));
}

#[test]
fn too_much_data_is_refused() {
    let data = "x".repeat(8000);
    let result = generate_qr_code(&data, 200);
    assert_eq!(result.unwrap_err(), "Failed to create QR code: data too long");
}

#[test]
fn menu_qr_code_is_a_data_url() {
    let result = generate_menu_qr_code("https://kipko.com");
    assert!(result.starts_with(PREFIX));
    assert_ne!(result, generate_menu_qr_code("https://other.example"));
}
