//! QR codes as data URLs of SVG images, for tables, orders and the menu.
use vstd::prelude::*;
use vstd::string::*;
use crate::ids::{id_text, uuid_text, Id};
use crate::queries::{integer_digits, integer_text};

verus! {

/// What the `qrcode` crate makes of the text at the given size: the SVG
/// document of the code, or the description of why no code can hold it.
pub uninterp spec fn qr_render(data: Seq<char>, size: u32) -> Result<Seq<char>, Seq<char>>;

/// The standard base64 encoding (with padding) of the UTF-8 bytes of the text.
pub uninterp spec fn base64_text(text: Seq<char>) -> Seq<char>;

/// Calls `qrcode::QrCode::new` on the text and renders the code as SVG with
/// `render::<svg::Color>()`, both dimensions set to `size` as the smallest
/// and largest allowed, and `build()`. The document, or the `Display` text of
/// the `QrError`, is named by `qr_render`. Sizing the modules adds up to 184
/// (the width of the largest code with its quiet zone, less one) to the size
/// in `u32`, so larger sizes are left out.
#[verifier::external_body]
fn render_svg(data: &str, size: u32) -> (r: Result<String, String>)
    requires
        size <= u32::MAX - 184,
    ensures
        match r {
            Ok(svg) => qr_render(data@, size) == Ok::<Seq<char>, Seq<char>>(svg@),
            Err(m) => qr_render(data@, size) == Err::<Seq<char>, Seq<char>>(m@),
        },
{
    match qrcode::QrCode::new(data.as_bytes()) {
        Ok(code) => Ok(
            code.render::<qrcode::render::svg::Color>().min_dimensions(size, size).max_dimensions(
                size,
                size,
            ).build(),
        ),
        Err(e) => Err(e.to_string()),
    }
}

/// Calls `base64::Engine::encode` of the `STANDARD` engine on the UTF-8
/// bytes of the text; the encoding is named by `base64_text`.
#[verifier::external_body]
fn encode_base64(text: &str) -> (r: String)
    ensures
        r@ == base64_text(text@),
{
    base64::Engine::encode(&base64::engine::general_purpose::STANDARD, text.as_bytes())
}

/// What `generate_qr_code` answers for the text and size.
pub open spec fn qr_data_url(data: Seq<char>, size: u32) -> Result<Seq<char>, Seq<char>> {
    match qr_render(data, size) {
        Ok(svg) => Ok("data:image/svg+xml;base64,"@ + base64_text(svg)),
        Err(m) => Err("Failed to create QR code: "@ + m),
    }
}

/// The QR code of the text as a base64 SVG data URL, at a size that leaves
/// room for sizing the modules in `u32`.
pub fn generate_qr_code(data: &str, size: u32) -> (r: Result<String, String>)
    requires
        size <= u32::MAX - 184,
    ensures
        match r {
            Ok(url) => qr_data_url(data@, size) == Ok::<Seq<char>, Seq<char>>(url@),
            Err(m) => qr_data_url(data@, size) == Err::<Seq<char>, Seq<char>>(m@),
        },
{
    match render_svg(data, size) {
        Ok(svg) => {
            let encoded = encode_base64(svg.as_str());
            let mut url = String::from_str("data:image/svg+xml;base64,");
            url.append(encoded.as_str());
            Ok(url)
        },
        Err(m) => {
            let mut message = String::from_str("Failed to create QR code: ");
            message.append(m.as_str());
            Err(message)
        },
    }
}

/// The QR code of the first text where it can be made, else of the second,
/// else nothing.
pub open spec fn qr_with_fallback(first: Seq<char>, second: Seq<char>) -> Seq<char> {
    match qr_data_url(first, 200) {
        Ok(url) => url,
        Err(_) => match qr_data_url(second, 200) {
            Ok(url) => url,
            Err(_) => Seq::empty(),
        },
    }
}

fn qr_or_fallback(first: &str, second: &str) -> (r: String)
    ensures
        r@ == qr_with_fallback(first@, second@),
{
    match generate_qr_code(first, 200) {
        Ok(url) => url,
        Err(_) => match generate_qr_code(second, 200) {
            Ok(url) => url,
            Err(_) => String::new(),
        },
    }
}

/// The QR code a customer scans at a table: the table's page, or the table
/// number where that cannot be encoded.
pub fn generate_table_qr_code(table_id: Id, table_number: i32, base_url: &str) -> (r: String)
    ensures
        r@ == qr_with_fallback(
            base_url@ + "/table/"@ + uuid_text(table_id),
            "TABLE-"@ + integer_digits(table_number as int),
        ),
{
    let mut url = String::from_str(base_url);
    url.append("/table/");
    let id = id_text(table_id);
    url.append(id.as_str());
    let mut fallback = String::from_str("TABLE-");
    let number = integer_text(table_number);
    fallback.append(number.as_str());
    qr_or_fallback(url.as_str(), fallback.as_str())
}

/// The QR code for paying an order: the order's payment page, or the order
/// identifier where that cannot be encoded.
pub fn generate_order_qr_code(order_id: Id, base_url: &str) -> (r: String)
    ensures
        r@ == qr_with_fallback(base_url@ + "/order/pay/"@ + uuid_text(order_id), uuid_text(order_id)),
{
    let mut url = String::from_str(base_url);
    url.append("/order/pay/");
    let id = id_text(order_id);
    url.append(id.as_str());
    qr_or_fallback(url.as_str(), id.as_str())
}

/// The QR code of the menu page, or of the word MENU where that cannot be
/// encoded.
pub fn generate_menu_qr_code(base_url: &str) -> (r: String)
    ensures
        r@ == qr_with_fallback(base_url@ + "/menu"@, "MENU"@),
{
    let mut url = String::from_str(base_url);
    url.append("/menu");
    qr_or_fallback(url.as_str(), "MENU")
}

} // verus!
