//! Kipko point-of-sale core: precise money arithmetic, restaurant domain
//! models, double-entry accounting, tax calculation, and what the REST API
//! and the user interface compute around them.

pub mod accounting;
pub mod api;
pub mod currencies;
pub mod decimal;
pub mod forms;
pub mod handlers;
pub mod ids;
pub mod models;
pub mod money;
pub mod qr;
pub mod queries;
pub mod reports;
pub mod tax;
pub mod text;
pub mod time;
