//! Verified request building for Binance's USDⓈ-M futures REST API.
pub mod query;
pub mod account_api;
pub mod convert_api;
pub mod market_data_api;
pub mod portfolio_margin_endpoints_api;
pub mod trade_api;
