//! Supervision of a browser-driver process and bounded-retry page fetching,
//! written as explicit state machines that a host drives.

pub mod amazon_parser;
pub mod browser_service_manager;
pub mod clock;
pub mod database;
pub mod extract;
pub mod flipkart_parser;
pub mod host;
pub mod json;
pub mod markup;
pub mod models;
pub mod pattern;
pub mod ports;
pub mod price_engine;
pub mod runs;
pub mod scraper_engine;
pub mod status;
pub mod text;
