pub mod config;
pub mod error;
pub mod json;
pub mod model_filter;
pub mod odoo_client;
pub mod text;
pub mod tools;
