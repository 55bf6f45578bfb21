pub mod api;
pub mod cache;
pub mod data;
pub mod prepared_templates;
pub mod routes;
pub mod templates;
pub mod utils;
