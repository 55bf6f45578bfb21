pub mod activity;
pub mod health;
pub mod languages;
pub mod pin;
