pub mod config;
pub mod language;
pub mod theme;
