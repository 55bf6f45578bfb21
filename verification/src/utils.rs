pub mod svg;
pub mod utils;
