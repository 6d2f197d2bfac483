pub mod config;
pub mod error;
pub mod search;
pub mod templates;
