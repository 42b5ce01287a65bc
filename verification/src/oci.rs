pub mod config;
pub mod runtime;
