pub mod keys;
pub mod config;
pub mod resolver;
