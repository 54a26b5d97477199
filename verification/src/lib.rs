pub mod changelog;
pub mod cli;
pub mod config;
pub mod content;
pub mod ds;
pub mod engine;
pub mod order;
pub mod schema;
