pub mod config;
pub mod engine;
pub mod services;
pub mod text;
