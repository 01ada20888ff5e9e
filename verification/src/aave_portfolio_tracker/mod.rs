pub mod config;
pub mod service;
