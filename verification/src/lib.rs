pub mod aave_portfolio;
pub mod aave_portfolio_tracker;
pub mod address;
pub mod app_config;
pub mod args;
pub mod commands;
pub mod common_data;
pub mod cross_service_commands;
pub mod data_fetchers;
pub mod decimal_text;
pub mod logger;
pub mod portfolio;
pub mod portfolio_data;
pub mod telegram_bot;
pub mod telegram_service;
pub mod text;
pub mod u256;
