pub mod command;
pub mod telegram_bot;
