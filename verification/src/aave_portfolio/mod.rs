pub mod portfolio;
pub mod token_addresses;
