pub mod erc20;
pub mod erc20_registry;
pub mod portfolio;
