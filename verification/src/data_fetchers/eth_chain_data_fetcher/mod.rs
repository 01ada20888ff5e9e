pub mod aave;
pub mod erc20;
