use vstd::prelude::*;

use crate::address::{hex_digits, parse_valid_address, parsed_address, EthAddress};

verus! {

/// The unit of the Aave oracle's base currency (USD): 10^8.
pub const AAVE_ORACLE_BASE_UNIT: u128 = 100_000_000;

/// Aave's wad: 10^18.
pub const AAVE_WAD: u128 = 1_000_000_000_000_000_000;

/// Aave v3's `PoolAddressesProvider` on Ethereum mainnet.
pub fn aave_pool_addresses_provider() -> (a: EthAddress)
    ensures
        a.bytes@ == parsed_address("0x2f39d218133AFaB8F2B819B1066c7E434Ad94E9e"@).unwrap(),
{
    proof {
        reveal_strlit("0x2f39d218133AFaB8F2B819B1066c7E434Ad94E9e");
        reveal_with_fuel(hex_digits, 43);
    }
    parse_valid_address("0x2f39d218133AFaB8F2B819B1066c7E434Ad94E9e")
}

/// Aave v3's `UiPoolDataProvider` on Ethereum mainnet.
pub fn aave_ui_pool_data_provider() -> (a: EthAddress)
    ensures
        a.bytes@ == parsed_address("0x3F78BBD206e4D3c504Eb854232EdA7e47E9Fd8FC"@).unwrap(),
{
    proof {
        reveal_strlit("0x3F78BBD206e4D3c504Eb854232EdA7e47E9Fd8FC");
        reveal_with_fuel(hex_digits, 43);
    }
    parse_valid_address("0x3F78BBD206e4D3c504Eb854232EdA7e47E9Fd8FC")
}

} // verus!
