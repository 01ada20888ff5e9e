use vstd::prelude::*;

use crate::address::{hex_digits, parsed_address};
use super::erc20::Erc20;

verus! {

/// The aTokens that the portfolio follows.
pub fn a_token_set() -> (set: Vec<Erc20>)
    ensures
        set.len() == 1,
        set@[0].symbol@ == "USDT"@,
        set@[0].decimals == 6,
        set@[0].address.bytes@ == parsed_address("0x23878914EFE38d27C4D67Ab83ed1b93A74D4086a"@).unwrap(),
{
    proof {
        reveal_strlit("0x23878914EFE38d27C4D67Ab83ed1b93A74D4086a");
        reveal_with_fuel(hex_digits, 43);
    }
    let mut set = Vec::new();
    set.push(Erc20::new("USDT", 6, "0x23878914EFE38d27C4D67Ab83ed1b93A74D4086a"));
    set
}

/// The variable debt tokens that the portfolio follows.
pub fn variable_debt_token_set() -> (set: Vec<Erc20>)
    ensures
        set.len() == 2,
        set@[0].symbol@ == "WBTC"@,
        set@[0].decimals == 8,
        set@[0].address.bytes@ == parsed_address("0x40aabef1aa8f0eec637e0e7d92fbffb2f26a8b7b"@).unwrap(),
        set@[1].symbol@ == "USDe"@,
        set@[1].decimals == 8,
        set@[1].address.bytes@ == parsed_address("0x015396e1f286289ae23a762088e863b3ec465145"@).unwrap(),
{
    proof {
        reveal_strlit("0x40aabef1aa8f0eec637e0e7d92fbffb2f26a8b7b");
        reveal_strlit("0x015396e1f286289ae23a762088e863b3ec465145");
        reveal_with_fuel(hex_digits, 43);
    }
    let mut set = Vec::new();
    set.push(Erc20::new("WBTC", 8, "0x40aabef1aa8f0eec637e0e7d92fbffb2f26a8b7b"));
    set.push(Erc20::new("USDe", 8, "0x015396e1f286289ae23a762088e863b3ec465145"));
    set
}

} // verus!
