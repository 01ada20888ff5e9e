use vstd::prelude::*;
use vstd::string::*;

use crate::address::{hex_digits, parse_valid_address, parsed_address, EthAddress};

verus! {

/// The aTokens whose balances make the collateral, by symbol.
pub fn a_token_set() -> (set: Vec<(String, EthAddress)>)
    ensures
        set.len() == 1,
        set@[0].0@ == "Usdt"@,
        set@[0].1.bytes@ == parsed_address("0x23878914EFE38d27C4D67Ab83ed1b93A74D4086a"@).unwrap(),
{
    proof {
        reveal_strlit("0x23878914EFE38d27C4D67Ab83ed1b93A74D4086a");
        reveal_with_fuel(hex_digits, 43);
    }
    let mut set = Vec::new();
    set.push((String::from_str("Usdt"), parse_valid_address("0x23878914EFE38d27C4D67Ab83ed1b93A74D4086a")));
    set
}

/// The variable debt tokens whose balances make the debt, by symbol.
pub fn variable_debt_token_set() -> (set: Vec<(String, EthAddress)>)
    ensures
        set.len() == 2,
        set@[0].0@ == "WBTC"@,
        set@[0].1.bytes@ == parsed_address("0x40aabef1aa8f0eec637e0e7d92fbffb2f26a8b7b"@).unwrap(),
        set@[1].0@ == "USDe"@,
        set@[1].1.bytes@ == parsed_address("0x015396e1f286289ae23a762088e863b3ec465145"@).unwrap(),
{
    proof {
        reveal_strlit("0x40aabef1aa8f0eec637e0e7d92fbffb2f26a8b7b");
        reveal_strlit("0x015396e1f286289ae23a762088e863b3ec465145");
        reveal_with_fuel(hex_digits, 43);
    }
    let mut set = Vec::new();
    set.push((String::from_str("WBTC"), parse_valid_address("0x40aabef1aa8f0eec637e0e7d92fbffb2f26a8b7b")));
    set.push((String::from_str("USDe"), parse_valid_address("0x015396e1f286289ae23a762088e863b3ec465145")));
    set
}

} // verus!
