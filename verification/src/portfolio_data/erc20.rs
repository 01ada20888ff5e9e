use vstd::prelude::*;
use vstd::string::*;

use crate::address::{parse_valid_address, parsed_address, EthAddress};

verus! {

/// An ERC-20 token: its symbol, its decimals and its contract address.
#[derive(Debug, PartialEq, Eq, Hash)]
pub struct Erc20 {
    pub symbol: String,
    pub decimals: u8,
    pub address: EthAddress,
}

impl Erc20 {
    /// A token whose address is given as hex text; the text must be a valid address.
    pub fn new(symbol: &str, decimals: u8, address: &str) -> (res: Self)
        requires
            parsed_address(address@).is_some(),
        ensures
            res.symbol@ == symbol@,
            res.decimals == decimals,
            res.address.bytes@ == parsed_address(address@).unwrap(),
    {
        let address_formatted = parse_valid_address(address);
        Erc20 { symbol: String::from_str(symbol), decimals, address: address_formatted }
    }
}

} // verus!
