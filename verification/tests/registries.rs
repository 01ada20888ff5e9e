use aave_portfolio_manager::aave_portfolio::token_addresses;
use aave_portfolio_manager::portfolio_data::erc20::Erc20;
use aave_portfolio_manager::portfolio_data::erc20_registry;

#[test]
fn erc20_registry_a_tokens() {
    let set = erc20_registry::a_token_set();
    assert_eq!(set.len(), 1);
    assert_eq!(set[0].symbol, "USDT");
    assert_eq!(set[0].decimals, 6);
    assert_eq!(set[0].address, Erc20::new("", 0, "0x23878914efe38d27c4d67ab83ed1b93a74d4086a").address);
}

#[test]
fn erc20_registry_debt_tokens() {
    let set = erc20_registry::variable_debt_token_set();
    let symbols: Vec<&str> = set.iter().map(|t| t.symbol.as_str()).collect();
    assert_eq!(symbols, vec!["WBTC", "USDe"]);
    assert!(set.iter().all(|t| t.decimals == 8));
    assert_eq!(set[1].address, Erc20::new("", 0, "0x015396E1F286289AE23A762088E863B3EC465145").address);
}

#[test]
fn erc20_new_parses_the_address() {
    let t = Erc20::new("DAI", 18, "0x6B175474E89094C44Da98b954EedeAC495271d0F");
    assert_eq!(t.symbol, "DAI");
    assert_eq!(t.decimals, 18);
    assert_eq!(t.address.bytes[0], 0x6b);
    assert_eq!(t.address.bytes[19], 0x0f);
}

#[test]
fn token_address_sets() {
    let a = token_addresses::a_token_set();
    assert_eq!(a.len(), 1);
    assert_eq!(a[0].0, "Usdt");
    let d = token_addresses::variable_debt_token_set();
    assert_eq!(d.iter().map(|e| e.0.as_str()).collect::<Vec<_>>(), vec!["WBTC", "USDe"]);
    assert_eq!(d[0].1, Erc20::new("", 0, "0x40aabef1aa8f0eec637e0e7d92fbffb2f26a8b7b").address);
}
