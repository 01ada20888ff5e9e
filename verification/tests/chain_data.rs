use aave_portfolio_manager::aave_portfolio::token_addresses::{a_token_set, variable_debt_token_set};
use aave_portfolio_manager::data_fetchers::portfolio_fetch::{advance, start_fetch, FetchAnswer, FetchRequest, FetchStage, FetchStep};
use aave_portfolio_manager::aave_portfolio::portfolio::{balance_lines, Portfolio};
use aave_portfolio_manager::address::EthAddress;
use aave_portfolio_manager::data_fetchers::eth_chain_data_fetcher::aave::{
    a_tokens, user_aave_tokens, variable_debt_tokens, AaveReserveData, AaveUserData, UserAaveTokens, UserReserveData,
};
use aave_portfolio_manager::data_fetchers::eth_chain_data_fetcher::erc20::{erc20_balances, BalanceOverflow};
use aave_portfolio_manager::data_fetchers::{portfolio_from_parts, ConversionError};
use aave_portfolio_manager::portfolio::ERC20Balance;
use aave_portfolio_manager::u256::U256Value;

fn addr(n: u8) -> EthAddress {
    EthAddress { bytes: [n; 20] }
}

fn v(n: u128) -> U256Value {
    U256Value::from_u128(n)
}

#[test]
fn erc20_balances_pairs_up_by_position() {
    let res = erc20_balances(&vec![v(10), v(20)], &vec![6, 18], &vec!["USDT".to_string(), "DAI".to_string()]).unwrap();
    assert_eq!(
        res,
        vec![
            ("USDT".to_string(), ERC20Balance { decimals: 6, balance: 10 }),
            ("DAI".to_string(), ERC20Balance { decimals: 18, balance: 20 }),
        ]
    );
}

#[test]
fn erc20_balances_later_symbol_wins() {
    let res = erc20_balances(&vec![v(1), v(2), v(3)], &vec![6, 8, 9], &vec!["A".to_string(), "B".to_string(), "A".to_string()]).unwrap();
    assert_eq!(
        res,
        vec![
            ("A".to_string(), ERC20Balance { decimals: 9, balance: 3 }),
            ("B".to_string(), ERC20Balance { decimals: 8, balance: 2 }),
        ]
    );
}

#[test]
fn erc20_balances_stops_at_shortest_list() {
    let res = erc20_balances(&vec![v(1), v(2), v(3)], &vec![6], &vec!["A".to_string(), "B".to_string()]).unwrap();
    assert_eq!(res, vec![("A".to_string(), ERC20Balance { decimals: 6, balance: 1 })]);
}

#[test]
fn erc20_balances_rejects_first_oversized_balance() {
    let big1 = U256Value { limbs: [0, 0, 1, 0] };
    let big2 = U256Value { limbs: [0, 0, 0, 1] };
    let res = erc20_balances(&vec![v(1), big1, big2], &vec![], &vec![]);
    assert_eq!(res, Err(BalanceOverflow { balance: big1 }));
}

#[test]
fn user_reserves_split_into_collateral_and_debt() {
    let reserves = vec![
        UserReserveData { underlying_asset: addr(1), scaled_a_token_balance: v(5), usage_as_collateral_enabled_on_user: true, scaled_variable_debt: v(0) },
        UserReserveData { underlying_asset: addr(2), scaled_a_token_balance: v(5), usage_as_collateral_enabled_on_user: false, scaled_variable_debt: v(7) },
        UserReserveData { underlying_asset: addr(3), scaled_a_token_balance: v(0), usage_as_collateral_enabled_on_user: true, scaled_variable_debt: v(0) },
        UserReserveData { underlying_asset: addr(4), scaled_a_token_balance: v(9), usage_as_collateral_enabled_on_user: true, scaled_variable_debt: v(1) },
    ];
    let tokens = user_aave_tokens(&reserves);
    assert_eq!(tokens.collateral, vec![addr(1), addr(4)]);
    assert_eq!(tokens.debt, vec![addr(2), addr(4)]);
}

#[test]
fn reserve_token_lists() {
    let reserves = vec![
        AaveReserveData { a_token: addr(1), variable_debt_token: addr(2) },
        AaveReserveData { a_token: addr(3), variable_debt_token: addr(4) },
    ];
    assert_eq!(a_tokens(&reserves), vec![addr(1), addr(3)]);
    assert_eq!(variable_debt_tokens(&reserves), vec![addr(2), addr(4)]);
}

fn user_data(collateral: U256Value, debt: U256Value, hf: U256Value) -> AaveUserData {
    AaveUserData {
        total_collateral_base: collateral,
        total_debt_base: debt,
        available_borrows_base: v(0),
        current_liquidation_threshold: v(0),
        ltv: v(0),
        health_factor: hf,
    }
}

#[test]
fn portfolio_from_parts_computes_net_value() {
    let supply = vec![("USDT".to_string(), ERC20Balance { decimals: 6, balance: 1 })];
    let p = portfolio_from_parts(supply.clone(), vec![], &user_data(v(500_000_000), v(120_000_000), v(1_500_000_000_000_000_000))).unwrap();
    assert_eq!(p.net, 380_000_000);
    assert_eq!(p.health_factor, 1_500_000_000_000_000_000);
    assert_eq!(p.supply, supply);
    assert!(p.debt.is_empty());
}

#[test]
fn portfolio_from_parts_rejects_oversized_values() {
    let huge = U256Value { limbs: [0, 0, 0, 1] };
    let e = portfolio_from_parts(vec![], vec![], &user_data(huge, v(0), v(1))).err().unwrap();
    assert_eq!(e, ConversionError { value: huge });
    let e = portfolio_from_parts(vec![], vec![], &user_data(v(5), v(5), huge)).err().unwrap();
    assert_eq!(e, ConversionError { value: huge });
}

#[test]
fn portfolio_balance_lines() {
    let p = Portfolio {
        collateral: vec![("Usdt".to_string(), v(1_000_000))],
        debt: vec![("WBTC".to_string(), U256Value { limbs: [0, 0, 1, 0] }), ("USDe".to_string(), v(0))],
    };
    assert_eq!(balance_lines(&p.collateral), vec!["Usdt: 1000000".to_string()]);
    assert_eq!(
        balance_lines(&p.debt),
        vec!["WBTC: 340282366920938463463374607431768211456".to_string(), "USDe: 0".to_string()]
    );
}

fn totals(collateral: u128, debt: u128, hf: u128) -> AaveUserData {
    AaveUserData {
        total_collateral_base: v(collateral),
        total_debt_base: v(debt),
        available_borrows_base: v(0),
        current_liquidation_threshold: v(0),
        ltv: v(0),
        health_factor: v(hf),
    }
}

fn next_request(step: FetchStep) -> FetchRequest {
    match step {
        FetchStep::Request(r) => r,
        _ => panic!("expected a request"),
    }
}

#[test]
fn portfolio_fetch_reads_in_order_and_keeps_the_balances() {
    let (stage, request) = start_fetch();
    assert!(matches!(request, FetchRequest::UserReserves));
    let tokens = UserAaveTokens { collateral: vec![addr(1), addr(2)], debt: vec![addr(3)] };
    let (stage, step) = advance(stage, FetchAnswer::UserReserves(tokens));
    match next_request(step) {
        FetchRequest::ReservesData(assets) => assert_eq!(assets, vec![addr(1), addr(2)]),
        _ => panic!("expected the collateral reserves"),
    }
    let collateral_reserves = vec![
        AaveReserveData { a_token: addr(11), variable_debt_token: addr(21) },
        AaveReserveData { a_token: addr(12), variable_debt_token: addr(22) },
    ];
    let (stage, step) = advance(stage, FetchAnswer::ReservesData(collateral_reserves));
    match next_request(step) {
        FetchRequest::TokensBalances(t) => assert_eq!(t, vec![addr(11), addr(12)]),
        _ => panic!("expected the aToken balances"),
    }
    let supply = vec![("aWETH".to_string(), ERC20Balance { decimals: 18, balance: 5 })];
    let (stage, step) = advance(stage, FetchAnswer::TokensBalances(supply.clone()));
    match next_request(step) {
        FetchRequest::ReservesData(assets) => assert_eq!(assets, vec![addr(3)]),
        _ => panic!("expected the debt reserves"),
    }
    let debt_reserves = vec![AaveReserveData { a_token: addr(13), variable_debt_token: addr(23) }];
    let (stage, step) = advance(stage, FetchAnswer::ReservesData(debt_reserves));
    match next_request(step) {
        FetchRequest::TokensBalances(t) => assert_eq!(t, vec![addr(23)]),
        _ => panic!("expected the variable debt token balances"),
    }
    let debt = vec![("variableDebtUSDC".to_string(), ERC20Balance { decimals: 6, balance: 7 })];
    let (stage, step) = advance(stage, FetchAnswer::TokensBalances(debt.clone()));
    assert!(matches!(next_request(step), FetchRequest::UserData));
    let (stage, step) = advance(stage, FetchAnswer::UserData(totals(500, 200, 1_500_000_000_000_000_000)));
    assert!(matches!(stage, FetchStage::Done));
    match step {
        FetchStep::Finished(Ok(p)) => {
            assert_eq!(p.supply, supply);
            assert_eq!(p.debt, debt);
            assert_eq!(p.net, 300);
            assert_eq!(p.health_factor, 1_500_000_000_000_000_000);
        }
        _ => panic!("expected a portfolio"),
    }
}

#[test]
fn portfolio_fetch_refuses_an_answer_out_of_order() {
    let (stage, _) = start_fetch();
    let (stage, step) = advance(stage, FetchAnswer::TokensBalances(vec![]));
    assert!(matches!(step, FetchStep::OutOfOrder));
    assert!(matches!(stage, FetchStage::Done));
    let (_, step) = advance(stage, FetchAnswer::UserData(totals(1, 0, 1)));
    assert!(matches!(step, FetchStep::OutOfOrder));
}

#[test]
fn portfolio_fetch_reports_an_oversized_health_factor() {
    let stage = FetchStage::AwaitUserData { supply: vec![], debt: vec![] };
    let big = U256Value { limbs: [0, 0, 1, 0] };
    let mut t = totals(1, 0, 0);
    t.health_factor = big;
    let (_, step) = advance(stage, FetchAnswer::UserData(t));
    match step {
        FetchStep::Finished(Err(e)) => assert_eq!(e, ConversionError { value: big }),
        _ => panic!("expected a conversion error"),
    }
}

#[test]
fn portfolio_pairs_token_symbols_with_read_balances() {
    let collateral = a_token_set();
    let debt = variable_debt_token_set();
    let p = Portfolio::from_balances(&collateral, &vec![v(7)], &debt, &vec![v(1), v(2)]);
    assert_eq!(p.collateral, vec![("Usdt".to_string(), v(7))]);
    assert_eq!(p.debt, vec![("WBTC".to_string(), v(1)), ("USDe".to_string(), v(2))]);
}
