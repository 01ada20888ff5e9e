use aave_portfolio_manager::common_data::{AAVE_ORACLE_BASE_UNIT, AAVE_WAD};
use aave_portfolio_manager::portfolio::{AavePortfolio, AmountTexts, ERC20Balance};
use aave_portfolio_manager::portfolio_data;

fn balance_text(b: &ERC20Balance) -> String {
    format!("{:.2}", b.balance as f64 / (10u128.pow(b.decimals as u32) as f64))
}

/// The amount texts as the summary writes them, from floating-point values.
fn texts(p: &AavePortfolio) -> AmountTexts {
    AmountTexts {
        supply: p.supply.iter().map(|(_, b)| balance_text(b)).collect(),
        debt: p.debt.iter().map(|(_, b)| balance_text(b)).collect(),
        net: format!("{:.2}", p.net as f64 / AAVE_ORACLE_BASE_UNIT as f64),
        health_factor: format!("{:.2}", p.health_factor as f64 / AAVE_WAD as f64),
    }
}

fn sample() -> AavePortfolio {
    AavePortfolio {
        supply: vec![("USDT".to_string(), ERC20Balance { decimals: 6, balance: 1_234_560_000 })],
        debt: vec![
            ("WBTC".to_string(), ERC20Balance { decimals: 8, balance: 5_000_000 }),
            ("USDe".to_string(), ERC20Balance { decimals: 18, balance: 2_500_000_000_000_000_000 }),
        ],
        net: 98_765_432_100,
        health_factor: 1_450_000_000_000_000_000,
    }
}

#[test]
fn full_portfolio_message() {
    let p = sample();
    assert_eq!(
        p.to_telegram_message(&texts(&p)),
        "📊 *AAVE Portfolio Summary*\n\n💰 *Supplied*\n  • USDT: 1234.56\n\n💸 *Borrowed*\n  • WBTC: 0.05  • USDe: 2.50\n\n📈 *Net Value*: $987.65\n🛡️ *Health Factor*: 1.45"
    );
}

#[test]
fn empty_sections_are_left_out() {
    let p = AavePortfolio { supply: vec![], debt: vec![], net: 0, health_factor: 2_000_000_000_000_000_000 };
    assert_eq!(
        p.to_telegram_message(&texts(&p)),
        "📊 *AAVE Portfolio Summary*\n\n\n\n📈 *Net Value*: $0.00\n🛡️ *Health Factor*: 2.00"
    );
}

#[test]
fn amounts_are_written_as_given() {
    let p = AavePortfolio {
        supply: vec![("A".to_string(), ERC20Balance { decimals: 0, balance: 1 })],
        debt: vec![("B".to_string(), ERC20Balance { decimals: 0, balance: 2 })],
        net: 3,
        health_factor: 4,
    };
    let t = AmountTexts {
        supply: vec!["x".to_string()],
        debt: vec!["y".to_string()],
        net: "n".to_string(),
        health_factor: "h".to_string(),
    };
    assert_eq!(
        p.to_telegram_message(&t),
        "📊 *AAVE Portfolio Summary*\n\n💰 *Supplied*\n  • A: x\n\n💸 *Borrowed*\n  • B: y\n\n📈 *Net Value*: $n\n🛡️ *Health Factor*: h"
    );
}

#[test]
fn float_texts_round_the_binary_value() {
    let p = AavePortfolio {
        supply: vec![("T".to_string(), ERC20Balance { decimals: 3, balance: 5 })],
        debt: vec![],
        net: 500_000,
        health_factor: 1_015_000_000_000_000_000,
    };
    assert_eq!(
        p.to_telegram_message(&texts(&p)),
        "📊 *AAVE Portfolio Summary*\n\n💰 *Supplied*\n  • T: 0.01\n\n\n📈 *Net Value*: $0.01\n🛡️ *Health Factor*: 1.01"
    );
}

#[test]
fn raw_amount_portfolio_message() {
    let p = portfolio_data::portfolio::AavePortfolio {
        supply: vec![("USDT".to_string(), 1_234_560_000)],
        debt: vec![],
        net: 150_000_000,
        health_factor: 2_000_000_000_000_000_000,
    };
    let net = format!("{:.2}", p.net as f64 / AAVE_ORACLE_BASE_UNIT as f64);
    let hf = format!("{:.2}", p.health_factor as f64 / AAVE_WAD as f64);
    assert_eq!(
        p.to_telegram_message(&net, &hf),
        "📊 *AAVE Portfolio Summary*\n\n💰 *Supplied*\n  • USDT: 1234560000\n\n\n📈 *Net Value*: $1.50\n🛡️ *Health Factor*: 2.00"
    );
}
