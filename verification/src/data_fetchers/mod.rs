pub mod defi_llama_data_fetcher;
pub mod eth_chain_data_fetcher;
pub mod portfolio_fetch;

use vstd::prelude::*;

use crate::data_fetchers::eth_chain_data_fetcher::aave::AaveUserData;
use crate::portfolio::{symbols_distinct, AavePortfolio, ERC20Balance};
use crate::u256::{u128_max, U256Value};

verus! {

/// A 256-bit amount that does not fit in a `u128`.
#[derive(Clone, Copy, Debug, PartialEq, Eq)]
pub struct ConversionError {
    pub value: U256Value,
}

/// Narrows a 256-bit amount to a `u128`, failing when it does not fit.
pub fn u256_cast(input: &U256Value) -> (res: Result<u128, ConversionError>)
    ensures
        input@ <= u128_max() ==> res == Ok::<u128, ConversionError>(input@ as u128),
        input@ > u128_max() ==> res == Err::<u128, ConversionError>(ConversionError { value: *input }),
{
    match input.to_u128() {
        Some(v) => Ok(v),
        None => Err(ConversionError { value: *input }),
    }
}

/// `res` is the portfolio that the supplied and borrowed balances and the
/// account totals make: the net value is collateral minus debt in the oracle's
/// base unit, the health factor is Aave's wad; or the error for the first of
/// the two, net value first, that does not fit in a `u128`.
pub open spec fn portfolio_result(
    supply: Vec<(String, ERC20Balance)>,
    debt: Vec<(String, ERC20Balance)>,
    user_data: AaveUserData,
    res: Result<AavePortfolio, ConversionError>,
) -> bool {
    let net = user_data.total_collateral_base@ - user_data.total_debt_base@;
    let hf = user_data.health_factor@;
    if net > u128_max() {
        res matches Err(e) && e.value@ == net
    } else if hf > u128_max() {
        res == Err::<AavePortfolio, ConversionError>(ConversionError { value: user_data.health_factor })
    } else {
        res matches Ok(p) && p.supply == supply && p.debt == debt && p.net == net && p.health_factor == hf
    }
}

/// The portfolio that the supplied and borrowed balances and the account totals
/// make: the net value is collateral minus debt in the oracle's base unit, the
/// health factor is Aave's wad. Fails when either does not fit in a `u128`,
/// the net value being checked first.
pub fn portfolio_from_parts(
    supply: Vec<(String, ERC20Balance)>,
    debt: Vec<(String, ERC20Balance)>,
    user_data: &AaveUserData,
) -> (res: Result<AavePortfolio, ConversionError>)
    requires
        user_data.total_collateral_base@ >= user_data.total_debt_base@,
    ensures
        portfolio_result(supply, debt, *user_data, res),
        res is Ok <==> user_data.total_collateral_base@ - user_data.total_debt_base@ <= u128_max()
            && user_data.health_factor@ <= u128_max(),
        res matches Ok(p) ==> p.supply == supply && p.debt == debt
            && p.net == user_data.total_collateral_base@ - user_data.total_debt_base@
            && p.health_factor == user_data.health_factor@,
        res matches Err(e) ==> e.value@ == if user_data.total_collateral_base@ - user_data.total_debt_base@ > u128_max() {
            user_data.total_collateral_base@ - user_data.total_debt_base@
        } else {
            user_data.health_factor@ as int
        },
        res matches Ok(p) ==> (p.well_formed() <==> symbols_distinct(supply@) && symbols_distinct(debt@)),
{
    let net_value = user_data.total_collateral_base.sub(&user_data.total_debt_base);
    let net = match u256_cast(&net_value) {
        Ok(v) => v,
        Err(e) => return Err(e),
    };
    let health_factor = match u256_cast(&user_data.health_factor) {
        Ok(v) => v,
        Err(e) => return Err(e),
    };
    Ok(AavePortfolio { supply, debt, net, health_factor })
}

/// A portfolio result is a portfolio exactly when the net value (collateral
/// minus debt) and the health factor both fit in a `u128`; the portfolio then
/// holds the given balances, that net value and the whole health factor of the
/// account totals; an error carries the first of the two that does not fit.
pub proof fn lemma_portfolio_result_values(
    supply: Vec<(String, ERC20Balance)>,
    debt: Vec<(String, ERC20Balance)>,
    user_data: AaveUserData,
    res: Result<AavePortfolio, ConversionError>,
)
    requires
        portfolio_result(supply, debt, user_data, res),
    ensures
        res is Ok <==> user_data.total_collateral_base@ - user_data.total_debt_base@ <= u128_max()
            && user_data.health_factor@ <= u128_max(),
        res matches Ok(p) ==> p.supply == supply && p.debt == debt
            && p.net == user_data.total_collateral_base@ - user_data.total_debt_base@
            && p.health_factor == user_data.health_factor@,
        res matches Err(e) ==> e.value@ == if user_data.total_collateral_base@ - user_data.total_debt_base@ > u128_max() {
            user_data.total_collateral_base@ - user_data.total_debt_base@
        } else {
            user_data.health_factor@ as int
        },
{
}

} // verus!
