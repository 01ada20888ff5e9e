//! The order of the chain reads that put a portfolio together, as a state
//! machine: each answer of the chain moves it on and names the next read, until
//! the last answer gives the portfolio.

use vstd::prelude::*;

use crate::address::EthAddress;
use crate::data_fetchers::eth_chain_data_fetcher::aave::{
    a_token_list, a_tokens, variable_debt_token_list, variable_debt_tokens, AaveReserveData, AaveUserData,
    UserAaveTokens,
};
use crate::data_fetchers::{portfolio_from_parts, portfolio_result, ConversionError};
use crate::portfolio::{AavePortfolio, ERC20Balance};

verus! {

/// A read from the chain.
pub enum FetchRequest {
    /// The assets the wallet supplies as collateral and borrows.
    UserReserves,
    /// Aave's reserve data of each of these assets, in order.
    ReservesData(Vec<EthAddress>),
    /// The wallet's balances of these tokens, by symbol.
    TokensBalances(Vec<EthAddress>),
    /// The wallet's account totals at Aave's pool.
    UserData,
}

/// What the chain answered to a read.
pub enum FetchAnswer {
    UserReserves(UserAaveTokens),
    ReservesData(Vec<AaveReserveData>),
    TokensBalances(Vec<(String, ERC20Balance)>),
    UserData(AaveUserData),
}

/// How far putting a portfolio together has got, with what is kept for later.
pub enum FetchStage {
    AwaitUserReserves,
    AwaitCollateralReserves { debt_assets: Vec<EthAddress> },
    AwaitSupply { debt_assets: Vec<EthAddress> },
    AwaitDebtReserves { supply: Vec<(String, ERC20Balance)> },
    AwaitDebt { supply: Vec<(String, ERC20Balance)> },
    AwaitUserData { supply: Vec<(String, ERC20Balance)>, debt: Vec<(String, ERC20Balance)> },
    Done,
}

/// What comes after an answer: the next read, the finished portfolio, or the
/// note that the answer was not the one the stage waits for.
pub enum FetchStep {
    Request(FetchRequest),
    Finished(Result<AavePortfolio, ConversionError>),
    OutOfOrder,
}

/// `next` and `step` are what follows `answer` at `stage`.
pub open spec fn advances(stage: FetchStage, answer: FetchAnswer, next: FetchStage, step: FetchStep) -> bool {
    match (stage, answer) {
        (FetchStage::AwaitUserReserves, FetchAnswer::UserReserves(tokens)) => {
            &&& next == (FetchStage::AwaitCollateralReserves { debt_assets: tokens.debt })
            &&& step == FetchStep::Request(FetchRequest::ReservesData(tokens.collateral))
        },
        (FetchStage::AwaitCollateralReserves { debt_assets }, FetchAnswer::ReservesData(reserves)) => {
            &&& next == (FetchStage::AwaitSupply { debt_assets })
            &&& step matches FetchStep::Request(FetchRequest::TokensBalances(tokens))
            &&& tokens@ == a_token_list(reserves@)
        },
        (FetchStage::AwaitSupply { debt_assets }, FetchAnswer::TokensBalances(supply)) => {
            &&& next == (FetchStage::AwaitDebtReserves { supply })
            &&& step == FetchStep::Request(FetchRequest::ReservesData(debt_assets))
        },
        (FetchStage::AwaitDebtReserves { supply }, FetchAnswer::ReservesData(reserves)) => {
            &&& next == (FetchStage::AwaitDebt { supply })
            &&& step matches FetchStep::Request(FetchRequest::TokensBalances(tokens))
            &&& tokens@ == variable_debt_token_list(reserves@)
        },
        (FetchStage::AwaitDebt { supply }, FetchAnswer::TokensBalances(debt)) => {
            &&& next == (FetchStage::AwaitUserData { supply, debt })
            &&& step == FetchStep::Request(FetchRequest::UserData)
        },
        (FetchStage::AwaitUserData { supply, debt }, FetchAnswer::UserData(user_data)) => {
            &&& next is Done
            &&& step matches FetchStep::Finished(res)
            &&& portfolio_result(supply, debt, user_data, res)
        },
        _ => next is Done && step is OutOfOrder,
    }
}

/// An answer can be taken at a stage unless it is account totals whose debt is
/// above the collateral, where the net value cannot be computed.
pub open spec fn answer_acceptable(stage: FetchStage, answer: FetchAnswer) -> bool {
    stage is AwaitUserData ==> (answer matches FetchAnswer::UserData(u)
        ==> u.total_collateral_base@ >= u.total_debt_base@)
}

/// The first stage and read: the wallet's reserves.
pub fn start_fetch() -> (res: (FetchStage, FetchRequest))
    ensures
        res.0 is AwaitUserReserves,
        res.1 is UserReserves,
{
    (FetchStage::AwaitUserReserves, FetchRequest::UserReserves)
}

/// Takes the chain's answer at `stage`: the collateral reserves are read, then
/// the wallet's balances of their aTokens (the supply), then the debt reserves,
/// then the balances of their variable debt tokens (the debt), then the account
/// totals, which finish the portfolio.
pub fn advance(stage: FetchStage, answer: FetchAnswer) -> (res: (FetchStage, FetchStep))
    requires
        answer_acceptable(stage, answer),
    ensures
        advances(stage, answer, res.0, res.1),
{
    match (stage, answer) {
        (FetchStage::AwaitUserReserves, FetchAnswer::UserReserves(tokens)) => (
            FetchStage::AwaitCollateralReserves { debt_assets: tokens.debt },
            FetchStep::Request(FetchRequest::ReservesData(tokens.collateral)),
        ),
        (FetchStage::AwaitCollateralReserves { debt_assets }, FetchAnswer::ReservesData(reserves)) => (
            FetchStage::AwaitSupply { debt_assets },
            FetchStep::Request(FetchRequest::TokensBalances(a_tokens(&reserves))),
        ),
        (FetchStage::AwaitSupply { debt_assets }, FetchAnswer::TokensBalances(supply)) => (
            FetchStage::AwaitDebtReserves { supply },
            FetchStep::Request(FetchRequest::ReservesData(debt_assets)),
        ),
        (FetchStage::AwaitDebtReserves { supply }, FetchAnswer::ReservesData(reserves)) => (
            FetchStage::AwaitDebt { supply },
            FetchStep::Request(FetchRequest::TokensBalances(variable_debt_tokens(&reserves))),
        ),
        (FetchStage::AwaitDebt { supply }, FetchAnswer::TokensBalances(debt)) => (
            FetchStage::AwaitUserData { supply, debt },
            FetchStep::Request(FetchRequest::UserData),
        ),
        (FetchStage::AwaitUserData { supply, debt }, FetchAnswer::UserData(user_data)) => (
            FetchStage::Done,
            FetchStep::Finished(portfolio_from_parts(supply, debt, &user_data)),
        ),
        _ => (FetchStage::Done, FetchStep::OutOfOrder),
    }
}

/// Fetching a portfolio reads, in this order, the wallet's reserves, the reserve
/// data of its collateral assets, its balances of their aTokens, the reserve
/// data of its debt assets, its balances of their variable debt tokens and its
/// account totals; the portfolio it gives holds as supply exactly the balances
/// read for the aTokens and as debt exactly those read for the variable debt
/// tokens, with the net value and health factor of the account totals.
pub proof fn lemma_fetch_portfolio_chain(
    tokens: UserAaveTokens,
    collateral_reserves: Vec<AaveReserveData>,
    supply: Vec<(String, ERC20Balance)>,
    debt_reserves: Vec<AaveReserveData>,
    debt: Vec<(String, ERC20Balance)>,
    user_data: AaveUserData,
    stages: Seq<FetchStage>,
    steps: Seq<FetchStep>,
)
    requires
        stages.len() == 6,
        steps.len() == 6,
        advances(FetchStage::AwaitUserReserves, FetchAnswer::UserReserves(tokens), stages[0], steps[0]),
        advances(stages[0], FetchAnswer::ReservesData(collateral_reserves), stages[1], steps[1]),
        advances(stages[1], FetchAnswer::TokensBalances(supply), stages[2], steps[2]),
        advances(stages[2], FetchAnswer::ReservesData(debt_reserves), stages[3], steps[3]),
        advances(stages[3], FetchAnswer::TokensBalances(debt), stages[4], steps[4]),
        advances(stages[4], FetchAnswer::UserData(user_data), stages[5], steps[5]),
    ensures
        steps[0] == FetchStep::Request(FetchRequest::ReservesData(tokens.collateral)),
        steps[1] matches FetchStep::Request(FetchRequest::TokensBalances(a))
            && a@ == a_token_list(collateral_reserves@),
        steps[2] == FetchStep::Request(FetchRequest::ReservesData(tokens.debt)),
        steps[3] matches FetchStep::Request(FetchRequest::TokensBalances(v))
            && v@ == variable_debt_token_list(debt_reserves@),
        steps[4] == FetchStep::Request(FetchRequest::UserData),
        steps[5] matches FetchStep::Finished(res) && portfolio_result(supply, debt, user_data, res),
        steps[5] matches FetchStep::Finished(res) && (res matches Ok(p) ==> p.supply == supply && p.debt == debt),
        stages[5] is Done,
{
}

/// The answer is of the kind that the stage waits for.
pub open spec fn expected_answer(stage: FetchStage, answer: FetchAnswer) -> bool {
    ||| stage is AwaitUserReserves && answer is UserReserves
    ||| stage is AwaitCollateralReserves && answer is ReservesData
    ||| stage is AwaitSupply && answer is TokensBalances
    ||| stage is AwaitDebtReserves && answer is ReservesData
    ||| stage is AwaitDebt && answer is TokensBalances
    ||| stage is AwaitUserData && answer is UserData
}

/// An answer of the kind the stage waits for moves the fetch on; any other
/// answer, and any answer once the fetch is done, ends it without a portfolio.
pub proof fn lemma_out_of_order_answer_stops(stage: FetchStage, answer: FetchAnswer, next: FetchStage, step: FetchStep)
    requires
        advances(stage, answer, next, step),
    ensures
        expected_answer(stage, answer) <==> !(step is OutOfOrder),
        !expected_answer(stage, answer) ==> next is Done,
{
}

} // verus!
