use vstd::prelude::*;
use vstd::string::*;

use crate::address::EthAddress;
use crate::text::decimal_text;
use crate::u256::{u256_decimal, U256Value};

verus! {

/// Raw token balances of a wallet: collateral aTokens and variable debt tokens, by symbol.
pub struct Portfolio {
    pub collateral: Vec<(String, U256Value)>,
    pub debt: Vec<(String, U256Value)>,
}

/// How one balance is written when a portfolio is serialized: `SYMBOL: AMOUNT`.
pub open spec fn balance_line_text(e: (String, U256Value)) -> Seq<char> {
    e.0@ + ": "@ + decimal_text(e.1@)
}

/// The serialized form of a list of balances: one `SYMBOL: AMOUNT` line each, in order.
pub fn balance_lines(balances: &Vec<(String, U256Value)>) -> (lines: Vec<String>)
    ensures
        lines.len() == balances.len(),
        forall|i: int| 0 <= i < balances.len() ==> #[trigger] lines@[i]@ == balance_line_text(balances@[i]),
{
    let mut lines: Vec<String> = Vec::new();
    let mut i: usize = 0;
    while i < balances.len()
        invariant
            i <= balances.len(),
            lines.len() == i,
            forall|j: int| 0 <= j < i ==> #[trigger] lines@[j]@ == balance_line_text(balances@[j]),
        decreases balances.len() - i,
    {
        let mut line = balances[i].0.clone();
        line.append(": ");
        let amount = u256_decimal(&balances[i].1);
        line.append(amount.as_str());
        lines.push(line);
        i = i + 1;
    }
    lines
}

/// Each token's symbol with the balance read for it, in the order of the tokens.
pub fn pair_balances(tokens: &Vec<(String, EthAddress)>, balances: &Vec<U256Value>) -> (pairs: Vec<(String, U256Value)>)
    requires
        balances.len() == tokens.len(),
    ensures
        pairs.len() == tokens.len(),
        forall|i: int| 0 <= i < tokens.len() ==> #[trigger] pairs@[i].0@ == tokens@[i].0@ && pairs@[i].1 == balances@[i],
{
    let mut pairs: Vec<(String, U256Value)> = Vec::new();
    let mut i: usize = 0;
    while i < tokens.len()
        invariant
            i <= tokens.len(),
            balances.len() == tokens.len(),
            pairs.len() == i,
            forall|j: int| 0 <= j < i ==> #[trigger] pairs@[j].0@ == tokens@[j].0@ && pairs@[j].1 == balances@[j],
        decreases tokens.len() - i,
    {
        pairs.push((tokens[i].0.clone(), balances[i]));
        i = i + 1;
    }
    pairs
}

impl Portfolio {
    /// The portfolio that the balances read for the followed aTokens and
    /// variable debt tokens make: each token's symbol with its balance, in the
    /// order of the token sets.
    pub fn from_balances(
        collateral_tokens: &Vec<(String, EthAddress)>,
        collateral_balances: &Vec<U256Value>,
        debt_tokens: &Vec<(String, EthAddress)>,
        debt_balances: &Vec<U256Value>,
    ) -> (p: Portfolio)
        requires
            collateral_balances.len() == collateral_tokens.len(),
            debt_balances.len() == debt_tokens.len(),
        ensures
            p.collateral.len() == collateral_tokens.len(),
            forall|i: int| 0 <= i < collateral_tokens.len() ==> #[trigger] p.collateral@[i].0@ == collateral_tokens@[i].0@
                && p.collateral@[i].1 == collateral_balances@[i],
            p.debt.len() == debt_tokens.len(),
            forall|i: int| 0 <= i < debt_tokens.len() ==> #[trigger] p.debt@[i].0@ == debt_tokens@[i].0@
                && p.debt@[i].1 == debt_balances@[i],
    {
        Portfolio {
            collateral: pair_balances(collateral_tokens, collateral_balances),
            debt: pair_balances(debt_tokens, debt_balances),
        }
    }
}

} // verus!
