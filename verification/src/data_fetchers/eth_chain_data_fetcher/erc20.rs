use vstd::prelude::*;

use crate::portfolio::{
    entries_map, find_symbol, lemma_entries_map_update, symbols_distinct, ERC20Balance,
};
use crate::u256::{u128_max, U256Value};

verus! {

/// A token balance read from the chain does not fit in a `u128`.
#[derive(Clone, Copy, Debug, PartialEq, Eq)]
pub struct BalanceOverflow {
    pub balance: U256Value,
}

/// The index of the first balance above `u128::MAX`, if any.
pub open spec fn first_overflow(balances: Seq<U256Value>) -> Option<int>
    decreases balances.len(),
{
    if balances.len() == 0 {
        None
    } else {
        match first_overflow(balances.drop_last()) {
            Some(i) => Some(i),
            None => if balances.last()@ > u128_max() { Some(balances.len() - 1) } else { None },
        }
    }
}

pub open spec fn min3(a: nat, b: nat, c: nat) -> nat {
    if a <= b && a <= c { a } else if b <= c { b } else { c }
}

/// The balances of the first `n` tokens by symbol, a later token of the same
/// symbol replacing an earlier one.
pub open spec fn zipped_balances(
    balances: Seq<U256Value>,
    decimals: Seq<u8>,
    symbols: Seq<String>,
    n: nat,
) -> Map<Seq<char>, ERC20Balance>
    decreases n,
{
    if n == 0 {
        Map::empty()
    } else {
        let i = (n - 1) as int;
        zipped_balances(balances, decimals, symbols, (n - 1) as nat).insert(
            symbols[i]@,
            ERC20Balance { decimals: decimals[i], balance: balances[i]@ as u128 },
        )
    }
}

/// Combines the balances, decimals and symbols that the chain returned for a
/// list of tokens (position by position, as far as the shortest list goes)
/// into balances by symbol. Fails on the first balance above `u128::MAX`.
pub fn erc20_balances(
    balances: &Vec<U256Value>,
    decimals: &Vec<u8>,
    symbols: &Vec<String>,
) -> (res: Result<Vec<(String, ERC20Balance)>, BalanceOverflow>)
    ensures
        match first_overflow(balances@) {
            Some(i) => res == Err::<Vec<(String, ERC20Balance)>, BalanceOverflow>(BalanceOverflow { balance: balances@[i] }),
            None => res matches Ok(v) && symbols_distinct(v@) && entries_map(v@) == zipped_balances(
                balances@,
                decimals@,
                symbols@,
                min3(balances.len() as nat, decimals.len() as nat, symbols.len() as nat),
            ),
        },
{
    let mut amounts: Vec<u128> = Vec::new();
    let mut i: usize = 0;
    while i < balances.len()
        invariant
            i <= balances.len(),
            amounts.len() == i,
            first_overflow(balances@.take(i as int)) is None,
            forall|j: int| 0 <= j < i ==> amounts@[j] == #[trigger] balances@[j]@,
        decreases balances.len() - i,
    {
        proof {
            assert(balances@.take(i + 1).drop_last() =~= balances@.take(i as int));
        }
        match balances[i].to_u128() {
            Some(v) => amounts.push(v),
            None => {
                proof {
                    lemma_first_overflow_prefix(balances@, (i + 1) as int);
                }
                return Err(BalanceOverflow { balance: balances[i] });
            },
        }
        i = i + 1;
    }
    proof {
        assert(balances@.take(i as int) =~= balances@);
    }
    let mut n = balances.len();
    if decimals.len() < n {
        n = decimals.len();
    }
    if symbols.len() < n {
        n = symbols.len();
    }
    let mut out: Vec<(String, ERC20Balance)> = Vec::new();
    let mut k: usize = 0;
    while k < n
        invariant
            k <= n,
            n == min3(balances.len() as nat, decimals.len() as nat, symbols.len() as nat),
            amounts.len() == balances.len(),
            forall|j: int| 0 <= j < amounts.len() ==> amounts@[j] == #[trigger] balances@[j]@,
            symbols_distinct(out@),
            entries_map(out@) == zipped_balances(balances@, decimals@, symbols@, k as nat),
        decreases n - k,
    {
        let entry = (symbols[k].clone(), ERC20Balance { decimals: decimals[k], balance: amounts[k] });
        match find_symbol(&out, &symbols[k]) {
            Some(j) => {
                proof {
                    lemma_entries_map_update(out@, j as int, entry);
                }
                out.set(j, entry);
            },
            None => {
                proof {
                    assert(out@.push(entry).drop_last() =~= out@);
                }
                out.push(entry);
            },
        }
        k = k + 1;
    }
    Ok(out)
}

/// When the first `i` balances hold no overflow and the `i-1`th is too large,
/// the first overflow of the whole list is at `i-1`.
proof fn lemma_first_overflow_prefix(balances: Seq<U256Value>, i: int)
    requires
        0 < i <= balances.len(),
        first_overflow(balances.take(i - 1)) is None,
        balances[i - 1]@ > u128_max(),
    ensures
        first_overflow(balances) == Some(i - 1),
    decreases balances.len(),
{
    if balances.len() == i {
        assert(balances.drop_last() =~= balances.take(i - 1));
    } else {
        let init = balances.drop_last();
        assert(init.take(i - 1) =~= balances.take(i - 1));
        lemma_first_overflow_prefix(init, i);
    }
}

/// Among the first `n` tokens, each symbol has a balance, and it is the balance
/// of the last token with that symbol.
pub proof fn lemma_zipped_balances_last_wins(
    balances: Seq<U256Value>,
    decimals: Seq<u8>,
    symbols: Seq<String>,
    n: nat,
    i: int,
)
    requires
        0 <= i < n,
        n <= balances.len(),
        n <= decimals.len(),
        n <= symbols.len(),
        forall|j: int| i < j < n ==> #[trigger] symbols[j]@ != symbols[i]@,
    ensures
        zipped_balances(balances, decimals, symbols, n).contains_key(symbols[i]@),
        zipped_balances(balances, decimals, symbols, n)[symbols[i]@]
            == (ERC20Balance { decimals: decimals[i], balance: balances[i]@ as u128 }),
    decreases n,
{
    if i < n - 1 {
        lemma_zipped_balances_last_wins(balances, decimals, symbols, (n - 1) as nat, i);
        assert(symbols[n - 1]@ != symbols[i]@);
    }
}

/// A symbol has a balance only when one of the first `n` tokens has that symbol.
pub proof fn lemma_zipped_balances_domain(
    balances: Seq<U256Value>,
    decimals: Seq<u8>,
    symbols: Seq<String>,
    n: nat,
    k: Seq<char>,
)
    requires
        zipped_balances(balances, decimals, symbols, n).contains_key(k),
    ensures
        exists|i: int| 0 <= i < n && #[trigger] symbols[i]@ == k,
    decreases n,
{
    if n > 0 && symbols[n - 1]@ != k {
        lemma_zipped_balances_domain(balances, decimals, symbols, (n - 1) as nat, k);
        let i = choose|i: int| 0 <= i < n - 1 && #[trigger] symbols[i]@ == k;
        assert(symbols[i]@ == k);
    }
}

} // verus!
