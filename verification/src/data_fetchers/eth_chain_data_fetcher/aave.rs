use vstd::prelude::*;

use crate::address::EthAddress;
use crate::u256::U256Value;

verus! {

/// A user's account totals as Aave's pool reports them (`getUserAccountData`).
#[derive(Clone, Copy, Debug, PartialEq, Eq)]
pub struct AaveUserData {
    pub total_collateral_base: U256Value,
    pub total_debt_base: U256Value,
    pub available_borrows_base: U256Value,
    pub current_liquidation_threshold: U256Value,
    pub ltv: U256Value,
    pub health_factor: U256Value,
}

/// The assets a user supplies as collateral and the assets the user borrows.
pub struct UserAaveTokens {
    pub collateral: Vec<EthAddress>,
    pub debt: Vec<EthAddress>,
}

/// The tokens that Aave issues for one reserve.
#[derive(Clone, Copy, Debug, PartialEq, Eq)]
pub struct AaveReserveData {
    pub a_token: EthAddress,
    pub variable_debt_token: EthAddress,
}

/// One entry of `getUserReservesData` of Aave's UI pool data provider.
#[derive(Clone, Copy, Debug, PartialEq, Eq)]
pub struct UserReserveData {
    pub underlying_asset: EthAddress,
    pub scaled_a_token_balance: U256Value,
    pub usage_as_collateral_enabled_on_user: bool,
    pub scaled_variable_debt: U256Value,
}

/// A reserve counts as collateral when the user holds some of it and uses it as collateral.
pub open spec fn is_collateral(r: UserReserveData) -> bool {
    r.scaled_a_token_balance@ != 0 && r.usage_as_collateral_enabled_on_user
}

/// A reserve counts as debt when the user owes some of it.
pub open spec fn is_debt(r: UserReserveData) -> bool {
    r.scaled_variable_debt@ != 0
}

/// The underlying assets of the reserves that `is_collateral` picks, in order.
pub open spec fn collateral_assets(reserves: Seq<UserReserveData>) -> Seq<EthAddress>
    decreases reserves.len(),
{
    if reserves.len() == 0 {
        Seq::empty()
    } else {
        let rest = collateral_assets(reserves.drop_last());
        if is_collateral(reserves.last()) { rest.push(reserves.last().underlying_asset) } else { rest }
    }
}

/// The underlying assets of the reserves that `is_debt` picks, in order.
pub open spec fn debt_assets(reserves: Seq<UserReserveData>) -> Seq<EthAddress>
    decreases reserves.len(),
{
    if reserves.len() == 0 {
        Seq::empty()
    } else {
        let rest = debt_assets(reserves.drop_last());
        if is_debt(reserves.last()) { rest.push(reserves.last().underlying_asset) } else { rest }
    }
}

/// Splits the user's reserves into the assets supplied as collateral and the assets borrowed.
pub fn user_aave_tokens(reserves: &Vec<UserReserveData>) -> (res: UserAaveTokens)
    ensures
        res.collateral@ == collateral_assets(reserves@),
        res.debt@ == debt_assets(reserves@),
        res.collateral@ == reserves@.filter(
            |r: UserReserveData| r.scaled_a_token_balance@ != 0 && r.usage_as_collateral_enabled_on_user,
        ).map_values(|r: UserReserveData| r.underlying_asset),
        res.debt@ == reserves@.filter(|r: UserReserveData| r.scaled_variable_debt@ != 0).map_values(
            |r: UserReserveData| r.underlying_asset,
        ),
{
    let mut collateral: Vec<EthAddress> = Vec::new();
    let mut debt: Vec<EthAddress> = Vec::new();
    let mut i: usize = 0;
    while i < reserves.len()
        invariant
            i <= reserves.len(),
            collateral@ == collateral_assets(reserves@.take(i as int)),
            debt@ == debt_assets(reserves@.take(i as int)),
        decreases reserves.len() - i,
    {
        let r = &reserves[i];
        proof {
            assert(reserves@.take(i + 1).drop_last() =~= reserves@.take(i as int));
        }
        if !r.scaled_a_token_balance.is_zero() && r.usage_as_collateral_enabled_on_user {
            collateral.push(r.underlying_asset);
        }
        if !r.scaled_variable_debt.is_zero() {
            debt.push(r.underlying_asset);
        }
        i = i + 1;
    }
    proof {
        assert(reserves@.take(i as int) =~= reserves@);
        lemma_collateral_assets_filtered(reserves@);
        lemma_debt_assets_filtered(reserves@);
    }
    UserAaveTokens { collateral, debt }
}

/// The aTokens of the given reserves, in order.
pub open spec fn a_token_list(reserves: Seq<AaveReserveData>) -> Seq<EthAddress> {
    reserves.map_values(|r: AaveReserveData| r.a_token)
}

/// The variable debt tokens of the given reserves, in order.
pub open spec fn variable_debt_token_list(reserves: Seq<AaveReserveData>) -> Seq<EthAddress> {
    reserves.map_values(|r: AaveReserveData| r.variable_debt_token)
}

/// The aTokens of the given reserves, in order.
pub fn a_tokens(reserves: &Vec<AaveReserveData>) -> (res: Vec<EthAddress>)
    ensures
        res@ == a_token_list(reserves@),
        res.len() == reserves.len(),
        forall|i: int| 0 <= i < reserves.len() ==> #[trigger] res@[i] == reserves@[i].a_token,
{
    let mut res: Vec<EthAddress> = Vec::new();
    let mut i: usize = 0;
    while i < reserves.len()
        invariant
            i <= reserves.len(),
            res.len() == i,
            forall|j: int| 0 <= j < i ==> #[trigger] res@[j] == reserves@[j].a_token,
        decreases reserves.len() - i,
    {
        res.push(reserves[i].a_token);
        i = i + 1;
    }
    proof {
        assert(res@ =~= a_token_list(reserves@));
    }
    res
}

/// The variable debt tokens of the given reserves, in order.
pub fn variable_debt_tokens(reserves: &Vec<AaveReserveData>) -> (res: Vec<EthAddress>)
    ensures
        res@ == variable_debt_token_list(reserves@),
        res.len() == reserves.len(),
        forall|i: int| 0 <= i < reserves.len() ==> #[trigger] res@[i] == reserves@[i].variable_debt_token,
{
    let mut res: Vec<EthAddress> = Vec::new();
    let mut i: usize = 0;
    while i < reserves.len()
        invariant
            i <= reserves.len(),
            res.len() == i,
            forall|j: int| 0 <= j < i ==> #[trigger] res@[j] == reserves@[j].variable_debt_token,
        decreases reserves.len() - i,
    {
        res.push(reserves[i].variable_debt_token);
        i = i + 1;
    }
    proof {
        assert(res@ =~= variable_debt_token_list(reserves@));
    }
    res
}

/// Exactly the collateral reserves are listed as collateral: every listed asset
/// belongs to a reserve that counts as collateral, and every such reserve's
/// asset is listed.
pub proof fn lemma_collateral_assets_exact(reserves: Seq<UserReserveData>)
    ensures
        forall|k: int| #![trigger collateral_assets(reserves)[k]] 0 <= k < collateral_assets(reserves).len() ==> exists|i: int|
            0 <= i < reserves.len() && is_collateral(#[trigger] reserves[i])
                && reserves[i].underlying_asset == collateral_assets(reserves)[k],
        forall|i: int| 0 <= i < reserves.len() && is_collateral(#[trigger] reserves[i]) ==>
            collateral_assets(reserves).contains(reserves[i].underlying_asset),
    decreases reserves.len(),
{
    if reserves.len() > 0 {
        let init = reserves.drop_last();
        lemma_collateral_assets_exact(init);
        let rest = collateral_assets(init);
        assert forall|k: int| #![trigger collateral_assets(reserves)[k]] 0 <= k < collateral_assets(reserves).len() implies exists|i: int|
            0 <= i < reserves.len() && is_collateral(#[trigger] reserves[i])
                && reserves[i].underlying_asset == collateral_assets(reserves)[k] by {
            if k < rest.len() {
                let i = choose|i: int| 0 <= i < init.len() && is_collateral(#[trigger] init[i])
                    && init[i].underlying_asset == rest[k];
                assert(reserves[i] == init[i]);
            } else {
                assert(reserves[reserves.len() - 1] == reserves.last());
            }
        }
        assert forall|i: int| 0 <= i < reserves.len() && is_collateral(#[trigger] reserves[i]) implies
            collateral_assets(reserves).contains(reserves[i].underlying_asset) by {
            if i < reserves.len() - 1 {
                assert(init[i] == reserves[i]);
                let k = choose|k: int| 0 <= k < rest.len() && rest[k] == reserves[i].underlying_asset;
                if is_collateral(reserves.last()) {
                    assert(collateral_assets(reserves)[k] == rest[k]);
                }
            } else {
                assert(collateral_assets(reserves).last() == reserves[i].underlying_asset);
            }
        }
    }
}

/// Exactly the reserves with debt are listed as debt.
pub proof fn lemma_debt_assets_exact(reserves: Seq<UserReserveData>)
    ensures
        forall|k: int| #![trigger debt_assets(reserves)[k]] 0 <= k < debt_assets(reserves).len() ==> exists|i: int|
            0 <= i < reserves.len() && is_debt(#[trigger] reserves[i])
                && reserves[i].underlying_asset == debt_assets(reserves)[k],
        forall|i: int| 0 <= i < reserves.len() && is_debt(#[trigger] reserves[i]) ==>
            debt_assets(reserves).contains(reserves[i].underlying_asset),
    decreases reserves.len(),
{
    if reserves.len() > 0 {
        let init = reserves.drop_last();
        lemma_debt_assets_exact(init);
        let rest = debt_assets(init);
        assert forall|k: int| #![trigger debt_assets(reserves)[k]] 0 <= k < debt_assets(reserves).len() implies exists|i: int|
            0 <= i < reserves.len() && is_debt(#[trigger] reserves[i])
                && reserves[i].underlying_asset == debt_assets(reserves)[k] by {
            if k < rest.len() {
                let i = choose|i: int| 0 <= i < init.len() && is_debt(#[trigger] init[i])
                    && init[i].underlying_asset == rest[k];
                assert(reserves[i] == init[i]);
            } else {
                assert(reserves[reserves.len() - 1] == reserves.last());
            }
        }
        assert forall|i: int| 0 <= i < reserves.len() && is_debt(#[trigger] reserves[i]) implies
            debt_assets(reserves).contains(reserves[i].underlying_asset) by {
            if i < reserves.len() - 1 {
                assert(init[i] == reserves[i]);
                let k = choose|k: int| 0 <= k < rest.len() && rest[k] == reserves[i].underlying_asset;
                if is_debt(reserves.last()) {
                    assert(debt_assets(reserves)[k] == rest[k]);
                }
            } else {
                assert(debt_assets(reserves).last() == reserves[i].underlying_asset);
            }
        }
    }
}

/// The collateral assets are exactly, in order, the underlying assets of the
/// reserves of which the user holds aTokens and that the user uses as collateral.
pub proof fn lemma_collateral_assets_filtered(reserves: Seq<UserReserveData>)
    ensures
        collateral_assets(reserves) == reserves.filter(
            |r: UserReserveData| r.scaled_a_token_balance@ != 0 && r.usage_as_collateral_enabled_on_user,
        ).map_values(|r: UserReserveData| r.underlying_asset),
    decreases reserves.len(),
{
    reveal(Seq::filter);
    let pred = |r: UserReserveData| r.scaled_a_token_balance@ != 0 && r.usage_as_collateral_enabled_on_user;
    let f = |r: UserReserveData| r.underlying_asset;
    if reserves.len() == 0 {
        assert(reserves.filter(pred).map_values(f) =~= Seq::<EthAddress>::empty());
    } else {
        lemma_collateral_assets_filtered(reserves.drop_last());
        let sub = reserves.drop_last().filter(pred);
        if pred(reserves.last()) {
            assert(sub.push(reserves.last()).map_values(f) =~= sub.map_values(f).push(reserves.last().underlying_asset));
        }
    }
}

/// The debt assets are exactly, in order, the underlying assets of the reserves
/// whose scaled variable debt is not zero; a reserve without variable debt is
/// never listed as debt, whatever its collateral flag.
pub proof fn lemma_debt_assets_filtered(reserves: Seq<UserReserveData>)
    ensures
        debt_assets(reserves) == reserves.filter(|r: UserReserveData| r.scaled_variable_debt@ != 0).map_values(
            |r: UserReserveData| r.underlying_asset,
        ),
    decreases reserves.len(),
{
    reveal(Seq::filter);
    if reserves.len() == 0 {
        assert(reserves.filter(|r: UserReserveData| r.scaled_variable_debt@ != 0).map_values(
            |r: UserReserveData| r.underlying_asset,
        ) =~= Seq::<EthAddress>::empty());
    } else {
        let init = reserves.drop_last();
        lemma_debt_assets_filtered(init);
        let sub = init.filter(|r: UserReserveData| r.scaled_variable_debt@ != 0);
        let whole = reserves.filter(|r: UserReserveData| r.scaled_variable_debt@ != 0);
        assert(whole == if reserves.last().scaled_variable_debt@ != 0 { sub.push(reserves.last()) } else { sub });
        if reserves.last().scaled_variable_debt@ != 0 {
            assert(whole.map_values(|r: UserReserveData| r.underlying_asset) =~= sub.map_values(
                |r: UserReserveData| r.underlying_asset,
            ).push(reserves.last().underlying_asset));
        }
    }
}

} // verus!
