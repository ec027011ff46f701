//! Liquidation of under-margined accounts, with a penalty that is split
//! between the liquidator and the liquidity pool.

use crate::error::ErrorCode;
use crate::numeric::{checked_add, checked_div, checked_mul, checked_sub};
use crate::principal::Principal;
use crate::state::{is_listed, GlobalState, TraderState};
use vstd::prelude::*;

verus! {

/// What a liquidation works on: the trader's record, the global record and
/// the principal who asks for the liquidation.
#[derive(Clone, Debug)]
pub struct AuthorizedLiquidator {
    pub trader_state: TraderState,
    pub global_state: GlobalState,
    pub liquidator: Principal,
}

/// The collateral that an exposure demands: the exposure times the
/// maintenance margin, a percentage, rounded down.
pub open spec fn required_margin(open_position: u64, maintenance_margin: u64) -> int {
    open_position * maintenance_margin / 100
}

/// An account may be liquidated exactly when its collateral is below the
/// required margin.
pub open spec fn liquidation_permitted(trader: TraderState, global: GlobalState) -> bool {
    trader.staked_amount < required_margin(trader.open_position, global.maintenance_margin)
}

/// The penalty on a liquidated amount: a percentage of it, rounded down.
pub open spec fn penalty(liquidation_amount: u64, penalty_rate: u64) -> int {
    liquidation_amount * penalty_rate / 100
}

/// The liquidator's share of a penalty: half of it, rounded down.
pub open spec fn liquidator_reward(penalty: int) -> int {
    penalty / 2
}

/// The pool's share of a penalty: what the liquidator's share leaves.
pub open spec fn liquidity_pool_bonus(penalty: int) -> int {
    penalty - liquidator_reward(penalty)
}

/// The error that refuses a liquidation, if any, in the order in which the
/// conditions are tested.
pub open spec fn liquidation_error(
    ctx: AuthorizedLiquidator,
    liquidation_amount: u64,
    penalty_rate: u64,
) -> Option<ErrorCode> {
    let trader = ctx.trader_state;
    let global = ctx.global_state;
    if !global.authorized_liquidators@.contains(ctx.liquidator) {
        Some(ErrorCode::Unauthorized)
    } else if trader.open_position * global.maintenance_margin > u64::MAX {
        Some(ErrorCode::MathOverflow)
    } else if !liquidation_permitted(trader, global) {
        Some(ErrorCode::MarginSufficient)
    } else if trader.open_position < liquidation_amount {
        Some(ErrorCode::InvalidLiquidationAmount)
    } else if liquidation_amount * penalty_rate > u64::MAX {
        Some(ErrorCode::MathOverflow)
    } else if global.total_liquidity + liquidity_pool_bonus(
        penalty(liquidation_amount, penalty_rate),
    ) > u64::MAX {
        Some(ErrorCode::MathOverflow)
    } else {
        None
    }
}

/// Liquidates `liquidation_amount` of the trader's exposure and returns the
/// reward owed to the liquidator. The exposure shrinks by the amount and the
/// pool grows by its share of the penalty; paying the reward out is left to
/// the caller.
pub fn liquidate_with_penalty(
    ctx: &mut AuthorizedLiquidator,
    liquidation_amount: u64,
    penalty_rate: u64,
) -> (r: Result<u64, ErrorCode>)
    ensures
        match liquidation_error(*old(ctx), liquidation_amount, penalty_rate) {
            Some(e) => r == Err::<u64, ErrorCode>(e) && *final(ctx) == *old(ctx),
            None => {
                let p = penalty(liquidation_amount, penalty_rate);
                &&& r == Ok::<u64, ErrorCode>(liquidator_reward(p) as u64)
                &&& final(ctx).liquidator == old(ctx).liquidator
                &&& final(ctx).trader_state == old(ctx).trader_state.with_open_position(
                    (old(ctx).trader_state.open_position - liquidation_amount) as u64,
                )
                &&& final(ctx).global_state == old(ctx).global_state.with_total_liquidity(
                    (old(ctx).global_state.total_liquidity + liquidity_pool_bonus(p)) as u64,
                )
            },
        },
        final(ctx).global_state.total_liquidity >= old(ctx).global_state.total_liquidity,
        final(ctx).trader_state.open_position <= old(ctx).trader_state.open_position,
{
    if !is_listed(&ctx.global_state.authorized_liquidators, &ctx.liquidator) {
        return Err(ErrorCode::Unauthorized);
    }
    let scaled_margin = match checked_mul(
        ctx.trader_state.open_position,
        ctx.global_state.maintenance_margin,
    ) {
        Ok(v) => v,
        Err(e) => { return Err(e); },
    };
    let required = match checked_div(scaled_margin, 100) {
        Ok(v) => v,
        Err(e) => { return Err(e); },
    };
    if ctx.trader_state.staked_amount >= required {
        return Err(ErrorCode::MarginSufficient);
    }
    if ctx.trader_state.open_position < liquidation_amount {
        return Err(ErrorCode::InvalidLiquidationAmount);
    }
    let scaled_penalty = match checked_mul(liquidation_amount, penalty_rate) {
        Ok(v) => v,
        Err(e) => { return Err(e); },
    };
    let penalty_due = match checked_div(scaled_penalty, 100) {
        Ok(v) => v,
        Err(e) => { return Err(e); },
    };
    let reward = match checked_div(penalty_due, 2) {
        Ok(v) => v,
        Err(e) => { return Err(e); },
    };
    let bonus = match checked_sub(penalty_due, reward) {
        Ok(v) => v,
        Err(e) => { return Err(e); },
    };
    let remaining = match checked_sub(ctx.trader_state.open_position, liquidation_amount) {
        Ok(v) => v,
        Err(e) => { return Err(e); },
    };
    let liquidity = match checked_add(ctx.global_state.total_liquidity, bonus) {
        Ok(v) => v,
        Err(e) => { return Err(e); },
    };
    ctx.trader_state.open_position = remaining;
    ctx.global_state.total_liquidity = liquidity;
    Ok(reward)
}

/// For an authorized liquidator and an exposure whose required margin can be
/// computed, a liquidation is refused as sufficiently margined exactly when
/// the collateral is not below the required margin.
pub proof fn lemma_liquidation_permitted_iff_below_margin(
    ctx: AuthorizedLiquidator,
    liquidation_amount: u64,
    penalty_rate: u64,
)
    requires
        ctx.global_state.authorized_liquidators@.contains(ctx.liquidator),
        ctx.trader_state.open_position * ctx.global_state.maintenance_margin <= u64::MAX,
    ensures
        liquidation_error(ctx, liquidation_amount, penalty_rate) == Some(
            ErrorCode::MarginSufficient,
        ) <==> ctx.trader_state.staked_amount >= ctx.trader_state.open_position
            * ctx.global_state.maintenance_margin / 100,
{
}

/// The two shares of a penalty add up to the penalty, the liquidator's share
/// is half of it rounded down, and the pool's share is never the smaller.
pub proof fn lemma_penalty_split(liquidation_amount: u64, penalty_rate: u64)
    ensures
        ({
            let p = penalty(liquidation_amount, penalty_rate);
            &&& p >= 0
            &&& liquidator_reward(p) + liquidity_pool_bonus(p) == p
            &&& liquidator_reward(p) == p / 2
            &&& 0 <= liquidator_reward(p) <= liquidity_pool_bonus(p) <= p
        }),
{
    assert(liquidation_amount * penalty_rate >= 0) by (nonlinear_arith);
}

} // verus!
