//! Funding-rate settlement: a fee proportional to the trader's exposure
//! moves from the exposure to the liquidity pool.

use crate::error::ErrorCode;
use crate::numeric::{checked_add, checked_mul, checked_sub};
use crate::state::{GlobalState, TraderState};
use vstd::prelude::*;

verus! {

/// What a settlement works on: the trader's record and the global record.
/// Any principal may trigger it.
#[derive(Clone, Debug)]
pub struct ApplyFundingRate {
    pub trader_state: TraderState,
    pub global_state: GlobalState,
}

/// The funding fee on an exposure: the exposure times the fee rate, with no
/// scaling.
pub open spec fn funding_fee(open_position: u64, fee_rate: u64) -> int {
    open_position * fee_rate
}

/// A settlement fails exactly when the fee does not fit, exceeds the
/// exposure, or would overflow the pool.
pub open spec fn funding_overflows(ctx: ApplyFundingRate) -> bool {
    let fee = funding_fee(ctx.trader_state.open_position, ctx.global_state.fee_rate);
    ||| fee > u64::MAX
    ||| fee > ctx.trader_state.open_position
    ||| ctx.global_state.total_liquidity + fee > u64::MAX
}

/// Settles the funding fee: the exposure shrinks by the fee and the pool
/// grows by it.
pub fn apply_funding_rate(ctx: &mut ApplyFundingRate) -> (r: Result<(), ErrorCode>)
    ensures
        funding_overflows(*old(ctx)) ==> r == Err::<(), ErrorCode>(ErrorCode::MathOverflow)
            && *final(ctx) == *old(ctx),
        !funding_overflows(*old(ctx)) ==> {
            let fee = funding_fee(
                old(ctx).trader_state.open_position,
                old(ctx).global_state.fee_rate,
            );
            &&& r == Ok::<(), ErrorCode>(())
            &&& final(ctx).trader_state == old(ctx).trader_state.with_open_position(
                (old(ctx).trader_state.open_position - fee) as u64,
            )
            &&& final(ctx).global_state == old(ctx).global_state.with_total_liquidity(
                (old(ctx).global_state.total_liquidity + fee) as u64,
            )
        },
        final(ctx).global_state.total_liquidity >= old(ctx).global_state.total_liquidity,
        final(ctx).trader_state.open_position <= old(ctx).trader_state.open_position,
{
    let fee = match checked_mul(ctx.trader_state.open_position, ctx.global_state.fee_rate) {
        Ok(v) => v,
        Err(e) => { return Err(e); },
    };
    let exposure = match checked_sub(ctx.trader_state.open_position, fee) {
        Ok(v) => v,
        Err(e) => { return Err(e); },
    };
    let liquidity = match checked_add(ctx.global_state.total_liquidity, fee) {
        Ok(v) => v,
        Err(e) => { return Err(e); },
    };
    ctx.trader_state.open_position = exposure;
    ctx.global_state.total_liquidity = liquidity;
    Ok(())
}

} // verus!
