//! Opening leveraged exposure: one position at a time, behind the stake
//! time lock and the execution fee, or many trades aggregated in one pass.

use crate::error::ErrorCode;
use crate::numeric::{checked_add, checked_mul, checked_sub};
use crate::principal::Principal;
use crate::staking::{stake_error, trader_after_stake, Stake};
use crate::state::{GlobalState, TraderState};
use vstd::prelude::*;

verus! {

/// What opening a position works on: the trader's record, the global record
/// and the principal who asks.
#[derive(Clone, Debug)]
pub struct OpenPosition {
    pub trader_state: TraderState,
    pub global_state: GlobalState,
    pub owner: Principal,
}

/// What a batch of trades works on: the trader's record and the principal
/// who asks.
#[derive(Clone, Copy, Debug)]
pub struct BatchTradeExecution {
    pub trader_state: TraderState,
    pub owner: Principal,
}

/// The lock is over once the minimum stake duration has passed since the
/// most recent stake; the boundary itself counts as elapsed.
pub open spec fn time_lock_elapsed(trader: TraderState, global: GlobalState, now: i64) -> bool {
    now >= trader.stake_timestamp + global.min_stake_duration
}

/// The notional value of a trade.
pub open spec fn position_value(leverage: u64, amount: u64) -> int {
    amount * leverage
}

/// The error that refuses opening a position, if any, in the order in which
/// the conditions are tested.
pub open spec fn open_position_error(
    ctx: OpenPosition,
    now: i64,
    leverage: u64,
    amount: u64,
) -> Option<ErrorCode> {
    let trader = ctx.trader_state;
    let global = ctx.global_state;
    if trader.owner != ctx.owner {
        Some(ErrorCode::Unauthorized)
    } else if !time_lock_elapsed(trader, global, now) {
        Some(ErrorCode::StakeTimeLock)
    } else if trader.staked_amount < global.execution_fee {
        Some(ErrorCode::InsufficientFundsForFee)
    } else if global.total_liquidity + global.execution_fee > u64::MAX {
        Some(ErrorCode::MathOverflow)
    } else if position_value(leverage, amount) > u64::MAX {
        Some(ErrorCode::MathOverflow)
    } else if trader.open_position + position_value(leverage, amount) > u64::MAX {
        Some(ErrorCode::MathOverflow)
    } else {
        None
    }
}

/// The trader's record after a position was opened.
pub open spec fn trader_after_open(
    trader: TraderState,
    global: GlobalState,
    leverage: u64,
    amount: u64,
) -> TraderState {
    TraderState {
        owner: trader.owner,
        staked_amount: (trader.staked_amount - global.execution_fee) as u64,
        open_position: (trader.open_position + position_value(leverage, amount)) as u64,
        stake_timestamp: trader.stake_timestamp,
    }
}

/// Opens a leveraged position at time `now`: the execution fee moves from
/// the trader's collateral to the pool, and the exposure grows by
/// `amount * leverage`.
pub fn open_position(ctx: &mut OpenPosition, now: i64, leverage: u64, amount: u64) -> (r: Result<
    (),
    ErrorCode,
>)
    ensures
        match open_position_error(*old(ctx), now, leverage, amount) {
            Some(e) => r == Err::<(), ErrorCode>(e) && *final(ctx) == *old(ctx),
            None => {
                &&& r == Ok::<(), ErrorCode>(())
                &&& final(ctx).owner == old(ctx).owner
                &&& final(ctx).trader_state == trader_after_open(
                    old(ctx).trader_state,
                    old(ctx).global_state,
                    leverage,
                    amount,
                )
                &&& final(ctx).global_state == old(ctx).global_state.with_total_liquidity(
                    (old(ctx).global_state.total_liquidity + old(ctx).global_state.execution_fee) as u64,
                )
            },
        },
        final(ctx).global_state.total_liquidity >= old(ctx).global_state.total_liquidity,
{
    if !(ctx.trader_state.owner == ctx.owner) {
        return Err(ErrorCode::Unauthorized);
    }
    let unlocked_at: i128 = ctx.trader_state.stake_timestamp as i128
        + ctx.global_state.min_stake_duration as i128;
    if (now as i128) < unlocked_at {
        return Err(ErrorCode::StakeTimeLock);
    }
    if ctx.trader_state.staked_amount < ctx.global_state.execution_fee {
        return Err(ErrorCode::InsufficientFundsForFee);
    }
    let staked = match checked_sub(ctx.trader_state.staked_amount, ctx.global_state.execution_fee) {
        Ok(v) => v,
        Err(e) => { return Err(e); },
    };
    let liquidity = match checked_add(
        ctx.global_state.total_liquidity,
        ctx.global_state.execution_fee,
    ) {
        Ok(v) => v,
        Err(e) => { return Err(e); },
    };
    let value = match checked_mul(amount, leverage) {
        Ok(v) => v,
        Err(e) => { return Err(e); },
    };
    let exposure = match checked_add(ctx.trader_state.open_position, value) {
        Ok(v) => v,
        Err(e) => { return Err(e); },
    };
    ctx.trader_state.staked_amount = staked;
    ctx.global_state.total_liquidity = liquidity;
    ctx.trader_state.open_position = exposure;
    Ok(())
}

/// Where a position is opened, the collateral left and the new exposure are
/// the exact differences and sums, and both lie in the unsigned 64-bit
/// domain: nothing wraps and nothing goes below zero.
pub proof fn lemma_open_position_stays_in_domain(
    ctx: OpenPosition,
    now: i64,
    leverage: u64,
    amount: u64,
)
    requires
        open_position_error(ctx, now, leverage, amount) is None,
    ensures
        ({
            let after = trader_after_open(ctx.trader_state, ctx.global_state, leverage, amount);
            &&& after.staked_amount == ctx.trader_state.staked_amount
                - ctx.global_state.execution_fee
            &&& after.open_position == ctx.trader_state.open_position + amount * leverage
            &&& 0 <= after.staked_amount <= ctx.trader_state.staked_amount
            &&& ctx.trader_state.open_position <= after.open_position <= u64::MAX
        }),
{
    assert(amount * leverage >= 0) by (nonlinear_arith);
}

/// For the account's owner, opening a position is refused for the time lock
/// exactly when `now` is before the stake time plus the minimum duration; at
/// that instant itself the lock no longer refuses.
pub proof fn lemma_time_lock_boundary(ctx: OpenPosition, now: i64, leverage: u64, amount: u64)
    requires
        ctx.trader_state.owner == ctx.owner,
    ensures
        open_position_error(ctx, now, leverage, amount) == Some(ErrorCode::StakeTimeLock) <==> now
            < ctx.trader_state.stake_timestamp + ctx.global_state.min_stake_duration,
{
}

/// Every stake arms the lock anew: once a stake is recorded at `staked_at`,
/// the trader is refused for the time lock exactly until `staked_at` plus
/// the minimum duration, whatever the account's earlier stake time was.
pub proof fn lemma_stake_rearms_time_lock(
    ctx: Stake,
    staked_at: i64,
    staked: u64,
    global: GlobalState,
    now: i64,
    leverage: u64,
    amount: u64,
)
    requires
        stake_error(ctx, staked) is None,
    ensures
        open_position_error(
            OpenPosition {
                trader_state: trader_after_stake(ctx, staked_at, staked),
                global_state: global,
                owner: ctx.user,
            },
            now,
            leverage,
            amount,
        ) == Some(ErrorCode::StakeTimeLock) <==> now < staked_at + global.min_stake_duration,
{
}

/// The sum of the notional values of a sequence of `(leverage, amount)`
/// trades.
pub open spec fn batch_total(trades: Seq<(u64, u64)>) -> int
    decreases trades.len(),
{
    if trades.len() == 0 {
        0
    } else {
        batch_total(trades.drop_last()) + position_value(trades.last().0, trades.last().1)
    }
}

/// One aggregation step: the exposure grows by the trade's notional value,
/// with no fee and no time lock, and is lost (`None`) once it leaves the
/// unsigned 64-bit domain.
pub open spec fn aggregate_trade(exposure: Option<int>, trade: (u64, u64)) -> Option<int> {
    match exposure {
        Some(e) => if e + position_value(trade.0, trade.1) <= u64::MAX {
            Some(e + position_value(trade.0, trade.1))
        } else {
            None
        },
        None => None,
    }
}

/// The aggregation step applied to each trade in turn.
pub open spec fn aggregate_one_by_one(exposure: Option<int>, trades: Seq<(u64, u64)>) -> Option<
    int,
>
    decreases trades.len(),
{
    if trades.len() == 0 {
        exposure
    } else {
        aggregate_trade(aggregate_one_by_one(exposure, trades.drop_last()), trades.last())
    }
}

/// The exposure after a batch: the old exposure plus the batch total, or
/// `None` when that leaves the unsigned 64-bit domain.
pub open spec fn aggregate_batch(exposure: int, trades: Seq<(u64, u64)>) -> Option<int> {
    if exposure + batch_total(trades) <= u64::MAX {
        Some(exposure + batch_total(trades))
    } else {
        None
    }
}

/// A batch total is never negative, and no prefix of a batch has a larger
/// total than the batch.
pub proof fn lemma_batch_total_grows(trades: Seq<(u64, u64)>, n: int)
    requires
        0 <= n <= trades.len(),
    ensures
        0 <= batch_total(trades.take(n)) <= batch_total(trades),
    decreases trades.len(),
{
    if n == trades.len() {
        assert(trades.take(n) =~= trades);
        if trades.len() > 0 {
            lemma_batch_total_grows(trades.drop_last(), n - 1);
            assert(trades.last().1 * trades.last().0 >= 0) by (nonlinear_arith);
        }
    } else {
        lemma_batch_total_grows(trades.drop_last(), n);
        assert(trades.drop_last().take(n) =~= trades.take(n));
        assert(trades.last().1 * trades.last().0 >= 0) by (nonlinear_arith);
    }
}

/// Applying a batch once gives what the aggregation step gives when it is
/// applied to the trades one after another: the same exposure, or a failure
/// in both.
pub proof fn lemma_batch_equals_one_by_one(exposure: u64, trades: Seq<(u64, u64)>)
    ensures
        aggregate_batch(exposure as int, trades) == aggregate_one_by_one(
            Some(exposure as int),
            trades,
        ),
    decreases trades.len(),
{
    if trades.len() > 0 {
        lemma_batch_equals_one_by_one(exposure, trades.drop_last());
        lemma_batch_total_grows(trades, trades.len() - 1);
        assert(trades.take(trades.len() - 1) =~= trades.drop_last());
        assert(trades.last().1 * trades.last().0 >= 0) by (nonlinear_arith);
    }
}

/// The error that refuses a batch, if any.
pub open spec fn batch_error(ctx: BatchTradeExecution, trades: Seq<(u64, u64)>) -> Option<
    ErrorCode,
> {
    if ctx.trader_state.owner != ctx.owner {
        Some(ErrorCode::Unauthorized)
    } else if aggregate_batch(ctx.trader_state.open_position as int, trades) is None {
        Some(ErrorCode::MathOverflow)
    } else {
        None
    }
}

/// Adds the notional values of all `(leverage, amount)` trades to the
/// trader's exposure in one step. No fee is taken and no time lock is
/// tested.
pub fn batch_execute_trades(ctx: &mut BatchTradeExecution, trades: Vec<(u64, u64)>) -> (r: Result<
    (),
    ErrorCode,
>)
    ensures
        match batch_error(*old(ctx), trades@) {
            Some(e) => r == Err::<(), ErrorCode>(e) && *final(ctx) == *old(ctx),
            None => {
                &&& r == Ok::<(), ErrorCode>(())
                &&& final(ctx).owner == old(ctx).owner
                &&& final(ctx).trader_state == old(ctx).trader_state.with_open_position(
                    (old(ctx).trader_state.open_position + batch_total(trades@)) as u64,
                )
            },
        },
{
    if !(ctx.trader_state.owner == ctx.owner) {
        return Err(ErrorCode::Unauthorized);
    }
    proof {
        lemma_batch_total_grows(trades@, 0);
    }
    let total = match sum_trades(&trades) {
        Ok(v) => v,
        Err(e) => { return Err(e); },
    };
    let exposure = match checked_add(ctx.trader_state.open_position, total) {
        Ok(v) => v,
        Err(e) => { return Err(e); },
    };
    ctx.trader_state.open_position = exposure;
    Ok(())
}

/// The batch total of `trades`, or `MathOverflow` when it does not fit.
pub fn sum_trades(trades: &Vec<(u64, u64)>) -> (r: Result<u64, ErrorCode>)
    ensures
        batch_total(trades@) <= u64::MAX ==> r == Ok::<u64, ErrorCode>(batch_total(trades@) as u64),
        batch_total(trades@) > u64::MAX ==> r == Err::<u64, ErrorCode>(ErrorCode::MathOverflow),
{
    let mut total: u64 = 0;
    let mut i: usize = 0;
    while i < trades.len()
        invariant
            i <= trades.len(),
            total == batch_total(trades@.take(i as int)),
        decreases trades.len() - i,
    {
        let (leverage, amount) = trades[i];
        proof {
            assert(trades@.take(i + 1).drop_last() =~= trades@.take(i as int));
            assert(trades@.take(i + 1).last() == trades@[i as int]);
            lemma_batch_total_grows(trades@, i + 1);
            assert(amount * leverage >= 0) by (nonlinear_arith);
        }
        let value = match checked_mul(amount, leverage) {
            Ok(v) => v,
            Err(e) => { return Err(e); },
        };
        total = match checked_add(total, value) {
            Ok(v) => v,
            Err(e) => { return Err(e); },
        };
        i += 1;
    }
    proof {
        assert(trades@.take(i as int) =~= trades@);
    }
    Ok(total)
}

} // verus!
