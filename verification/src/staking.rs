//! Staking collateral. Every deposit stamps the account with the time of
//! the deposit, so each additional stake starts the time lock anew.

use crate::error::ErrorCode;
use crate::numeric::checked_add;
use crate::principal::Principal;
use crate::state::TraderState;
use vstd::prelude::*;

verus! {

/// What staking works on: the trader's record, absent until the first
/// stake, and the principal who stakes.
#[derive(Clone, Copy, Debug)]
pub struct Stake {
    pub trader_state: Option<TraderState>,
    pub user: Principal,
}

/// The record that a deposit is added to: the trader's own, or a new one
/// owned by `user` where there is none yet.
pub open spec fn account_to_credit(trader_state: Option<TraderState>, user: Principal) -> TraderState {
    match trader_state {
        Some(t) => t,
        None => TraderState::spec_new(user),
    }
}

/// The error that refuses a stake, if any.
pub open spec fn stake_error(ctx: Stake, amount: u64) -> Option<ErrorCode> {
    let account = account_to_credit(ctx.trader_state, ctx.user);
    if account.owner != ctx.user {
        Some(ErrorCode::Unauthorized)
    } else if account.staked_amount + amount > u64::MAX {
        Some(ErrorCode::MathOverflow)
    } else {
        None
    }
}

/// The trader's record after `amount` was staked at time `now`.
pub open spec fn trader_after_stake(ctx: Stake, now: i64, amount: u64) -> TraderState {
    let account = account_to_credit(ctx.trader_state, ctx.user);
    TraderState {
        owner: ctx.user,
        staked_amount: (account.staked_amount + amount) as u64,
        open_position: account.open_position,
        stake_timestamp: now,
    }
}

/// Where a stake is recorded, the new collateral is the exact sum of the
/// old collateral and the deposit, within the unsigned 64-bit domain, the
/// exposure is untouched, and the stake time is `now`.
pub proof fn lemma_stake_stays_in_domain(ctx: Stake, now: i64, amount: u64)
    requires
        stake_error(ctx, amount) is None,
    ensures
        ({
            let before = account_to_credit(ctx.trader_state, ctx.user);
            let after = trader_after_stake(ctx, now, amount);
            &&& after.owner == before.owner
            &&& after.staked_amount == before.staked_amount + amount
            &&& after.staked_amount <= u64::MAX
            &&& after.open_position == before.open_position
            &&& after.stake_timestamp == now
        }),
{
}

/// Records a deposit of `amount` made at time `now`. The tokens themselves
/// must already have reached the vault. The first stake creates the
/// trader's record; every stake adds to the collateral and sets the stake
/// time to `now`.
pub fn stake(ctx: &mut Stake, now: i64, amount: u64) -> (r: Result<(), ErrorCode>)
    requires
        amount > 0,
    ensures
        match stake_error(*old(ctx), amount) {
            Some(e) => r == Err::<(), ErrorCode>(e) && *final(ctx) == *old(ctx),
            None => {
                &&& r == Ok::<(), ErrorCode>(())
                &&& final(ctx).user == old(ctx).user
                &&& final(ctx).trader_state == Some(trader_after_stake(*old(ctx), now, amount))
            },
        },
{
    let account = match ctx.trader_state {
        Some(t) => t,
        None => TraderState::new(ctx.user),
    };
    if !(account.owner == ctx.user) {
        return Err(ErrorCode::Unauthorized);
    }
    let staked = match checked_add(account.staked_amount, amount) {
        Ok(v) => v,
        Err(e) => { return Err(e); },
    };
    ctx.trader_state = Some(
        TraderState {
            owner: ctx.user,
            staked_amount: staked,
            open_position: account.open_position,
            stake_timestamp: now,
        },
    );
    Ok(())
}

} // verus!
