//! What only the admin may do: set the ledger up, extend the allow-lists,
//! change the funding rate, withdraw liquidity for a hedge, and maintain
//! the reputation-leverage registry.

use crate::error::ErrorCode;
use crate::numeric::checked_sub;
use crate::principal::Principal;
use crate::state::{registry_keys_unique, GlobalState, ReputationLeverage, MAX_ENTRIES};
use vstd::prelude::*;

verus! {

/// What setting the ledger up works on: the record to fill and the
/// principal who becomes the admin.
#[derive(Clone, Debug)]
pub struct Initialize {
    pub global_state: GlobalState,
    pub admin: Principal,
}

/// What the allow-list and funding-rate operations work on.
#[derive(Clone, Debug)]
pub struct AdminOnly {
    pub global_state: GlobalState,
    pub admin: Principal,
}

/// What a hedge works on.
#[derive(Clone, Debug)]
pub struct AutoHedge {
    pub global_state: GlobalState,
    pub admin: Principal,
}

/// What a change of the leverage registry works on.
#[derive(Clone, Debug)]
pub struct AdjustLeverage {
    pub global_state: GlobalState,
    pub admin: Principal,
}

/// Fills the global record: the caller becomes the admin, the four settings
/// are stored, and the balances, the merkle root, the allow-lists and the
/// registry start out empty.
pub fn initialize(
    ctx: &mut Initialize,
    fee_rate: u64,
    maintenance_margin: u64,
    min_stake_duration: i64,
    execution_fee: u64,
) -> (r: Result<(), ErrorCode>)
    ensures
        r == Ok::<(), ErrorCode>(()),
        final(ctx).admin == old(ctx).admin,
        final(ctx).global_state.admin == old(ctx).admin,
        final(ctx).global_state.fee_rate == fee_rate,
        final(ctx).global_state.maintenance_margin == maintenance_margin,
        final(ctx).global_state.min_stake_duration == min_stake_duration,
        final(ctx).global_state.execution_fee == execution_fee,
        final(ctx).global_state.total_staked == 0,
        final(ctx).global_state.total_liquidity == 0,
        final(ctx).global_state.orderbook_merkle_root@ == Seq::new(32, |i: int| 0u8),
        final(ctx).global_state.authorized_liquidators@ == Seq::<Principal>::empty(),
        final(ctx).global_state.authorized_orderbook_updaters@ == Seq::<Principal>::empty(),
        final(ctx).global_state.reputation_based_leverage@ == Seq::<ReputationLeverage>::empty(),
        final(ctx).global_state.wf(),
{
    let root: [u8; 32] = [0u8; 32];
    proof {
        assert(root@ =~= Seq::new(32, |i: int| 0u8));
    }
    ctx.global_state.admin = ctx.admin;
    ctx.global_state.fee_rate = fee_rate;
    ctx.global_state.maintenance_margin = maintenance_margin;
    ctx.global_state.min_stake_duration = min_stake_duration;
    ctx.global_state.execution_fee = execution_fee;
    ctx.global_state.total_staked = 0;
    ctx.global_state.total_liquidity = 0;
    ctx.global_state.orderbook_merkle_root = root;
    ctx.global_state.authorized_liquidators = Vec::new();
    ctx.global_state.authorized_orderbook_updaters = Vec::new();
    ctx.global_state.reputation_based_leverage = Vec::new();
    Ok(())
}

/// The error that refuses an addition to an allow-list that holds `len`
/// principals, if any.
pub open spec fn allow_list_error(ctx: AdminOnly, len: nat) -> Option<ErrorCode> {
    if ctx.admin != ctx.global_state.admin {
        Some(ErrorCode::Unauthorized)
    } else if len >= MAX_ENTRIES {
        Some(ErrorCode::CapacityExceeded)
    } else {
        None
    }
}

/// Appends `new_liquidator` to the principals that may liquidate.
pub fn add_authorized_liquidator(ctx: &mut AdminOnly, new_liquidator: Principal) -> (r: Result<
    (),
    ErrorCode,
>)
    ensures
        match allow_list_error(*old(ctx), old(ctx).global_state.authorized_liquidators@.len()) {
            Some(e) => r == Err::<(), ErrorCode>(e) && *final(ctx) == *old(ctx),
            None => {
                &&& r == Ok::<(), ErrorCode>(())
                &&& final(ctx).admin == old(ctx).admin
                &&& final(ctx).global_state.same_settings(&old(ctx).global_state)
                &&& final(ctx).global_state.authorized_liquidators@
                    == old(ctx).global_state.authorized_liquidators@.push(new_liquidator)
                &&& final(ctx).global_state.authorized_orderbook_updaters
                    == old(ctx).global_state.authorized_orderbook_updaters
                &&& final(ctx).global_state.reputation_based_leverage
                    == old(ctx).global_state.reputation_based_leverage
            },
        },
        old(ctx).global_state.wf() ==> final(ctx).global_state.wf(),
{
    if !(ctx.admin == ctx.global_state.admin) {
        return Err(ErrorCode::Unauthorized);
    }
    if ctx.global_state.authorized_liquidators.len() >= MAX_ENTRIES {
        return Err(ErrorCode::CapacityExceeded);
    }
    ctx.global_state.authorized_liquidators.push(new_liquidator);
    Ok(())
}

/// Appends `new_updater` to the principals that may update the order book.
pub fn add_authorized_orderbook_updater(ctx: &mut AdminOnly, new_updater: Principal) -> (r: Result<
    (),
    ErrorCode,
>)
    ensures
        match allow_list_error(
            *old(ctx),
            old(ctx).global_state.authorized_orderbook_updaters@.len(),
        ) {
            Some(e) => r == Err::<(), ErrorCode>(e) && *final(ctx) == *old(ctx),
            None => {
                &&& r == Ok::<(), ErrorCode>(())
                &&& final(ctx).admin == old(ctx).admin
                &&& final(ctx).global_state.same_settings(&old(ctx).global_state)
                &&& final(ctx).global_state.authorized_orderbook_updaters@
                    == old(ctx).global_state.authorized_orderbook_updaters@.push(new_updater)
                &&& final(ctx).global_state.authorized_liquidators
                    == old(ctx).global_state.authorized_liquidators
                &&& final(ctx).global_state.reputation_based_leverage
                    == old(ctx).global_state.reputation_based_leverage
            },
        },
        old(ctx).global_state.wf() ==> final(ctx).global_state.wf(),
{
    if !(ctx.admin == ctx.global_state.admin) {
        return Err(ErrorCode::Unauthorized);
    }
    if ctx.global_state.authorized_orderbook_updaters.len() >= MAX_ENTRIES {
        return Err(ErrorCode::CapacityExceeded);
    }
    ctx.global_state.authorized_orderbook_updaters.push(new_updater);
    Ok(())
}

/// Overwrites the funding-fee rate. Any rate is accepted.
pub fn adjust_funding_rate(ctx: &mut AdminOnly, new_funding_rate: u64) -> (r: Result<
    (),
    ErrorCode,
>)
    ensures
        old(ctx).admin != old(ctx).global_state.admin ==> r == Err::<(), ErrorCode>(
            ErrorCode::Unauthorized,
        ) && *final(ctx) == *old(ctx),
        old(ctx).admin == old(ctx).global_state.admin ==> r == Ok::<(), ErrorCode>(())
            && final(ctx).admin == old(ctx).admin && final(ctx).global_state
            == old(ctx).global_state.with_fee_rate(new_funding_rate),
{
    if !(ctx.admin == ctx.global_state.admin) {
        return Err(ErrorCode::Unauthorized);
    }
    ctx.global_state.fee_rate = new_funding_rate;
    Ok(())
}

/// The error that refuses a hedge, if any.
pub open spec fn auto_hedge_error(ctx: AutoHedge, hedge_amount: u64) -> Option<ErrorCode> {
    if ctx.admin != ctx.global_state.admin {
        Some(ErrorCode::Unauthorized)
    } else if ctx.global_state.total_liquidity < hedge_amount {
        Some(ErrorCode::InsufficientLiquidity)
    } else {
        None
    }
}

/// Withdraws `hedge_amount` from the pool for a hedge that is executed
/// elsewhere. Nothing else is recorded.
pub fn auto_hedge(ctx: &mut AutoHedge, hedge_amount: u64) -> (r: Result<(), ErrorCode>)
    ensures
        match auto_hedge_error(*old(ctx), hedge_amount) {
            Some(e) => r == Err::<(), ErrorCode>(e) && *final(ctx) == *old(ctx),
            None => {
                &&& r == Ok::<(), ErrorCode>(())
                &&& final(ctx).admin == old(ctx).admin
                &&& final(ctx).global_state == old(ctx).global_state.with_total_liquidity(
                    (old(ctx).global_state.total_liquidity - hedge_amount) as u64,
                )
            },
        },
{
    if !(ctx.admin == ctx.global_state.admin) {
        return Err(ErrorCode::Unauthorized);
    }
    if ctx.global_state.total_liquidity < hedge_amount {
        return Err(ErrorCode::InsufficientLiquidity);
    }
    let liquidity = match checked_sub(ctx.global_state.total_liquidity, hedge_amount) {
        Ok(v) => v,
        Err(e) => { return Err(e); },
    };
    ctx.global_state.total_liquidity = liquidity;
    Ok(())
}

/// The index of the first entry for `trader` at or after `from`, or the
/// registry's length where there is none.
pub open spec fn first_entry_from(
    registry: Seq<ReputationLeverage>,
    trader: Principal,
    from: int,
) -> int
    decreases registry.len() - from,
{
    if from < 0 || from >= registry.len() {
        registry.len() as int
    } else if registry[from].trader == trader {
        from
    } else {
        first_entry_from(registry, trader, from + 1)
    }
}

/// The registry after `trader`'s cap was set to `leverage`: the trader's
/// entry is overwritten in place, or a new entry is appended where the
/// trader has none.
pub open spec fn registry_upsert(
    registry: Seq<ReputationLeverage>,
    trader: Principal,
    leverage: u64,
) -> Seq<ReputationLeverage> {
    let at = first_entry_from(registry, trader, 0);
    if at < registry.len() {
        registry.update(at, ReputationLeverage { trader, leverage })
    } else {
        registry.push(ReputationLeverage { trader, leverage })
    }
}

/// The leverage cap that the registry holds for `trader`, if any.
pub open spec fn leverage_cap(registry: Seq<ReputationLeverage>, trader: Principal) -> Option<u64> {
    let at = first_entry_from(registry, trader, 0);
    if at < registry.len() {
        Some(registry[at].leverage)
    } else {
        None
    }
}

/// `first_entry_from` finds an entry of the trader, and no entry between
/// `from` and what it finds is the trader's.
pub proof fn lemma_first_entry(registry: Seq<ReputationLeverage>, trader: Principal, from: int)
    requires
        0 <= from <= registry.len(),
    ensures
        from <= first_entry_from(registry, trader, from) <= registry.len(),
        first_entry_from(registry, trader, from) < registry.len() ==> registry[first_entry_from(
            registry,
            trader,
            from,
        )].trader == trader,
        forall|j: int|
            from <= j < first_entry_from(registry, trader, from) ==> registry[j].trader != trader,
    decreases registry.len() - from,
{
    if from < registry.len() && registry[from].trader != trader {
        lemma_first_entry(registry, trader, from + 1);
    }
}

/// Finds the trader's entry: its index, or the registry's length.
fn find_entry(registry: &Vec<ReputationLeverage>, trader: &Principal) -> (at: usize)
    ensures
        at == first_entry_from(registry@, *trader, 0),
{
    let mut i: usize = 0;
    while i < registry.len()
        invariant
            i <= registry.len(),
            first_entry_from(registry@, *trader, 0) == first_entry_from(registry@, *trader, i as int),
        decreases registry.len() - i,
    {
        if registry[i].trader == *trader {
            return i;
        }
        i += 1;
    }
    i
}

/// The error that refuses a change of the registry, if any.
pub open spec fn adjust_leverage_error(ctx: AdjustLeverage, trader: Principal) -> Option<
    ErrorCode,
> {
    let registry = ctx.global_state.reputation_based_leverage@;
    if ctx.admin != ctx.global_state.admin {
        Some(ErrorCode::Unauthorized)
    } else if leverage_cap(registry, trader) is None && registry.len() >= MAX_ENTRIES {
        Some(ErrorCode::CapacityExceeded)
    } else {
        None
    }
}

/// Sets `trader`'s leverage cap: an existing entry is overwritten, a new
/// one is appended while the registry has room.
pub fn adjust_leverage_based_on_reputation(
    ctx: &mut AdjustLeverage,
    trader: Principal,
    new_leverage: u64,
) -> (r: Result<(), ErrorCode>)
    ensures
        match adjust_leverage_error(*old(ctx), trader) {
            Some(e) => r == Err::<(), ErrorCode>(e) && *final(ctx) == *old(ctx),
            None => {
                &&& r == Ok::<(), ErrorCode>(())
                &&& final(ctx).admin == old(ctx).admin
                &&& final(ctx).global_state.same_settings(&old(ctx).global_state)
                &&& final(ctx).global_state.authorized_liquidators
                    == old(ctx).global_state.authorized_liquidators
                &&& final(ctx).global_state.authorized_orderbook_updaters
                    == old(ctx).global_state.authorized_orderbook_updaters
                &&& final(ctx).global_state.reputation_based_leverage@ == registry_upsert(
                    old(ctx).global_state.reputation_based_leverage@,
                    trader,
                    new_leverage,
                )
            },
        },
        old(ctx).global_state.wf() ==> final(ctx).global_state.wf(),
{
    if !(ctx.admin == ctx.global_state.admin) {
        return Err(ErrorCode::Unauthorized);
    }
    let at = find_entry(&ctx.global_state.reputation_based_leverage, &trader);
    let entry = ReputationLeverage { trader, leverage: new_leverage };
    proof {
        lemma_upsert_keeps_keys_unique(
            ctx.global_state.reputation_based_leverage@,
            trader,
            new_leverage,
        );
    }
    if at < ctx.global_state.reputation_based_leverage.len() {
        ctx.global_state.reputation_based_leverage.set(at, entry);
    } else {
        if ctx.global_state.reputation_based_leverage.len() >= MAX_ENTRIES {
            return Err(ErrorCode::CapacityExceeded);
        }
        ctx.global_state.reputation_based_leverage.push(entry);
    }
    Ok(())
}

/// Setting a cap never gives a trader a second entry: a registry with one
/// entry per trader at most stays so, it grows by one entry exactly when
/// the trader had none, and afterwards it holds the new cap for the trader.
pub proof fn lemma_upsert_keeps_keys_unique(
    registry: Seq<ReputationLeverage>,
    trader: Principal,
    leverage: u64,
)
    ensures
        registry_keys_unique(registry) ==> registry_keys_unique(
            registry_upsert(registry, trader, leverage),
        ),
        leverage_cap(registry, trader) is Some ==> registry_upsert(registry, trader, leverage).len()
            == registry.len(),
        leverage_cap(registry, trader) is None ==> registry_upsert(registry, trader, leverage).len()
            == registry.len() + 1,
        leverage_cap(registry_upsert(registry, trader, leverage), trader) == Some(leverage),
{
    let after = registry_upsert(registry, trader, leverage);
    lemma_first_entry(registry, trader, 0);
    lemma_first_entry(after, trader, 0);
    let at = first_entry_from(registry, trader, 0);
    assert(after[at].trader == trader);
}

/// From `from` on, two registries whose entries agree on whether they are
/// `who`'s, the longer one having no further entry of `who`, find `who` at
/// the same place or not at all.
proof fn lemma_first_entry_same_keys(
    a: Seq<ReputationLeverage>,
    b: Seq<ReputationLeverage>,
    who: Principal,
    from: int,
)
    requires
        0 <= from <= a.len() <= b.len(),
        forall|j: int| from <= j < a.len() ==> (a[j].trader == who) == (b[j].trader == who),
        forall|j: int| a.len() <= j < b.len() ==> b[j].trader != who,
    ensures
        first_entry_from(a, who, from) < a.len() ==> first_entry_from(b, who, from)
            == first_entry_from(a, who, from),
        first_entry_from(a, who, from) >= a.len() ==> first_entry_from(b, who, from) == b.len(),
    decreases a.len() - from,
{
    if from < a.len() {
        if a[from].trader != who {
            lemma_first_entry_same_keys(a, b, who, from + 1);
        }
    } else {
        lemma_first_entry(b, who, from);
    }
}

/// Setting one trader's cap leaves every other trader's cap as it was.
pub proof fn lemma_upsert_leaves_other_traders(
    registry: Seq<ReputationLeverage>,
    trader: Principal,
    leverage: u64,
    other: Principal,
)
    requires
        other != trader,
    ensures
        leverage_cap(registry_upsert(registry, trader, leverage), other) == leverage_cap(
            registry,
            other,
        ),
{
    let after = registry_upsert(registry, trader, leverage);
    lemma_first_entry(registry, trader, 0);
    lemma_first_entry(registry, other, 0);
    lemma_first_entry_same_keys(registry, after, other, 0);
}

/// Setting a trader's cap twice leaves the registry as setting the second
/// cap alone would: the second call overwrites the entry of the first and
/// adds none.
pub proof fn lemma_upsert_twice(
    registry: Seq<ReputationLeverage>,
    trader: Principal,
    first: u64,
    second: u64,
)
    ensures
        registry_upsert(registry_upsert(registry, trader, first), trader, second)
            == registry_upsert(registry, trader, second),
        registry_upsert(registry_upsert(registry, trader, first), trader, second).len()
            == registry_upsert(registry, trader, first).len(),
{
    let once = registry_upsert(registry, trader, first);
    lemma_upsert_keeps_keys_unique(registry, trader, first);
    lemma_first_entry(registry, trader, 0);
    lemma_first_entry(once, trader, 0);
    let at = first_entry_from(registry, trader, 0);
    assert(once[at].trader == trader);
    assert(first_entry_from(once, trader, 0) == at);
    assert(registry_upsert(once, trader, second) =~= registry_upsert(registry, trader, second));
}

} // verus!
