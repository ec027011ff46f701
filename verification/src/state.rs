//! The ledger's records: the process-wide `GlobalState`, the per-trader
//! `TraderState`, and the entries of the reputation-leverage registry.

use crate::principal::Principal;
use vstd::prelude::*;

verus! {

/// The most entries that an allow-list or the leverage registry can hold.
pub const MAX_ENTRIES: usize = 10;

/// A trader's leverage cap in the reputation registry.
#[derive(Clone, Copy, Debug, PartialEq, Eq)]
pub struct ReputationLeverage {
    pub trader: Principal,
    pub leverage: u64,
}

/// Process-wide configuration and pool accounting.
#[derive(Clone, Debug, PartialEq, Eq)]
pub struct GlobalState {
    pub admin: Principal,
    pub fee_rate: u64,
    pub maintenance_margin: u64,
    pub min_stake_duration: i64,
    pub execution_fee: u64,
    pub total_staked: u64,
    pub total_liquidity: u64,
    pub orderbook_merkle_root: [u8; 32],
    pub authorized_liquidators: Vec<Principal>,
    pub authorized_orderbook_updaters: Vec<Principal>,
    pub reputation_based_leverage: Vec<ReputationLeverage>,
}

/// No two entries of the registry speak of the same trader.
pub open spec fn registry_keys_unique(registry: Seq<ReputationLeverage>) -> bool {
    forall|i: int, j: int|
        0 <= i < j < registry.len() ==> registry[i].trader != registry[j].trader
}

/// Whether `who` is one of the principals of `list`.
pub fn is_listed(list: &Vec<Principal>, who: &Principal) -> (r: bool)
    ensures
        r == list@.contains(*who),
{
    let mut i: usize = 0;
    while i < list.len()
        invariant
            i <= list.len(),
            forall|j: int| 0 <= j < i ==> list@[j] != *who,
        decreases list.len() - i,
    {
        if list[i] == *who {
            return true;
        }
        i += 1;
    }
    false
}

impl GlobalState {
    /// The size in bytes of the fixed-capacity encoding of the record.
    pub const LEN: usize = 32 + 8 + 8 + 8 + 8 + 8 + 8 + 32 + (4 + 10 * 32) + (4 + 10 * 32) + (4
        + 10 * (32 + 8));

    /// Both records agree on every field but the two allow-lists and the
    /// registry.
    pub open spec fn same_settings(&self, other: &GlobalState) -> bool {
        &&& self.admin == other.admin
        &&& self.fee_rate == other.fee_rate
        &&& self.maintenance_margin == other.maintenance_margin
        &&& self.min_stake_duration == other.min_stake_duration
        &&& self.execution_fee == other.execution_fee
        &&& self.total_staked == other.total_staked
        &&& self.total_liquidity == other.total_liquidity
        &&& self.orderbook_merkle_root == other.orderbook_merkle_root
    }

    /// This record with another pool balance.
    pub open spec fn with_total_liquidity(self, total_liquidity: u64) -> GlobalState {
        GlobalState { total_liquidity, ..self }
    }

    /// This record with another funding-fee rate.
    pub open spec fn with_fee_rate(self, fee_rate: u64) -> GlobalState {
        GlobalState { fee_rate, ..self }
    }

    /// The record fits its fixed-capacity layout and the registry has one
    /// entry per trader at most.
    pub open spec fn wf(&self) -> bool {
        &&& self.authorized_liquidators@.len() <= MAX_ENTRIES
        &&& self.authorized_orderbook_updaters@.len() <= MAX_ENTRIES
        &&& self.reputation_based_leverage@.len() <= MAX_ENTRIES
        &&& registry_keys_unique(self.reputation_based_leverage@)
    }
}

/// One trader's collateral and exposure.
#[derive(Clone, Copy, Debug, PartialEq, Eq)]
pub struct TraderState {
    pub owner: Principal,
    pub staked_amount: u64,
    pub open_position: u64,
    pub stake_timestamp: i64,
}

impl TraderState {
    /// The size in bytes of the encoding of the record.
    pub const LEN: usize = 32 + 8 + 8 + 8;

    /// The record of a trader who has staked nothing yet.
    pub open spec fn spec_new(owner: Principal) -> TraderState {
        TraderState { owner, staked_amount: 0, open_position: 0, stake_timestamp: 0 }
    }

    /// This record with another exposure.
    pub open spec fn with_open_position(self, open_position: u64) -> TraderState {
        TraderState { open_position, ..self }
    }

    /// Creates the record of a trader who has staked nothing yet.
    pub fn new(owner: Principal) -> (t: TraderState)
        ensures
            t == Self::spec_new(owner),
    {
        TraderState { owner, staked_amount: 0, open_position: 0, stake_timestamp: 0 }
    }
}

/// A liquidity provider's record.
#[derive(Clone, Copy, Debug, PartialEq, Eq)]
pub struct LpState {
    pub owner: Principal,
    pub lp_staked: u64,
    pub trading_volume: u64,
    pub lp_rewards: u64,
}

impl LpState {
    /// The size in bytes of the encoding of the record.
    pub const LEN: usize = 32 + 8 + 8 + 8;
}

} // verus!
