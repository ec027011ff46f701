//! A margin-trading ledger for leveraged perpetual positions.
//!
//! The ledger tracks staked collateral, enforces a stake time lock, opens and
//! aggregates leveraged exposure, settles funding fees, liquidates
//! under-margined accounts, and keeps a bounded leverage registry. Every
//! operation is all-or-nothing: on an error the records are left untouched.

pub mod admin;
pub mod error;
pub mod funding;
pub mod liquidation;
pub mod numeric;
pub mod position;
pub mod principal;
pub mod staking;
pub mod state;

pub use admin::{
    add_authorized_liquidator, add_authorized_orderbook_updater, adjust_funding_rate,
    adjust_leverage_based_on_reputation, auto_hedge, initialize, AdjustLeverage, AdminOnly,
    AutoHedge, Initialize,
};
pub use funding::{apply_funding_rate, ApplyFundingRate};
pub use liquidation::{liquidate_with_penalty, AuthorizedLiquidator};
pub use position::{batch_execute_trades, open_position, BatchTradeExecution, OpenPosition};
pub use staking::{stake, Stake};

pub use error::ErrorCode;
pub use principal::Principal;
pub use state::{GlobalState, LpState, ReputationLeverage, TraderState};
