//! Accounting core of a custodial staking ledger.
//!
//! Users deposit a fungible token into a pooled vault, an operator adjusts how
//! much of each deposit may be withdrawn, and users withdraw up to that
//! ceiling. This crate decides how much moves and under which authority; the
//! caller moves the tokens and reports back whether that worked.

pub mod balance;
pub mod custody;
pub mod error;
pub mod events;
pub mod initialize;
pub mod laws;
pub mod pubkey;
pub mod rewards;
pub mod stake;
pub mod state;
pub mod transfer;
pub mod unstake;
pub mod vault;

pub use crate::balance::{update_in_game_balance, UpdateInGameBalance};
pub use crate::error::ErrorCode;
pub use crate::events::{
    InGameBalanceUpdated, InitializeEvent, RewardsDeposited, StakeEvent, UnstakeEvent,
    VaultCreated,
};
pub use crate::initialize::{initialize, Initialize};
pub use crate::pubkey::Pubkey;
pub use crate::rewards::{deposit_rewards, DepositRewards};
pub use crate::stake::{stake_tokens, Stake};
pub use crate::state::{GlobalState, StakeInfo};
pub use crate::unstake::{unstake_tokens, Unstake};
pub use crate::vault::{create_vault, CreateVault};
