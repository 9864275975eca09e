//! One record per completed operation, for observers outside the ledger.

use vstd::prelude::*;
use crate::pubkey::Pubkey;

verus! {

#[derive(Clone, Copy, Debug, PartialEq, Eq)]
pub struct InitializeEvent {
    pub authority: Pubkey,
    pub timestamp: i64,
}

#[derive(Clone, Copy, Debug, PartialEq, Eq)]
pub struct StakeEvent {
    pub user: Pubkey,
    pub amount: u64,
    /// The user's principal after the stake.
    pub total_staked: u64,
    pub timestamp: i64,
}

#[derive(Clone, Copy, Debug, PartialEq, Eq)]
pub struct UnstakeEvent {
    pub user: Pubkey,
    pub amount: u64,
    /// The part of `amount` that returns principal.
    pub staked_portion: u64,
    /// The rest of `amount`: earnings.
    pub reward_portion: u64,
    /// The user's principal after the withdrawal.
    pub remaining_staked: u64,
    pub timestamp: i64,
}

#[derive(Clone, Copy, Debug, PartialEq, Eq)]
pub struct InGameBalanceUpdated {
    pub user: Pubkey,
    pub new_balance: u64,
    pub total_staked: u64,
    pub timestamp: i64,
}

#[derive(Clone, Copy, Debug, PartialEq, Eq)]
pub struct VaultCreated {
    pub mint: Pubkey,
    pub vault: Pubkey,
    pub timestamp: i64,
}

#[derive(Clone, Copy, Debug, PartialEq, Eq)]
pub struct RewardsDeposited {
    pub authority: Pubkey,
    pub amount: u64,
    pub timestamp: i64,
}

} // verus!
