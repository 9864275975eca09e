//! The records that the ledger keeps.

use vstd::prelude::*;
use crate::error::ErrorCode;
use crate::pubkey::Pubkey;

verus! {

/// The one record of the whole ledger.
#[derive(Clone, Copy, Debug, PartialEq, Eq)]
pub struct GlobalState {
    /// The operator: the only caller who may adjust balances and fund rewards.
    pub authority: Pubkey,
    /// The principal that all users together hold in escrow.
    pub total_staked: u64,
    pub bump: u8,
}

/// The record of one user's stake in one asset.
#[derive(Clone, Copy, Debug, PartialEq, Eq)]
pub struct StakeInfo {
    /// The depositing user; the default address until the first stake.
    pub owner: Pubkey,
    /// The asset held in escrow.
    pub mint: Pubkey,
    /// The principal held in escrow for this user.
    pub total_staked: u64,
    /// What the user may withdraw right now. The operator sets it, above
    /// or below the principal.
    pub in_game_balance: u64,
    /// The bump seed of the vault authority derived for `mint`.
    pub vault_bump: u8,
    /// When the record last changed.
    pub last_update: i64,
}

impl GlobalState {
    /// The ledger with `amount` more principal, where that is representable.
    pub open spec fn credited(self, amount: u64) -> Result<GlobalState, ErrorCode> {
        if self.total_staked + amount > u64::MAX {
            Err(ErrorCode::Overflow)
        } else {
            Ok(GlobalState { total_staked: (self.total_staked + amount) as u64, ..self })
        }
    }

    /// The ledger with `amount` less principal, where it holds that much.
    pub open spec fn debited(self, amount: u64) -> Result<GlobalState, ErrorCode> {
        if amount > self.total_staked {
            Err(ErrorCode::ArithmeticUnderflow)
        } else {
            Ok(GlobalState { total_staked: (self.total_staked - amount) as u64, ..self })
        }
    }

    /// Adds `amount` to the global total, or fails and changes nothing.
    pub fn credit_total(&mut self, amount: u64) -> (res: Result<(), ErrorCode>)
        ensures
            match old(self).credited(amount) {
                Ok(next) => res == Ok::<(), ErrorCode>(()) && *final(self) == next,
                Err(e) => res == Err::<(), ErrorCode>(e) && *final(self) == *old(self),
            },
    {
        match self.total_staked.checked_add(amount) {
            Some(total) => {
                self.total_staked = total;
                Ok(())
            },
            None => Err(ErrorCode::Overflow),
        }
    }

    /// Takes `amount` from the global total, or fails and changes nothing.
    pub fn debit_total(&mut self, amount: u64) -> (res: Result<(), ErrorCode>)
        ensures
            match old(self).debited(amount) {
                Ok(next) => res == Ok::<(), ErrorCode>(()) && *final(self) == next,
                Err(e) => res == Err::<(), ErrorCode>(e) && *final(self) == *old(self),
            },
    {
        match self.total_staked.checked_sub(amount) {
            Some(total) => {
                self.total_staked = total;
                Ok(())
            },
            None => Err(ErrorCode::ArithmeticUnderflow),
        }
    }
}

impl StakeInfo {
    /// A record that no stake has touched yet.
    pub open spec fn is_fresh(&self) -> bool {
        self.owner.is_default()
    }

    /// Whether the record is `user`'s record for `mint`.
    pub open spec fn belongs_to(&self, user: Pubkey, mint: Pubkey) -> bool {
        self.owner == user && self.mint == mint
    }

    /// The zeroed record that storage hands out before the first stake.
    pub fn empty() -> (res: StakeInfo)
        ensures
            res.is_fresh(),
            res.mint.is_default(),
            res.total_staked == 0,
            res.in_game_balance == 0,
            res.vault_bump == 0,
            res.last_update == 0,
    {
        StakeInfo {
            owner: Pubkey::default(),
            mint: Pubkey::default(),
            total_staked: 0,
            in_game_balance: 0,
            vault_bump: 0,
            last_update: 0,
        }
    }
}

} // verus!
