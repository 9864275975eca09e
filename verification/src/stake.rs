//! Deposit into escrow.
//!
//! A user moves tokens from an account of their own into the asset's pooled
//! vault. The first stake fixes the record's owner, asset and vault bump
//! seed; every stake raises the user's principal and the global total by the
//! amount.

use vstd::prelude::*;
use crate::custody::{authority_view, find_vault_authority, vault_authority_of, VaultAuthority};
use crate::error::ErrorCode;
use crate::events::StakeEvent;
use crate::pubkey::Pubkey;
use crate::state::{GlobalState, StakeInfo};
use crate::transfer::{Pending, Transfer};

verus! {

/// What a deposit works on.
#[derive(Clone, Copy, Debug, PartialEq, Eq)]
pub struct Stake {
    /// The caller, who authorizes the transfer.
    pub user: Pubkey,
    /// The token account that the deposit leaves.
    pub user_token_account: Pubkey,
    pub mint: Pubkey,
    /// The authority that controls the vault.
    pub vault_authority: Pubkey,
    /// The pooled vault of `mint`.
    pub vault_account: Pubkey,
    pub stake_info: StakeInfo,
    pub global_state: GlobalState,
}

impl Stake {
    /// The record is still fresh, or it is the caller's record for this asset.
    pub open spec fn may_stake(self) -> bool {
        self.stake_info.is_fresh() || self.stake_info.belongs_to(self.user, self.mint)
    }

    /// The record after a deposit of `amount` at `now`. A fresh record takes
    /// the caller as its owner, the asset, the bump seed `bump` and a usable
    /// balance of zero.
    pub open spec fn record_after(self, bump: u8, amount: u64, now: i64) -> StakeInfo {
        if self.stake_info.is_fresh() {
            StakeInfo {
                owner: self.user,
                mint: self.mint,
                total_staked: (self.stake_info.total_staked + amount) as u64,
                in_game_balance: 0,
                vault_bump: bump,
                last_update: now,
            }
        } else {
            StakeInfo {
                total_staked: (self.stake_info.total_staked + amount) as u64,
                last_update: now,
                ..self.stake_info
            }
        }
    }

    /// The global ledger after a deposit of `amount`.
    pub open spec fn global_after(self, amount: u64) -> GlobalState {
        GlobalState {
            total_staked: (self.global_state.total_staked + amount) as u64,
            ..self.global_state
        }
    }

    /// The order that moves `amount` from the user into the vault, on the
    /// user's own authority.
    pub open spec fn transfer_in(self, amount: u64) -> Transfer {
        Transfer {
            from: self.user_token_account,
            to: self.vault_account,
            authority: self.user,
            amount,
            signer: None,
        }
    }
}

/// What a deposit of `amount` at `now` comes to, given what the vault
/// derivation gave. The checks stand in the order in which they are made.
pub open spec fn stake_outcome(
    ctx: Stake,
    derived: Option<(Seq<u8>, u8)>,
    amount: u64,
    now: i64,
) -> Result<Pending<Stake, StakeEvent>, ErrorCode> {
    if amount == 0 {
        Err(ErrorCode::InvalidAmount)
    } else if ctx.stake_info.total_staked + amount > u64::MAX {
        Err(ErrorCode::Overflow)
    } else if ctx.global_state.total_staked + amount > u64::MAX {
        Err(ErrorCode::Overflow)
    } else if !ctx.may_stake() {
        Err(ErrorCode::InvalidUser)
    } else {
        match derived {
            Some((address, bump)) if address == ctx.vault_authority@ => Ok(
                Pending {
                    transfer: ctx.transfer_in(amount),
                    next: Stake {
                        stake_info: ctx.record_after(bump, amount, now),
                        global_state: ctx.global_after(amount),
                        ..ctx
                    },
                    event: StakeEvent {
                        user: ctx.user,
                        amount,
                        total_staked: ctx.record_after(bump, amount, now).total_staked,
                        timestamp: now,
                    },
                },
            ),
            _ => Err(ErrorCode::InvalidVaultAuthority),
        }
    }
}

/// Decides a deposit of `amount`, given the vault authority that was derived
/// for the asset. Nothing changes until the result is settled.
pub fn stake_with_custody(
    ctx: &Stake,
    custody: Option<VaultAuthority>,
    amount: u64,
    now: i64,
) -> (res: Result<Pending<Stake, StakeEvent>, ErrorCode>)
    ensures
        res == stake_outcome(*ctx, authority_view(custody), amount, now),
        amount == 0 ==> res == Err::<Pending<Stake, StakeEvent>, ErrorCode>(
            ErrorCode::InvalidAmount,
        ),
        amount > 0 && (ctx.stake_info.total_staked + amount > u64::MAX
            || ctx.global_state.total_staked + amount > u64::MAX) ==> res == Err::<
            Pending<Stake, StakeEvent>,
            ErrorCode,
        >(ErrorCode::Overflow),
        res matches Ok(p) ==> {
            &&& p.transfer.amount == amount
            &&& p.next.stake_info.total_staked == ctx.stake_info.total_staked + amount
            &&& p.next.global_state.total_staked == ctx.global_state.total_staked + amount
            &&& p.next.stake_info.belongs_to(ctx.user, ctx.mint)
        },
{
    if amount == 0 {
        return Err(ErrorCode::InvalidAmount);
    }
    let total_staked: u64 = match ctx.stake_info.total_staked.checked_add(amount) {
        Some(v) => v,
        None => {
            return Err(ErrorCode::Overflow);
        },
    };
    let mut global_state = ctx.global_state;
    match global_state.credit_total(amount) {
        Ok(()) => {},
        Err(e) => {
            return Err(e);
        },
    }
    let fresh = ctx.stake_info.owner.is_unset();
    if !fresh && !(ctx.stake_info.owner == ctx.user && ctx.stake_info.mint == ctx.mint) {
        return Err(ErrorCode::InvalidUser);
    }
    let bump: u8 = match custody {
        Some(found) => {
            proof {
                crate::pubkey::lemma_pubkey_by_bytes(found.address, ctx.vault_authority);
            }
            if found.address == ctx.vault_authority {
                found.bump
            } else {
                return Err(ErrorCode::InvalidVaultAuthority);
            }
        },
        None => {
            return Err(ErrorCode::InvalidVaultAuthority);
        },
    };
    let stake_info = if fresh {
        StakeInfo {
            owner: ctx.user,
            mint: ctx.mint,
            total_staked,
            in_game_balance: 0,
            vault_bump: bump,
            last_update: now,
        }
    } else {
        StakeInfo {
            owner: ctx.stake_info.owner,
            mint: ctx.stake_info.mint,
            total_staked,
            in_game_balance: ctx.stake_info.in_game_balance,
            vault_bump: ctx.stake_info.vault_bump,
            last_update: now,
        }
    };
    Ok(
        Pending {
            transfer: Transfer {
                from: ctx.user_token_account,
                to: ctx.vault_account,
                authority: ctx.user,
                amount,
                signer: None,
            },
            next: Stake {
                user: ctx.user,
                user_token_account: ctx.user_token_account,
                mint: ctx.mint,
                vault_authority: ctx.vault_authority,
                vault_account: ctx.vault_account,
                stake_info,
                global_state,
            },
            event: StakeEvent { user: ctx.user, amount, total_staked, timestamp: now },
        },
    )
}

/// Decides a deposit of `amount` into the user's record: derives the vault
/// authority of the asset under `program_id` and goes on as
/// [`stake_with_custody`] does.
pub fn stake_tokens(ctx: &Stake, amount: u64, now: i64, program_id: &Pubkey) -> (res: Result<
    Pending<Stake, StakeEvent>,
    ErrorCode,
>)
    ensures
        res == stake_outcome(*ctx, vault_authority_of(ctx.mint, *program_id), amount, now),
        amount == 0 ==> res == Err::<Pending<Stake, StakeEvent>, ErrorCode>(
            ErrorCode::InvalidAmount,
        ),
        amount > 0 && (ctx.stake_info.total_staked + amount > u64::MAX
            || ctx.global_state.total_staked + amount > u64::MAX) ==> res == Err::<
            Pending<Stake, StakeEvent>,
            ErrorCode,
        >(ErrorCode::Overflow),
{
    let custody = find_vault_authority(&ctx.mint, program_id);
    stake_with_custody(ctx, custody, amount, now)
}

} // verus!
