//! Withdrawal from escrow.
//!
//! The usable balance, not the principal, is the ceiling of a withdrawal.
//! Of the amount withdrawn, the first units up to the remaining principal
//! return principal; what exceeds it returns earnings.

use vstd::prelude::*;
use crate::custody::{authority_view, find_vault_authority, vault_authority_of, VaultAuthority};
use crate::error::ErrorCode;
use crate::events::UnstakeEvent;
use crate::pubkey::Pubkey;
use crate::state::{GlobalState, StakeInfo};
use crate::transfer::{Pending, Transfer, VaultSigner};

verus! {

/// What a withdrawal works on.
#[derive(Clone, Copy, Debug, PartialEq, Eq)]
pub struct Unstake {
    /// The caller.
    pub user: Pubkey,
    /// The token account that receives the withdrawal.
    pub user_token_account: Pubkey,
    pub mint: Pubkey,
    /// The authority that is to sign for the vault.
    pub vault_authority: Pubkey,
    /// The pooled vault of `mint`.
    pub vault_account: Pubkey,
    pub stake_info: StakeInfo,
    pub global_state: GlobalState,
}

/// The part of a withdrawal of `amount` that returns principal.
pub open spec fn staked_portion(total_staked: u64, amount: u64) -> u64 {
    if amount <= total_staked {
        amount
    } else {
        total_staked
    }
}

/// The part of a withdrawal of `amount` that returns earnings.
pub open spec fn reward_portion(total_staked: u64, amount: u64) -> u64 {
    (amount - staked_portion(total_staked, amount)) as u64
}

impl Unstake {
    /// The record after a withdrawal of `amount` at `now`.
    pub open spec fn record_after(self, amount: u64, now: i64) -> StakeInfo {
        StakeInfo {
            total_staked: (self.stake_info.total_staked - staked_portion(
                self.stake_info.total_staked,
                amount,
            )) as u64,
            in_game_balance: (self.stake_info.in_game_balance - amount) as u64,
            last_update: now,
            ..self.stake_info
        }
    }

    /// The global ledger after a withdrawal of `amount`.
    pub open spec fn global_after(self, amount: u64) -> GlobalState {
        GlobalState {
            total_staked: (self.global_state.total_staked - staked_portion(
                self.stake_info.total_staked,
                amount,
            )) as u64,
            ..self.global_state
        }
    }

    /// The order that moves `amount` out of the vault to the user, signed
    /// for by the derived vault authority.
    pub open spec fn transfer_out(self, amount: u64) -> Transfer {
        Transfer {
            from: self.vault_account,
            to: self.user_token_account,
            authority: self.vault_authority,
            amount,
            signer: Some(VaultSigner { mint: self.mint, bump: self.stake_info.vault_bump }),
        }
    }

    /// The event of a withdrawal of `amount` at `now`.
    pub open spec fn event_of(self, amount: u64, now: i64) -> UnstakeEvent {
        UnstakeEvent {
            user: self.user,
            amount,
            staked_portion: staked_portion(self.stake_info.total_staked, amount),
            reward_portion: reward_portion(self.stake_info.total_staked, amount),
            remaining_staked: self.record_after(amount, now).total_staked,
            timestamp: now,
        }
    }
}

/// What a withdrawal of `amount` at `now` comes to, given what the vault
/// derivation gave. The checks stand in the order in which they are made.
pub open spec fn unstake_outcome(
    ctx: Unstake,
    derived: Option<(Seq<u8>, u8)>,
    amount: u64,
    now: i64,
) -> Result<Pending<Unstake, UnstakeEvent>, ErrorCode> {
    if amount == 0 {
        Err(ErrorCode::InvalidAmount)
    } else if ctx.stake_info.in_game_balance < amount {
        Err(ErrorCode::InsufficientBalance)
    } else if ctx.global_state.total_staked < staked_portion(ctx.stake_info.total_staked, amount) {
        Err(ErrorCode::InsufficientStaked)
    } else if !ctx.stake_info.belongs_to(ctx.user, ctx.mint) {
        Err(ErrorCode::InvalidUser)
    } else if derived != Some((ctx.vault_authority@, ctx.stake_info.vault_bump)) {
        Err(ErrorCode::InvalidVaultAuthority)
    } else {
        Ok(
            Pending {
                transfer: ctx.transfer_out(amount),
                next: Unstake {
                    stake_info: ctx.record_after(amount, now),
                    global_state: ctx.global_after(amount),
                    ..ctx
                },
                event: ctx.event_of(amount, now),
            },
        )
    }
}

/// Decides a withdrawal of `amount`, given the vault authority that was
/// derived for the asset. Nothing changes until the result is settled.
pub fn unstake_with_custody(
    ctx: &Unstake,
    custody: Option<VaultAuthority>,
    amount: u64,
    now: i64,
) -> (res: Result<Pending<Unstake, UnstakeEvent>, ErrorCode>)
    ensures
        res == unstake_outcome(*ctx, authority_view(custody), amount, now),
        amount == 0 ==> res == Err::<Pending<Unstake, UnstakeEvent>, ErrorCode>(
            ErrorCode::InvalidAmount,
        ),
        amount > ctx.stake_info.in_game_balance ==> res == Err::<
            Pending<Unstake, UnstakeEvent>,
            ErrorCode,
        >(ErrorCode::InsufficientBalance),
        res matches Ok(p) ==> {
            &&& p.transfer.amount == amount
            &&& p.event.staked_portion + p.event.reward_portion == amount
            &&& p.next.stake_info.total_staked + p.event.staked_portion
                == ctx.stake_info.total_staked
            &&& p.next.stake_info.in_game_balance + amount == ctx.stake_info.in_game_balance
            &&& p.next.global_state.total_staked + p.event.staked_portion
                == ctx.global_state.total_staked
        },
{
    if amount == 0 {
        return Err(ErrorCode::InvalidAmount);
    }
    if ctx.stake_info.in_game_balance < amount {
        return Err(ErrorCode::InsufficientBalance);
    }
    let staked: u64 = if amount <= ctx.stake_info.total_staked {
        amount
    } else {
        ctx.stake_info.total_staked
    };
    let remaining: u64 = match ctx.stake_info.total_staked.checked_sub(staked) {
        Some(v) => v,
        None => {
            return Err(ErrorCode::InsufficientStaked);
        },
    };
    let balance: u64 = match ctx.stake_info.in_game_balance.checked_sub(amount) {
        Some(v) => v,
        None => {
            return Err(ErrorCode::InsufficientBalance);
        },
    };
    let mut global_state = ctx.global_state;
    match global_state.debit_total(staked) {
        Ok(()) => {},
        Err(_) => {
            return Err(ErrorCode::InsufficientStaked);
        },
    }
    if !(ctx.stake_info.owner == ctx.user && ctx.stake_info.mint == ctx.mint) {
        return Err(ErrorCode::InvalidUser);
    }
    let signer = match custody {
        Some(found) => {
            if found.address == ctx.vault_authority && found.bump == ctx.stake_info.vault_bump {
                VaultSigner { mint: ctx.mint, bump: found.bump }
            } else {
                proof {
                    crate::pubkey::lemma_pubkey_by_bytes(found.address, ctx.vault_authority);
                }
                return Err(ErrorCode::InvalidVaultAuthority);
            }
        },
        None => {
            return Err(ErrorCode::InvalidVaultAuthority);
        },
    };
    let reward: u64 = match amount.checked_sub(staked) {
        Some(v) => v,
        None => 0,
    };
    let stake_info = StakeInfo {
        owner: ctx.stake_info.owner,
        mint: ctx.stake_info.mint,
        total_staked: remaining,
        in_game_balance: balance,
        vault_bump: ctx.stake_info.vault_bump,
        last_update: now,
    };
    Ok(
        Pending {
            transfer: Transfer {
                from: ctx.vault_account,
                to: ctx.user_token_account,
                authority: ctx.vault_authority,
                amount,
                signer: Some(signer),
            },
            next: Unstake {
                user: ctx.user,
                user_token_account: ctx.user_token_account,
                mint: ctx.mint,
                vault_authority: ctx.vault_authority,
                vault_account: ctx.vault_account,
                stake_info,
                global_state,
            },
            event: UnstakeEvent {
                user: ctx.user,
                amount,
                staked_portion: staked,
                reward_portion: reward,
                remaining_staked: remaining,
                timestamp: now,
            },
        },
    )
}

/// Decides a withdrawal of `amount` from the user's record: derives the
/// vault authority of the asset again under `program_id` and goes on as
/// [`unstake_with_custody`] does.
pub fn unstake_tokens(ctx: &Unstake, amount: u64, now: i64, program_id: &Pubkey) -> (res: Result<
    Pending<Unstake, UnstakeEvent>,
    ErrorCode,
>)
    ensures
        res == unstake_outcome(*ctx, vault_authority_of(ctx.mint, *program_id), amount, now),
        amount == 0 ==> res == Err::<Pending<Unstake, UnstakeEvent>, ErrorCode>(
            ErrorCode::InvalidAmount,
        ),
        amount > ctx.stake_info.in_game_balance ==> res == Err::<
            Pending<Unstake, UnstakeEvent>,
            ErrorCode,
        >(ErrorCode::InsufficientBalance),
{
    let custody = find_vault_authority(&ctx.mint, program_id);
    unstake_with_custody(ctx, custody, amount, now)
}

} // verus!
