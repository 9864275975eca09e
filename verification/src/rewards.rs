//! Funding of a vault with rewards by the operator.

use vstd::prelude::*;
use crate::custody::{
    authority_view,
    find_vault_authority,
    is_authority,
    vault_authority_of,
    VaultAuthority,
};
use crate::error::ErrorCode;
use crate::events::RewardsDeposited;
use crate::pubkey::Pubkey;
use crate::state::GlobalState;
use crate::transfer::{Pending, Transfer};

verus! {

/// What a deposit of rewards works on.
#[derive(Clone, Copy, Debug, PartialEq, Eq)]
pub struct DepositRewards {
    /// The caller, who authorizes the transfer.
    pub authority: Pubkey,
    /// The token account that the rewards leave.
    pub authority_token_account: Pubkey,
    pub mint: Pubkey,
    /// The authority that controls the vault.
    pub vault_authority: Pubkey,
    /// The pooled vault of `mint`.
    pub vault_account: Pubkey,
    pub global_state: GlobalState,
}

impl DepositRewards {
    /// The order that moves `amount` from the operator into the vault, on
    /// the operator's own authority.
    pub open spec fn transfer_in(self, amount: u64) -> Transfer {
        Transfer {
            from: self.authority_token_account,
            to: self.vault_account,
            authority: self.authority,
            amount,
            signer: None,
        }
    }
}

/// What a deposit of `amount` of rewards at `now` comes to, given what the
/// vault derivation gave. No record changes: the pending state is the
/// present one.
pub open spec fn deposit_outcome(
    ctx: DepositRewards,
    derived: Option<(Seq<u8>, u8)>,
    amount: u64,
    now: i64,
) -> Result<Pending<DepositRewards, RewardsDeposited>, ErrorCode> {
    if amount == 0 {
        Err(ErrorCode::InvalidAmount)
    } else if ctx.authority != ctx.global_state.authority {
        Err(ErrorCode::UnauthorizedAuthority)
    } else if !is_authority(derived, ctx.vault_authority) {
        Err(ErrorCode::InvalidVaultAuthority)
    } else {
        Ok(
            Pending {
                transfer: ctx.transfer_in(amount),
                next: ctx,
                event: RewardsDeposited { authority: ctx.authority, amount, timestamp: now },
            },
        )
    }
}

/// Decides a deposit of `amount` of rewards, given the vault authority that
/// was derived for the asset.
pub fn deposit_with_custody(
    ctx: &DepositRewards,
    custody: Option<VaultAuthority>,
    amount: u64,
    now: i64,
) -> (res: Result<Pending<DepositRewards, RewardsDeposited>, ErrorCode>)
    ensures
        res == deposit_outcome(*ctx, authority_view(custody), amount, now),
        amount > 0 && ctx.authority != ctx.global_state.authority ==> res == Err::<
            Pending<DepositRewards, RewardsDeposited>,
            ErrorCode,
        >(ErrorCode::UnauthorizedAuthority),
        res matches Ok(p) ==> p.next == *ctx && p.transfer.amount == amount,
{
    if amount == 0 {
        return Err(ErrorCode::InvalidAmount);
    }
    if !(ctx.authority == ctx.global_state.authority) {
        return Err(ErrorCode::UnauthorizedAuthority);
    }
    match custody {
        Some(found) => {
            proof {
                crate::pubkey::lemma_pubkey_by_bytes(found.address, ctx.vault_authority);
            }
            if !(found.address == ctx.vault_authority) {
                return Err(ErrorCode::InvalidVaultAuthority);
            }
        },
        None => {
            return Err(ErrorCode::InvalidVaultAuthority);
        },
    }
    Ok(
        Pending {
            transfer: Transfer {
                from: ctx.authority_token_account,
                to: ctx.vault_account,
                authority: ctx.authority,
                amount,
                signer: None,
            },
            next: *ctx,
            event: RewardsDeposited { authority: ctx.authority, amount, timestamp: now },
        },
    )
}

/// Decides a deposit of `amount` of rewards by the operator: derives the
/// vault authority of the asset under `program_id` and goes on as
/// [`deposit_with_custody`] does.
pub fn deposit_rewards(ctx: &DepositRewards, amount: u64, now: i64, program_id: &Pubkey) -> (res:
    Result<Pending<DepositRewards, RewardsDeposited>, ErrorCode>)
    ensures
        res == deposit_outcome(*ctx, vault_authority_of(ctx.mint, *program_id), amount, now),
        amount > 0 && ctx.authority != ctx.global_state.authority ==> res == Err::<
            Pending<DepositRewards, RewardsDeposited>,
            ErrorCode,
        >(ErrorCode::UnauthorizedAuthority),
{
    let custody = find_vault_authority(&ctx.mint, program_id);
    deposit_with_custody(ctx, custody, amount, now)
}

} // verus!
