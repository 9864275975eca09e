//! Creation of an asset's pooled vault.

use vstd::prelude::*;
use crate::custody::{
    authority_view,
    find_vault_authority,
    is_authority,
    vault_authority_of,
    VaultAuthority,
};
use crate::error::ErrorCode;
use crate::events::VaultCreated;
use crate::pubkey::Pubkey;

verus! {

/// What the creation of a vault works on.
#[derive(Clone, Copy, Debug, PartialEq, Eq)]
pub struct CreateVault {
    /// Who pays for the new token account.
    pub payer: Pubkey,
    pub mint: Pubkey,
    /// The new token account.
    pub vault_account: Pubkey,
    /// The authority that is to control it.
    pub vault_authority: Pubkey,
}

/// What the creation of a vault at `now` comes to, given what the vault
/// derivation gave: a vault is only ever handed to the derived authority.
pub open spec fn vault_outcome(ctx: CreateVault, derived: Option<(Seq<u8>, u8)>, now: i64) -> Result<
    VaultCreated,
    ErrorCode,
> {
    if is_authority(derived, ctx.vault_authority) {
        Ok(VaultCreated { mint: ctx.mint, vault: ctx.vault_account, timestamp: now })
    } else {
        Err(ErrorCode::InvalidVaultAuthority)
    }
}

/// Records the creation of a vault, given the vault authority that was
/// derived for the asset.
pub fn create_vault_with_custody(ctx: &CreateVault, custody: Option<VaultAuthority>, now: i64) -> (res:
    Result<VaultCreated, ErrorCode>)
    ensures
        res == vault_outcome(*ctx, authority_view(custody), now),
{
    match custody {
        Some(found) => {
            proof {
                crate::pubkey::lemma_pubkey_by_bytes(found.address, ctx.vault_authority);
            }
            if found.address == ctx.vault_authority {
                Ok(VaultCreated { mint: ctx.mint, vault: ctx.vault_account, timestamp: now })
            } else {
                Err(ErrorCode::InvalidVaultAuthority)
            }
        },
        None => Err(ErrorCode::InvalidVaultAuthority),
    }
}

/// Records the creation of the vault of `ctx.mint`: derives the vault
/// authority of the asset under `program_id` and goes on as
/// [`create_vault_with_custody`] does.
pub fn create_vault(ctx: &CreateVault, now: i64, program_id: &Pubkey) -> (res: Result<
    VaultCreated,
    ErrorCode,
>)
    ensures
        res == vault_outcome(*ctx, vault_authority_of(ctx.mint, *program_id), now),
{
    let custody = find_vault_authority(&ctx.mint, program_id);
    create_vault_with_custody(ctx, custody, now)
}

} // verus!
