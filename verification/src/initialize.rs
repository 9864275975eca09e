//! Creation of the global ledger.

use vstd::prelude::*;
use crate::error::ErrorCode;
use crate::events::InitializeEvent;
use crate::pubkey::Pubkey;
use crate::state::GlobalState;

verus! {

/// What the creation of the ledger works on.
#[derive(Clone, Copy, Debug, PartialEq, Eq)]
pub struct Initialize {
    /// Who pays for the new record.
    pub payer: Pubkey,
    /// The place of the global ledger: `None` until it is created.
    pub global_state: Option<GlobalState>,
    /// The bump seed of the ledger's address.
    pub bump: u8,
}

/// Creates the global ledger with `authority` as its operator and nothing
/// staked. The ledger is created once: a second call fails with
/// `AlreadyInitialized` and changes nothing.
pub fn initialize(ctx: &mut Initialize, authority: Pubkey, now: i64) -> (res: Result<
    InitializeEvent,
    ErrorCode,
>)
    ensures
        old(ctx).global_state is Some ==> {
            &&& res == Err::<InitializeEvent, ErrorCode>(ErrorCode::AlreadyInitialized)
            &&& *final(ctx) == *old(ctx)
        },
        old(ctx).global_state is None ==> {
            &&& res == Ok::<InitializeEvent, ErrorCode>(
                InitializeEvent { authority, timestamp: now },
            )
            &&& *final(ctx) == Initialize {
                global_state: Some(
                    GlobalState { authority, total_staked: 0, bump: old(ctx).bump },
                ),
                ..*old(ctx)
            }
        },
{
    if ctx.global_state.is_some() {
        return Err(ErrorCode::AlreadyInitialized);
    }
    ctx.global_state = Some(GlobalState { authority, total_staked: 0, bump: ctx.bump });
    Ok(InitializeEvent { authority, timestamp: now })
}

} // verus!
