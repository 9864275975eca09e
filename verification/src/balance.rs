//! The operator's adjustment of a user's usable balance.
//!
//! The new balance overwrites the old one. It is not held against the
//! principal: spending off the ledger may leave it below, earnings above.

use vstd::prelude::*;
use crate::error::ErrorCode;
use crate::events::InGameBalanceUpdated;
use crate::pubkey::Pubkey;
use crate::state::{GlobalState, StakeInfo};

verus! {

/// What an adjustment works on.
#[derive(Clone, Copy, Debug, PartialEq, Eq)]
pub struct UpdateInGameBalance {
    /// The caller.
    pub authority: Pubkey,
    pub user_stake: StakeInfo,
    pub global_state: GlobalState,
}

/// What setting `user`'s usable balance to `new_balance` at `now` comes to:
/// the record afterwards, or why the call is refused.
pub open spec fn update_outcome(
    ctx: UpdateInGameBalance,
    user: Pubkey,
    new_balance: u64,
    now: i64,
) -> Result<StakeInfo, ErrorCode> {
    if ctx.authority != ctx.global_state.authority {
        Err(ErrorCode::UnauthorizedAuthority)
    } else if user != ctx.user_stake.owner {
        Err(ErrorCode::InvalidUser)
    } else {
        Ok(StakeInfo { in_game_balance: new_balance, last_update: now, ..ctx.user_stake })
    }
}

/// Sets the usable balance of `user`'s record to `new_balance`. Only the
/// operator may do so, and only on the record of the user named. A refused
/// call changes nothing.
pub fn update_in_game_balance(
    ctx: &mut UpdateInGameBalance,
    user: Pubkey,
    new_balance: u64,
    now: i64,
) -> (res: Result<InGameBalanceUpdated, ErrorCode>)
    ensures
        match update_outcome(*old(ctx), user, new_balance, now) {
            Ok(record) => {
                &&& *final(ctx) == UpdateInGameBalance { user_stake: record, ..*old(ctx) }
                &&& res == Ok::<InGameBalanceUpdated, ErrorCode>(
                    InGameBalanceUpdated {
                        user,
                        new_balance,
                        total_staked: old(ctx).user_stake.total_staked,
                        timestamp: now,
                    },
                )
            },
            Err(e) => *final(ctx) == *old(ctx) && res == Err::<InGameBalanceUpdated, ErrorCode>(e),
        },
        old(ctx).authority != old(ctx).global_state.authority ==> {
            &&& res == Err::<InGameBalanceUpdated, ErrorCode>(ErrorCode::UnauthorizedAuthority)
            &&& *final(ctx) == *old(ctx)
        },
        final(ctx).user_stake.total_staked == old(ctx).user_stake.total_staked,
        final(ctx).global_state == old(ctx).global_state,
{
    if !(ctx.authority == ctx.global_state.authority) {
        return Err(ErrorCode::UnauthorizedAuthority);
    }
    if !(user == ctx.user_stake.owner) {
        return Err(ErrorCode::InvalidUser);
    }
    ctx.user_stake.in_game_balance = new_balance;
    ctx.user_stake.last_update = now;
    Ok(
        InGameBalanceUpdated {
            user,
            new_balance,
            total_staked: ctx.user_stake.total_staked,
            timestamp: now,
        },
    )
}

} // verus!
