//! What holds of the ledger across operations.

use vstd::prelude::*;
use crate::balance::{update_outcome, UpdateInGameBalance};
use crate::error::ErrorCode;
use crate::stake::{stake_outcome, Stake};
use crate::state::{GlobalState, StakeInfo};
use crate::unstake::{staked_portion, unstake_outcome, Unstake};

verus! {

/// The principal that a collection of records holds in escrow.
pub open spec fn total_principal(records: Seq<StakeInfo>) -> int
    decreases records.len(),
{
    if records.len() == 0 {
        0
    } else {
        total_principal(records.drop_last()) + records.last().total_staked
    }
}

/// The global total is the sum of the principal of all records.
pub open spec fn balanced(global: GlobalState, records: Seq<StakeInfo>) -> bool {
    global.total_staked == total_principal(records)
}

/// Replacing one record changes the sum by the difference of its principal.
pub proof fn lemma_total_principal_update(records: Seq<StakeInfo>, i: int, record: StakeInfo)
    requires
        0 <= i < records.len(),
    ensures
        total_principal(records.update(i, record)) == total_principal(records)
            - records[i].total_staked + record.total_staked,
    decreases records.len(),
{
    let updated = records.update(i, record);
    if i == records.len() - 1 {
        assert(updated.drop_last() =~= records.drop_last());
    } else {
        lemma_total_principal_update(records.drop_last(), i, record);
        assert(updated.drop_last() =~= records.drop_last().update(i, record));
    }
}

/// A new ledger balances with no records, and a balanced ledger still
/// balances when a record without principal joins it.
pub proof fn law_new_ledger_and_new_record_balance(
    global: GlobalState,
    records: Seq<StakeInfo>,
    record: StakeInfo,
)
    ensures
        global.total_staked == 0 ==> balanced(global, Seq::<StakeInfo>::empty()),
        balanced(global, records) && record.total_staked == 0 ==> balanced(
            global,
            records.push(record),
        ),
{
    assert(records.push(record).drop_last() =~= records);
}

/// A deposit that is accepted keeps the ledger balanced: the global total
/// and the sum over all records rise by the same amount.
pub proof fn law_stake_keeps_balance(
    ctx: Stake,
    derived: Option<(Seq<u8>, u8)>,
    amount: u64,
    now: i64,
    records: Seq<StakeInfo>,
    i: int,
)
    requires
        0 <= i < records.len(),
        records[i] == ctx.stake_info,
        balanced(ctx.global_state, records),
    ensures
        stake_outcome(ctx, derived, amount, now) matches Ok(p) ==> balanced(
            p.next.global_state,
            records.update(i, p.next.stake_info),
        ),
{
    if let Ok(p) = stake_outcome(ctx, derived, amount, now) {
        lemma_total_principal_update(records, i, p.next.stake_info);
    }
}

/// A withdrawal that is accepted keeps the ledger balanced: the global
/// total and the sum over all records fall by the principal returned.
pub proof fn law_unstake_keeps_balance(
    ctx: Unstake,
    derived: Option<(Seq<u8>, u8)>,
    amount: u64,
    now: i64,
    records: Seq<StakeInfo>,
    i: int,
)
    requires
        0 <= i < records.len(),
        records[i] == ctx.stake_info,
        balanced(ctx.global_state, records),
    ensures
        unstake_outcome(ctx, derived, amount, now) matches Ok(p) ==> balanced(
            p.next.global_state,
            records.update(i, p.next.stake_info),
        ),
{
    if let Ok(p) = unstake_outcome(ctx, derived, amount, now) {
        lemma_total_principal_update(records, i, p.next.stake_info);
    }
}

/// An adjustment of a usable balance keeps the ledger balanced: it touches
/// no principal.
pub proof fn law_update_keeps_balance(
    ctx: UpdateInGameBalance,
    user: crate::pubkey::Pubkey,
    new_balance: u64,
    now: i64,
    records: Seq<StakeInfo>,
    i: int,
)
    requires
        0 <= i < records.len(),
        records[i] == ctx.user_stake,
        balanced(ctx.global_state, records),
    ensures
        update_outcome(ctx, user, new_balance, now) matches Ok(record) ==> balanced(
            ctx.global_state,
            records.update(i, record),
        ),
{
    if let Ok(record) = update_outcome(ctx, user, new_balance, now) {
        lemma_total_principal_update(records, i, record);
    }
}

/// No accepted operation wraps: after a withdrawal the principal, the
/// usable balance and the global total are the exact differences, none of
/// them below zero, and after a deposit the exact sums.
pub proof fn law_balances_never_negative(
    stake: Stake,
    unstake: Unstake,
    derived: Option<(Seq<u8>, u8)>,
    amount: u64,
    now: i64,
)
    ensures
        unstake_outcome(unstake, derived, amount, now) matches Ok(p) ==> {
            let portion = staked_portion(unstake.stake_info.total_staked, amount);
            &&& 0 <= unstake.stake_info.total_staked - portion
                == p.next.stake_info.total_staked
            &&& 0 <= unstake.stake_info.in_game_balance - amount
                == p.next.stake_info.in_game_balance
            &&& 0 <= unstake.global_state.total_staked - portion
                == p.next.global_state.total_staked
        },
        stake_outcome(stake, derived, amount, now) matches Ok(p) ==> {
            &&& p.next.stake_info.total_staked == stake.stake_info.total_staked + amount
            &&& p.next.global_state.total_staked == stake.global_state.total_staked + amount
            &&& p.next.stake_info.in_game_balance >= 0
        },
{
}

/// The withdrawal that may follow a deposit: the same user, asset, vault
/// and records as the deposit left them.
pub open spec fn unstake_after(staked: Stake) -> Unstake {
    Unstake {
        user: staked.user,
        user_token_account: staked.user_token_account,
        mint: staked.mint,
        vault_authority: staked.vault_authority,
        vault_account: staked.vault_account,
        stake_info: staked.stake_info,
        global_state: staked.global_state,
    }
}

/// A deposit of an amount followed at once by an accepted withdrawal of the
/// same amount returns the user's principal and the global total to what
/// they were, and the whole withdrawal counts as principal. The usable
/// balance does not come back: a deposit leaves it alone and the withdrawal
/// lowers it by the amount. After a first deposit the usable balance is
/// zero, so the withdrawal is refused until the operator raises it.
pub proof fn law_stake_then_unstake(
    ctx: Stake,
    derived: Option<(Seq<u8>, u8)>,
    amount: u64,
    staked_at: i64,
    unstaked_at: i64,
)
    ensures
        stake_outcome(ctx, derived, amount, staked_at) matches Ok(p) ==> {
            let back = unstake_outcome(unstake_after(p.next), derived, amount, unstaked_at);
            &&& back matches Ok(q) ==> {
                &&& q.next.stake_info.total_staked == ctx.stake_info.total_staked
                &&& q.next.global_state.total_staked == ctx.global_state.total_staked
                &&& q.event.staked_portion == amount
                &&& q.event.reward_portion == 0
                &&& q.next.stake_info.in_game_balance == ctx.stake_info.in_game_balance - amount
                &&& !ctx.stake_info.is_fresh()
            }
            &&& ctx.stake_info.is_fresh() ==> back == Err::<
                crate::transfer::Pending<Unstake, crate::events::UnstakeEvent>,
                ErrorCode,
            >(ErrorCode::InsufficientBalance)
            &&& !ctx.stake_info.is_fresh() && ctx.stake_info.in_game_balance >= amount
                && derived == Some((ctx.vault_authority@, ctx.stake_info.vault_bump))
                ==> back is Ok
        },
{
}

/// The first deposit stores the bump seed of the derivation that it was
/// accepted under, so that a later withdrawal which derives the same
/// authority again passes the custody test.
pub proof fn law_first_stake_fixes_custody(
    ctx: Stake,
    derived: Option<(Seq<u8>, u8)>,
    amount: u64,
    now: i64,
)
    requires
        ctx.stake_info.is_fresh(),
    ensures
        stake_outcome(ctx, derived, amount, now) matches Ok(p) ==> derived == Some(
            (p.next.vault_authority@, p.next.stake_info.vault_bump),
        ),
{
}

/// Once a record has an owner, no accepted operation changes its owner, its
/// asset or its bump seed.
pub proof fn law_owner_and_asset_are_fixed(
    stake: Stake,
    unstake: Unstake,
    update: UpdateInGameBalance,
    derived: Option<(Seq<u8>, u8)>,
    user: crate::pubkey::Pubkey,
    amount: u64,
    now: i64,
)
    ensures
        !stake.stake_info.is_fresh() ==> (stake_outcome(stake, derived, amount, now) matches Ok(
            p,
        ) ==> same_identity(stake.stake_info, p.next.stake_info)),
        unstake_outcome(unstake, derived, amount, now) matches Ok(p) ==> same_identity(
            unstake.stake_info,
            p.next.stake_info,
        ),
        update_outcome(update, user, amount, now) matches Ok(record) ==> same_identity(
            update.user_stake,
            record,
        ),
{
}

/// Two states of a record with the same owner, asset and bump seed.
pub open spec fn same_identity(before: StakeInfo, after: StakeInfo) -> bool {
    before.owner == after.owner && before.mint == after.mint && before.vault_bump
        == after.vault_bump
}

} // verus!
