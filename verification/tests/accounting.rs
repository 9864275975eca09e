use staking::custody::{find_vault_authority, VaultAuthority};
use staking::stake::stake_with_custody;
use staking::transfer::{settle, Pending, Transfer, TransferOutcome, VaultSigner};
use staking::unstake::unstake_with_custody;
use staking::{
    stake_tokens, unstake_tokens, ErrorCode, GlobalState, Pubkey, Stake, StakeEvent, StakeInfo,
    Unstake, UnstakeEvent,
};

fn key(byte: u8) -> Pubkey {
    Pubkey::new_from_array([byte; 32])
}

fn program() -> Pubkey {
    key(9)
}

fn custody(mint: &Pubkey) -> VaultAuthority {
    find_vault_authority(mint, &program()).expect("a vault authority exists")
}

fn global(total_staked: u64) -> GlobalState {
    GlobalState { authority: key(1), total_staked, bump: 255 }
}

fn record(total_staked: u64, in_game_balance: u64) -> StakeInfo {
    StakeInfo {
        owner: key(2),
        mint: key(3),
        total_staked,
        in_game_balance,
        vault_bump: custody(&key(3)).bump,
        last_update: 10,
    }
}

fn stake_ctx(stake_info: StakeInfo, global_state: GlobalState) -> Stake {
    Stake {
        user: key(2),
        user_token_account: key(4),
        mint: key(3),
        vault_authority: custody(&key(3)).address,
        vault_account: key(5),
        stake_info,
        global_state,
    }
}

fn unstake_ctx(stake_info: StakeInfo, global_state: GlobalState) -> Unstake {
    Unstake {
        user: key(2),
        user_token_account: key(4),
        mint: key(3),
        vault_authority: custody(&key(3)).address,
        vault_account: key(5),
        stake_info,
        global_state,
    }
}

fn after_stake(ctx: &Stake) -> Unstake {
    Unstake {
        user: ctx.user,
        user_token_account: ctx.user_token_account,
        mint: ctx.mint,
        vault_authority: ctx.vault_authority,
        vault_account: ctx.vault_account,
        stake_info: ctx.stake_info,
        global_state: ctx.global_state,
    }
}

#[test]
fn first_stake_fixes_the_record() {
    let ctx = stake_ctx(StakeInfo::empty(), global(500));
    let pending = stake_tokens(&ctx, 100, 77, &program()).unwrap();
    assert_eq!(
        pending.transfer,
        Transfer { from: key(4), to: key(5), authority: key(2), amount: 100, signer: None }
    );
    assert_eq!(
        pending.next.stake_info,
        StakeInfo {
            owner: key(2),
            mint: key(3),
            total_staked: 100,
            in_game_balance: 0,
            vault_bump: custody(&key(3)).bump,
            last_update: 77,
        }
    );
    assert_eq!(pending.next.global_state, global(600));
    assert_eq!(
        pending.event,
        StakeEvent { user: key(2), amount: 100, total_staked: 100, timestamp: 77 }
    );
}

#[test]
fn later_stake_adds_to_principal_and_keeps_the_rest() {
    let ctx = stake_ctx(record(40, 25), global(40));
    let pending = stake_tokens(&ctx, 60, 11, &program()).unwrap();
    assert_eq!(pending.next.stake_info, StakeInfo { total_staked: 100, last_update: 11, ..record(40, 25) });
    assert_eq!(pending.next.global_state.total_staked, 100);
    assert_eq!(pending.event.total_staked, 100);
}

#[test]
fn stake_of_zero_is_invalid_amount() {
    let ctx = stake_ctx(record(40, 25), global(40));
    assert_eq!(stake_tokens(&ctx, 0, 11, &program()), Err(ErrorCode::InvalidAmount));
    let fresh = stake_ctx(StakeInfo::empty(), global(0));
    assert_eq!(stake_tokens(&fresh, 0, 11, &program()), Err(ErrorCode::InvalidAmount));
}

#[test]
fn unstake_of_zero_is_invalid_amount() {
    let ctx = unstake_ctx(record(40, 100), global(40));
    assert_eq!(unstake_tokens(&ctx, 0, 11, &program()), Err(ErrorCode::InvalidAmount));
}

#[test]
fn stake_past_the_record_maximum_overflows() {
    let ctx = stake_ctx(record(u64::MAX - 5, 0), global(0));
    assert_eq!(stake_tokens(&ctx, 6, 1, &program()), Err(ErrorCode::Overflow));
    let pending = stake_tokens(&ctx, 5, 1, &program()).unwrap();
    assert_eq!(pending.next.stake_info.total_staked, u64::MAX);
}

#[test]
fn stake_past_the_global_maximum_overflows() {
    let ctx = stake_ctx(record(1, 0), global(u64::MAX));
    assert_eq!(stake_tokens(&ctx, 1, 1, &program()), Err(ErrorCode::Overflow));
    let mut state = ctx;
    assert_eq!(state.global_state.credit_total(1), Err(ErrorCode::Overflow));
    assert_eq!(state, ctx);
}

#[test]
fn unstake_splits_principal_and_earnings() {
    let ctx = unstake_ctx(record(40, 100), global(1000));
    let pending = unstake_tokens(&ctx, 70, 99, &program()).unwrap();
    assert_eq!(
        pending.event,
        UnstakeEvent {
            user: key(2),
            amount: 70,
            staked_portion: 40,
            reward_portion: 30,
            remaining_staked: 0,
            timestamp: 99,
        }
    );
    assert_eq!(pending.next.stake_info.total_staked, 0);
    assert_eq!(pending.next.stake_info.in_game_balance, 30);
    assert_eq!(pending.next.stake_info.last_update, 99);
    assert_eq!(pending.next.global_state.total_staked, 960);
    assert_eq!(
        pending.transfer,
        Transfer {
            from: key(5),
            to: key(4),
            authority: custody(&key(3)).address,
            amount: 70,
            signer: Some(VaultSigner { mint: key(3), bump: custody(&key(3)).bump }),
        }
    );
}

#[test]
fn unstake_within_principal_is_all_principal() {
    let ctx = unstake_ctx(record(100, 100), global(100));
    let pending = unstake_tokens(&ctx, 30, 1, &program()).unwrap();
    assert_eq!(pending.event.staked_portion, 30);
    assert_eq!(pending.event.reward_portion, 0);
    assert_eq!(pending.next.stake_info.total_staked, 70);
    assert_eq!(pending.next.stake_info.in_game_balance, 70);
    assert_eq!(pending.next.global_state.total_staked, 70);
}

#[test]
fn unstake_above_usable_balance_is_insufficient_balance() {
    let ctx = unstake_ctx(record(100, 30), global(100));
    assert_eq!(unstake_tokens(&ctx, 31, 1, &program()), Err(ErrorCode::InsufficientBalance));
    assert!(unstake_tokens(&ctx, 30, 1, &program()).is_ok());
}

#[test]
fn unstake_against_a_short_global_total_is_insufficient_staked() {
    let ctx = unstake_ctx(record(40, 100), global(39));
    assert_eq!(unstake_tokens(&ctx, 70, 1, &program()), Err(ErrorCode::InsufficientStaked));
}

#[test]
fn debit_below_zero_is_arithmetic_underflow() {
    let mut ledger = global(10);
    assert_eq!(ledger.debit_total(11), Err(ErrorCode::ArithmeticUnderflow));
    assert_eq!(ledger, global(10));
    assert_eq!(ledger.debit_total(10), Ok(()));
    assert_eq!(ledger, global(0));
    assert_eq!(ledger.credit_total(7), Ok(()));
    assert_eq!(ledger, global(7));
}

#[test]
fn stake_then_unstake_returns_principal_but_not_usable_balance() {
    let before = stake_ctx(record(40, 250), global(900));
    let mut state = before;
    let staked = stake_tokens(&state, 100, 1, &program()).unwrap();
    assert_eq!(settle(&mut state, staked, TransferOutcome::Completed).unwrap().total_staked, 140);
    let mut out = after_stake(&state);
    let unstaked = unstake_tokens(&out, 100, 2, &program()).unwrap();
    let event = settle(&mut out, unstaked, TransferOutcome::Completed).unwrap();
    assert_eq!(event.staked_portion, 100);
    assert_eq!(event.reward_portion, 0);
    assert_eq!(out.stake_info.total_staked, 40);
    assert_eq!(out.global_state.total_staked, 900);
    assert_eq!(out.stake_info.in_game_balance, 150);
}

#[test]
fn unstake_right_after_a_first_stake_is_refused() {
    let mut state = stake_ctx(StakeInfo::empty(), global(0));
    let staked = stake_tokens(&state, 100, 1, &program()).unwrap();
    settle(&mut state, staked, TransferOutcome::Completed).unwrap();
    let out = after_stake(&state);
    assert_eq!(unstake_tokens(&out, 100, 2, &program()), Err(ErrorCode::InsufficientBalance));
}

#[test]
fn global_total_follows_the_sum_of_all_records() {
    let mut ledger = global(0);
    let mut records = vec![StakeInfo::empty(), StakeInfo::empty()];
    let users = [key(2), key(6)];
    let steps: [(usize, bool, u64); 5] =
        [(0, true, 100), (1, true, 40), (0, true, 5), (1, false, 30), (0, false, 105)];
    for (who, deposit, amount) in steps {
        if deposit {
            let mut ctx = Stake { user: users[who], ..stake_ctx(records[who], ledger) };
            let pending = stake_tokens(&ctx, amount, 3, &program()).unwrap();
            settle(&mut ctx, pending, TransferOutcome::Completed).unwrap();
            records[who] = StakeInfo { in_game_balance: ctx.stake_info.total_staked, ..ctx.stake_info };
            ledger = ctx.global_state;
        } else {
            let mut ctx = Unstake { user: users[who], ..unstake_ctx(records[who], ledger) };
            let pending = unstake_tokens(&ctx, amount, 4, &program()).unwrap();
            settle(&mut ctx, pending, TransferOutcome::Completed).unwrap();
            records[who] = ctx.stake_info;
            ledger = ctx.global_state;
        }
        let sum: u64 = records.iter().map(|r| r.total_staked).sum();
        assert_eq!(ledger.total_staked, sum);
    }
    assert_eq!(ledger.total_staked, 10);
    assert_eq!(records[0].total_staked, 0);
    assert_eq!(records[1].total_staked, 10);
}

#[test]
fn rejected_transfer_leaves_the_state_alone() {
    let before = stake_ctx(record(40, 25), global(40));
    let mut state = before;
    let pending = stake_tokens(&state, 60, 11, &program()).unwrap();
    assert_eq!(
        settle(&mut state, pending, TransferOutcome::Rejected),
        Err(ErrorCode::TransferFailed)
    );
    assert_eq!(state, before);
}

#[test]
fn completed_transfer_adopts_the_pending_state() {
    let mut state = 1u8;
    let pending = Pending {
        transfer: Transfer { from: key(1), to: key(2), authority: key(1), amount: 3, signer: None },
        next: 2u8,
        event: 'e',
    };
    assert_eq!(settle(&mut state, pending, TransferOutcome::Completed), Ok('e'));
    assert_eq!(state, 2);
}

#[test]
fn stake_on_another_users_record_is_invalid_user() {
    let ctx = Stake { user: key(6), ..stake_ctx(record(40, 25), global(40)) };
    assert_eq!(stake_tokens(&ctx, 1, 1, &program()), Err(ErrorCode::InvalidUser));
    let other_asset = StakeInfo { mint: key(7), ..record(40, 25) };
    assert_eq!(
        stake_tokens(&stake_ctx(other_asset, global(40)), 1, 1, &program()),
        Err(ErrorCode::InvalidUser)
    );
}

#[test]
fn unstake_from_another_users_record_is_invalid_user() {
    let ctx = Unstake { user: key(6), ..unstake_ctx(record(40, 25), global(40)) };
    assert_eq!(unstake_tokens(&ctx, 1, 1, &program()), Err(ErrorCode::InvalidUser));
}

#[test]
fn stake_needs_the_derived_vault_authority() {
    let ctx = Stake { vault_authority: key(8), ..stake_ctx(record(40, 25), global(40)) };
    assert_eq!(stake_tokens(&ctx, 1, 1, &program()), Err(ErrorCode::InvalidVaultAuthority));
    let good = stake_ctx(record(40, 25), global(40));
    assert_eq!(stake_with_custody(&good, None, 1, 1), Err(ErrorCode::InvalidVaultAuthority));
    assert_eq!(stake_tokens(&good, 1, 1, &key(10)), Err(ErrorCode::InvalidVaultAuthority));
}

#[test]
fn unstake_needs_the_derived_vault_authority_and_bump() {
    let good = unstake_ctx(record(40, 25), global(40));
    let ctx = Unstake { vault_authority: key(8), ..good };
    assert_eq!(unstake_tokens(&ctx, 1, 1, &program()), Err(ErrorCode::InvalidVaultAuthority));
    let found = custody(&key(3));
    let wrong_bump = VaultAuthority { bump: found.bump.wrapping_sub(1), ..found };
    assert_eq!(
        unstake_with_custody(&good, Some(wrong_bump), 1, 1),
        Err(ErrorCode::InvalidVaultAuthority)
    );
    assert_eq!(unstake_with_custody(&good, None, 1, 1), Err(ErrorCode::InvalidVaultAuthority));
    assert!(unstake_with_custody(&good, Some(found), 1, 1).is_ok());
}

#[test]
fn refused_operations_name_the_first_failing_check() {
    let ctx = Unstake { user: key(6), ..unstake_ctx(record(40, 25), global(0)) };
    assert_eq!(unstake_tokens(&ctx, 0, 1, &program()), Err(ErrorCode::InvalidAmount));
    assert_eq!(unstake_tokens(&ctx, 26, 1, &program()), Err(ErrorCode::InsufficientBalance));
    assert_eq!(unstake_tokens(&ctx, 25, 1, &program()), Err(ErrorCode::InsufficientStaked));
}
