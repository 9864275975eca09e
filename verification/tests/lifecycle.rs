use staking::transfer::{settle, TransferOutcome};
use staking::{
    initialize, stake_tokens, unstake_tokens, update_in_game_balance, ErrorCode, Initialize,
    Pubkey, Stake, StakeInfo, Unstake, UpdateInGameBalance,
};

fn named(byte: u8) -> Pubkey {
    Pubkey::new_from_array([byte; 32])
}

#[test]
fn deposit_adjustment_and_withdrawal_in_turn() {
    let program = named(9);
    let operator = named(1);
    let user = named(2);
    let mint = named(3);
    let vault_authority =
        staking::custody::find_vault_authority(&mint, &program).unwrap().address;

    let mut boot = Initialize { payer: operator, global_state: None, bump: 255 };
    initialize(&mut boot, operator, 1).unwrap();
    let ledger = boot.global_state.unwrap();

    let mut deposit = Stake {
        user,
        user_token_account: named(4),
        mint,
        vault_authority,
        vault_account: named(5),
        stake_info: StakeInfo::empty(),
        global_state: ledger,
    };
    let pending = stake_tokens(&deposit, 100, 2, &program).unwrap();
    settle(&mut deposit, pending, TransferOutcome::Completed).unwrap();
    assert_eq!(deposit.global_state.total_staked, 100);

    let mut adjust = UpdateInGameBalance {
        authority: operator,
        user_stake: deposit.stake_info,
        global_state: deposit.global_state,
    };
    update_in_game_balance(&mut adjust, user, 130, 3).unwrap();

    let mut withdrawal = Unstake {
        user,
        user_token_account: named(4),
        mint,
        vault_authority,
        vault_account: named(5),
        stake_info: adjust.user_stake,
        global_state: adjust.global_state,
    };
    assert_eq!(
        unstake_tokens(&withdrawal, 131, 4, &program),
        Err(ErrorCode::InsufficientBalance)
    );
    let pending = unstake_tokens(&withdrawal, 120, 4, &program).unwrap();
    let event = settle(&mut withdrawal, pending, TransferOutcome::Completed).unwrap();
    assert_eq!((event.staked_portion, event.reward_portion, event.remaining_staked), (100, 20, 0));
    assert_eq!(withdrawal.stake_info.total_staked, 0);
    assert_eq!(withdrawal.stake_info.in_game_balance, 10);
    assert_eq!(withdrawal.stake_info.owner, user);
    assert_eq!(withdrawal.stake_info.mint, mint);
    assert_eq!(withdrawal.global_state.total_staked, 0);
    assert_eq!(withdrawal.global_state.authority, operator);
}
