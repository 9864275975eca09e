use staking::custody::{find_vault_authority, VaultAuthority};
use staking::transfer::VaultSigner;
use staking::{Pubkey, StakeInfo};

fn address(byte: u8) -> Pubkey {
    Pubkey::new_from_array([byte; 32])
}

fn outside(key: &Pubkey) -> anchor_lang::prelude::Pubkey {
    anchor_lang::prelude::Pubkey::new_from_array(key.to_bytes())
}

#[test]
fn vault_authority_is_the_program_derived_address() {
    let mint = address(3);
    let program = address(9);
    let (expected, bump) = anchor_lang::prelude::Pubkey::find_program_address(
        &[b"vault", &mint.to_bytes()],
        &outside(&program),
    );
    assert_eq!(
        find_vault_authority(&mint, &program),
        Some(VaultAuthority { address: Pubkey::new_from_array(expected.to_bytes()), bump })
    );
}

#[test]
fn vault_authority_is_neither_the_mint_nor_the_program() {
    let found = find_vault_authority(&address(3), &address(9)).unwrap();
    assert_ne!(found.address, address(3));
    assert_ne!(found.address, address(9));
}

#[test]
fn vault_authority_is_the_same_on_every_derivation() {
    assert_eq!(
        find_vault_authority(&address(3), &address(9)),
        find_vault_authority(&address(3), &address(9))
    );
}

#[test]
fn vault_authority_differs_by_mint_and_by_program() {
    let base = find_vault_authority(&address(3), &address(9)).unwrap();
    assert_ne!(find_vault_authority(&address(4), &address(9)).unwrap().address, base.address);
    assert_ne!(find_vault_authority(&address(3), &address(10)).unwrap().address, base.address);
}

#[test]
fn signer_seeds_recreate_the_vault_authority() {
    let mint = address(3);
    let program = address(9);
    let found = find_vault_authority(&mint, &program).unwrap();
    let seeds = VaultSigner { mint, bump: found.bump }.seeds();
    assert_eq!(seeds, vec![b"vault".to_vec(), vec![3u8; 32], vec![found.bump]]);
    let parts: Vec<&[u8]> = seeds.iter().map(|s| s.as_slice()).collect();
    let recreated =
        anchor_lang::prelude::Pubkey::create_program_address(&parts, &outside(&program)).unwrap();
    assert_eq!(recreated.to_bytes(), found.address.to_bytes());
}

#[test]
fn addresses_compare_by_their_bytes() {
    let mut bytes = [0u8; 32];
    assert_eq!(Pubkey::new_from_array(bytes), Pubkey::default());
    assert!(Pubkey::new_from_array(bytes).is_unset());
    bytes[31] = 1;
    assert_ne!(Pubkey::new_from_array(bytes), Pubkey::default());
    assert!(!Pubkey::new_from_array(bytes).is_unset());
    assert_eq!(Pubkey::new_from_array(bytes).to_bytes(), bytes);
    assert_eq!(Pubkey::new_from_array(bytes).to_vec(), bytes.to_vec());
}

#[test]
fn empty_record_is_all_zero() {
    let record = StakeInfo::empty();
    assert!(record.owner.is_unset());
    assert!(record.mint.is_unset());
    assert_eq!(
        (record.total_staked, record.in_game_balance, record.vault_bump, record.last_update),
        (0, 0, 0, 0)
    );
}
