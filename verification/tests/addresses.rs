use solana_sdk::pubkey::Pubkey;
use voltr_amm::address::{
    find_deposit_addresses, find_redeem_addresses, try_derive_receipt_pda,
    try_derive_vault_lp_mint_pda,
};
use voltr_amm::constants::VOLTR_VAULT_PROGRAM;
use voltr_amm::{derive_receipt_pda, derive_vault_lp_mint_pda};

const VAULT: [u8; 32] = [7; 32];
const USER: [u8; 32] = [9; 32];

fn find(seeds: &[&[u8]]) -> [u8; 32] {
    Pubkey::find_program_address(seeds, &Pubkey::new_from_array(VOLTR_VAULT_PROGRAM)).0.to_bytes()
}

#[test]
fn receipt_is_derived_from_vault_and_user() {
    let expected = find(&[b"request_withdraw_vault_receipt", &VAULT, &USER]);
    assert_eq!(derive_receipt_pda(&VAULT, &USER), expected);
    assert_eq!(try_derive_receipt_pda(&VAULT, &USER), Some(expected));
    assert_ne!(derive_receipt_pda(&USER, &VAULT), expected);
}

#[test]
fn lp_mint_is_derived_from_vault() {
    let expected = find(&[b"vault_lp_mint", &VAULT]);
    assert_eq!(derive_vault_lp_mint_pda(&VAULT), expected);
    assert_eq!(try_derive_vault_lp_mint_pda(&VAULT), Some(expected));
    assert_ne!(derive_vault_lp_mint_pda(&USER), expected);
}

#[test]
fn deposit_addresses_are_derived() {
    let addresses = find_deposit_addresses(&VAULT).unwrap();
    assert_eq!(addresses.protocol, find(&[b"protocol"]));
    assert_eq!(addresses.vault_lp_mint, find(&[b"vault_lp_mint", &VAULT]));
    assert_eq!(addresses.vault_asset_idle_auth, find(&[b"vault_asset_idle_auth", &VAULT]));
    assert_eq!(addresses.vault_lp_mint_auth, find(&[b"vault_lp_mint_auth", &VAULT]));
}

#[test]
fn redeem_addresses_are_derived() {
    let addresses = find_redeem_addresses(&VAULT, &USER).unwrap();
    assert_eq!(addresses.protocol, find(&[b"protocol"]));
    assert_eq!(addresses.vault_lp_mint, derive_vault_lp_mint_pda(&VAULT));
    assert_eq!(addresses.vault_asset_idle_auth, find(&[b"vault_asset_idle_auth", &VAULT]));
    assert_eq!(addresses.receipt, derive_receipt_pda(&VAULT, &USER));
    let ata = spl_associated_token_account::get_associated_token_address_with_program_id(
        &Pubkey::new_from_array(addresses.receipt),
        &Pubkey::new_from_array(addresses.vault_lp_mint),
        &spl_token::id(),
    );
    assert_eq!(addresses.receipt_lp_ata, ata.to_bytes());
}
