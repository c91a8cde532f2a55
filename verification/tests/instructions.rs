use voltr_amm::address::{find_deposit_addresses, find_redeem_addresses};
use voltr_amm::constants::{SYSTEM_PROGRAM, TOKEN_PROGRAM, VOLTR_VAULT_PROGRAM};
use voltr_amm::encoding::{anchor_discriminator, to_le_bytes};
use voltr_amm::errors::VoltrAmmError;
use voltr_amm::instruction::AccountMeta;
use voltr_amm::swap::split_at_placeholder;
use voltr_amm::{VoltrRedeemSwap, VoltrSwap};

const DEPOSIT: [u8; 8] = [126, 224, 21, 255, 228, 53, 117, 33];
const REQUEST: [u8; 8] = [248, 225, 47, 22, 116, 144, 23, 143];
const WITHDRAW: [u8; 8] = [135, 7, 237, 120, 149, 94, 95, 7];

fn key(n: u8) -> [u8; 32] {
    [n; 32]
}

fn deposit() -> VoltrSwap {
    VoltrSwap {
        vault_key: key(1),
        vault_asset_mint: key(2),
        vault_asset_idle_ata: key(3),
        vault_lp_mint: key(4),
        user_source: key(5),
        user_destination: key(6),
        user_transfer_authority: key(7),
        asset_token_program: key(8),
    }
}

fn redeem(placeholder: AccountMeta) -> VoltrRedeemSwap {
    VoltrRedeemSwap {
        vault_key: key(1),
        vault_asset_mint: key(2),
        vault_asset_idle_ata: key(3),
        vault_lp_mint: key(4),
        user_lp_ata: key(5),
        user_asset_ata: key(6),
        user_transfer_authority: key(7),
        asset_token_program: key(8),
        placeholder,
    }
}

fn writable(k: [u8; 32], is_signer: bool) -> AccountMeta {
    AccountMeta { pubkey: k, is_signer, is_writable: true }
}

fn readonly(k: [u8; 32], is_signer: bool) -> AccountMeta {
    AccountMeta { pubkey: k, is_signer, is_writable: false }
}

fn request_accounts() -> Vec<AccountMeta> {
    let a = find_redeem_addresses(&key(1), &key(7)).unwrap();
    vec![
        writable(key(7), true),
        readonly(key(7), true),
        readonly(a.protocol, false),
        readonly(key(1), false),
        readonly(a.vault_lp_mint, false),
        writable(key(5), false),
        writable(a.receipt_lp_ata, false),
        writable(a.receipt, false),
        readonly(TOKEN_PROGRAM, false),
        readonly(SYSTEM_PROGRAM, false),
    ]
}

fn withdraw_accounts() -> Vec<AccountMeta> {
    let a = find_redeem_addresses(&key(1), &key(7)).unwrap();
    vec![
        writable(key(7), true),
        readonly(a.protocol, false),
        writable(key(1), false),
        readonly(key(2), false),
        writable(a.vault_lp_mint, false),
        writable(a.receipt_lp_ata, false),
        writable(key(3), false),
        writable(a.vault_asset_idle_auth, false),
        writable(key(6), false),
        writable(a.receipt, false),
        readonly(key(8), false),
        readonly(TOKEN_PROGRAM, false),
        readonly(SYSTEM_PROGRAM, false),
    ]
}

#[test]
fn discriminators_are_digest_heads() {
    assert_eq!(anchor_discriminator("deposit_vault"), DEPOSIT);
    assert_eq!(anchor_discriminator("request_withdraw_vault"), REQUEST);
    assert_eq!(anchor_discriminator("withdraw_vault"), WITHDRAW);
    let digest = solana_sdk::hash::hash("global:\u{e9}t\u{e9}".as_bytes()).to_bytes();
    assert_eq!(anchor_discriminator("\u{e9}t\u{e9}"), digest[..8]);
}

#[test]
fn numbers_are_little_endian() {
    assert_eq!(to_le_bytes(0), [0; 8]);
    assert_eq!(to_le_bytes(0x0102_0304_0506_0708), [8, 7, 6, 5, 4, 3, 2, 1]);
    assert_eq!(to_le_bytes(u64::MAX), u64::MAX.to_le_bytes());
    assert_eq!(u64::from_le_bytes(to_le_bytes(10_000_000)), 10_000_000);
}

#[test]
fn deposit_instruction() {
    let ix = deposit().into_instruction(10_000_000).unwrap();
    let a = find_deposit_addresses(&key(1)).unwrap();
    assert_eq!(ix.program_id, VOLTR_VAULT_PROGRAM);
    assert_eq!(
        ix.accounts,
        vec![
            readonly(key(7), true),
            readonly(a.protocol, false),
            writable(key(1), false),
            readonly(key(2), false),
            writable(a.vault_lp_mint, false),
            writable(key(5), false),
            writable(key(3), false),
            readonly(a.vault_asset_idle_auth, false),
            writable(key(6), false),
            readonly(a.vault_lp_mint_auth, false),
            readonly(key(8), false),
            readonly(TOKEN_PROGRAM, false),
            readonly(SYSTEM_PROGRAM, false),
        ]
    );
    assert_eq!(ix.data.len(), 16);
    assert_eq!(ix.data[..8], DEPOSIT);
    assert_eq!(ix.data[8..], 10_000_000u64.to_le_bytes());
    assert_eq!(deposit().try_into_instruction(10_000_000), Some(Ok(ix)));
}

#[test]
fn deposit_has_one_signer() {
    let metas = deposit().account_metas();
    assert!(metas[0].is_signer);
    assert_eq!(metas.iter().filter(|meta| meta.is_signer).count(), 1);
}

#[test]
fn redeem_accounts_are_separated() {
    let placeholder = readonly(key(99), false);
    let metas = redeem(placeholder).account_metas();
    assert_eq!(metas.len(), 24);
    assert_eq!(metas[..10], request_accounts());
    assert_eq!(metas[10], placeholder);
    assert_eq!(metas[11..], withdraw_accounts());
}

#[test]
fn redeem_instructions() {
    let swap = redeem(readonly(key(99), false));
    let [request, withdraw] = swap.into_instructions(77).unwrap();
    assert_eq!(request.program_id, VOLTR_VAULT_PROGRAM);
    assert_eq!(request.accounts, request_accounts());
    assert_eq!(request.data.len(), 18);
    assert_eq!(request.data[..8], REQUEST);
    assert_eq!(request.data[8..16], 77u64.to_le_bytes());
    assert_eq!(request.data[16..], [1, 0]);
    assert_eq!(withdraw.program_id, VOLTR_VAULT_PROGRAM);
    assert_eq!(withdraw.accounts, withdraw_accounts());
    assert_eq!(withdraw.data.len(), 8);
    assert_eq!(withdraw.data, WITHDRAW);
    assert_eq!(swap.try_into_instructions(77), Some(Ok([request, withdraw])));
}

#[test]
fn placeholder_among_request_accounts_splits_there() {
    let swap = redeem(readonly(TOKEN_PROGRAM, false));
    let [request, withdraw] = swap.into_instructions(77).unwrap();
    assert_eq!(request.accounts, request_accounts()[..8]);
    assert_eq!(withdraw.accounts.len(), 15);
    assert_eq!(withdraw.accounts[0], readonly(SYSTEM_PROGRAM, false));
    assert_eq!(withdraw.accounts[1], readonly(TOKEN_PROGRAM, false));
    assert_eq!(withdraw.accounts[2..], withdraw_accounts());
}

#[test]
fn metas_without_placeholder_do_not_split() {
    let metas = vec![writable(key(1), false), readonly(key(2), false)];
    assert_eq!(
        split_at_placeholder(&metas, &readonly(key(1), false)),
        Err(VoltrAmmError::PlaceholderNotFound)
    );
    assert_eq!(
        split_at_placeholder(&metas, &readonly(key(2), true)),
        Err(VoltrAmmError::PlaceholderNotFound)
    );
    assert_eq!(
        split_at_placeholder(&metas, &readonly(key(2), false)),
        Ok((vec![writable(key(1), false)], vec![]))
    );
}
