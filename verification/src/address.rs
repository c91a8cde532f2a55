//! Program-derived addresses of a vault.
use vstd::prelude::*;

use crate::constants::{
    ATA_PROGRAM, PROTOCOL_SEED, REQUEST_WITHDRAW_VAULT_RECEIPT_SEED, TOKEN_PROGRAM,
    VAULT_ASSET_IDLE_AUTH_SEED, VAULT_LP_MINT_AUTH_SEED, VAULT_LP_MINT_SEED, VOLTR_VAULT_PROGRAM,
};
use crate::key::Pubkey;

verus! {

/// What `Pubkey::try_find_program_address` of `solana_sdk` returns: the first address off the
/// curve that the seeds, a bump byte and the program hash to, with that bump, or nothing.
pub uninterp spec fn program_address(seeds: Seq<Seq<u8>>, program_id: Seq<u8>) -> Option<
    (Pubkey, u8),
>;

/// The bytes of each seed.
pub open spec fn seed_bytes(seeds: Seq<&[u8]>) -> Seq<Seq<u8>> {
    seeds.map_values(|seed: &[u8]| seed@)
}

/// Calls `Pubkey::try_find_program_address` of `solana_sdk`. Claims only that the result is a
/// function of the seeds and of the program, named `program_address`. The call returns `None`,
/// and does not panic, where no bump gives an address, where a seed is longer than 32 bytes or
/// where there are more than 15 seeds.
#[verifier::external_body]
fn try_find_program_address(seeds: &[&[u8]], program_id: &Pubkey) -> (found: Option<(Pubkey, u8)>)
    ensures
        found == program_address(seed_bytes(seeds@), program_id@),
{
    let program = solana_sdk::pubkey::Pubkey::new_from_array(*program_id);
    match solana_sdk::pubkey::Pubkey::try_find_program_address(seeds, &program) {
        Some((address, bump)) => Some((address.to_bytes(), bump)),
        None => None,
    }
}

/// The address alone, without its bump.
pub open spec fn find_address(seeds: Seq<Seq<u8>>, program_id: Seq<u8>) -> Option<Pubkey> {
    match program_address(seeds, program_id) {
        Some((address, _bump)) => Some(address),
        None => None,
    }
}

/// The account that holds the settings of the whole protocol.
pub open spec fn protocol_address() -> Option<Pubkey> {
    find_address(seq![PROTOCOL_SEED@], VOLTR_VAULT_PROGRAM@)
}

/// The LP mint of a vault.
pub open spec fn vault_lp_mint_address(vault_key: Pubkey) -> Option<Pubkey> {
    find_address(seq![VAULT_LP_MINT_SEED@, vault_key@], VOLTR_VAULT_PROGRAM@)
}

/// The authority over the idle asset of a vault.
pub open spec fn vault_asset_idle_auth_address(vault_key: Pubkey) -> Option<Pubkey> {
    find_address(seq![VAULT_ASSET_IDLE_AUTH_SEED@, vault_key@], VOLTR_VAULT_PROGRAM@)
}

/// The authority over the LP mint of a vault.
pub open spec fn vault_lp_mint_auth_address(vault_key: Pubkey) -> Option<Pubkey> {
    find_address(seq![VAULT_LP_MINT_AUTH_SEED@, vault_key@], VOLTR_VAULT_PROGRAM@)
}

/// The receipt of a user's withdrawal request.
pub open spec fn receipt_address(vault_key: Pubkey, user: Pubkey) -> Option<Pubkey> {
    find_address(
        seq![REQUEST_WITHDRAW_VAULT_RECEIPT_SEED@, vault_key@, user@],
        VOLTR_VAULT_PROGRAM@,
    )
}

/// The token account that belongs to a wallet and a mint of the SPL token program.
pub open spec fn associated_token_address(wallet: Pubkey, mint: Pubkey) -> Option<Pubkey> {
    find_address(seq![wallet@, TOKEN_PROGRAM@, mint@], ATA_PROGRAM@)
}

/// Derives the address alone, without its bump.
fn try_find_address(seeds: &[&[u8]], program_id: &Pubkey) -> (found: Option<Pubkey>)
    ensures
        found == find_address(seed_bytes(seeds@), program_id@),
{
    match try_find_program_address(seeds, program_id) {
        Some((address, _bump)) => Some(address),
        None => None,
    }
}

fn find_protocol() -> (found: Option<Pubkey>)
    ensures
        found == protocol_address(),
{
    let seeds: [&[u8]; 1] = [PROTOCOL_SEED.as_slice()];
    let slice: &[&[u8]] = seeds.as_slice();
    assert(seed_bytes(slice@) =~= seq![PROTOCOL_SEED@]);
    try_find_address(slice, &VOLTR_VAULT_PROGRAM)
}

/// Derives an address of the vault program from a fixed seed and the vault's key.
fn find_of_vault(seed: &[u8], vault_key: &Pubkey) -> (found: Option<Pubkey>)
    ensures
        found == find_address(seq![seed@, vault_key@], VOLTR_VAULT_PROGRAM@),
{
    let seeds: [&[u8]; 2] = [seed, vault_key.as_slice()];
    let slice: &[&[u8]] = seeds.as_slice();
    assert(seed_bytes(slice@) =~= seq![seed@, vault_key@]);
    try_find_address(slice, &VOLTR_VAULT_PROGRAM)
}

fn find_vault_lp_mint(vault_key: &Pubkey) -> (found: Option<Pubkey>)
    ensures
        found == vault_lp_mint_address(*vault_key),
{
    find_of_vault(VAULT_LP_MINT_SEED.as_slice(), vault_key)
}

fn find_receipt(vault_key: &Pubkey, user: &Pubkey) -> (found: Option<Pubkey>)
    ensures
        found == receipt_address(*vault_key, *user),
{
    let seeds: [&[u8]; 3] = [
        REQUEST_WITHDRAW_VAULT_RECEIPT_SEED.as_slice(),
        vault_key.as_slice(),
        user.as_slice(),
    ];
    let slice: &[&[u8]] = seeds.as_slice();
    assert(seed_bytes(slice@) =~= seq![REQUEST_WITHDRAW_VAULT_RECEIPT_SEED@, vault_key@, user@]);
    try_find_address(slice, &VOLTR_VAULT_PROGRAM)
}

fn find_associated_token_account(wallet: &Pubkey, mint: &Pubkey) -> (found: Option<Pubkey>)
    ensures
        found == associated_token_address(*wallet, *mint),
{
    let seeds: [&[u8]; 3] = [wallet.as_slice(), TOKEN_PROGRAM.as_slice(), mint.as_slice()];
    let slice: &[&[u8]] = seeds.as_slice();
    assert(seed_bytes(slice@) =~= seq![wallet@, TOKEN_PROGRAM@, mint@]);
    try_find_address(slice, &ATA_PROGRAM)
}

/// The receipt of a user's withdrawal request from a vault.
pub fn derive_receipt_pda(vault_key: &Pubkey, user: &Pubkey) -> (address: Pubkey)
    requires
        receipt_address(*vault_key, *user) is Some,
    ensures
        Some(address) == receipt_address(*vault_key, *user),
{
    find_receipt(vault_key, user).unwrap()
}

/// `derive_receipt_pda`, or `None` where no such address exists.
pub fn try_derive_receipt_pda(vault_key: &Pubkey, user: &Pubkey) -> (address: Option<Pubkey>)
    ensures
        address == receipt_address(*vault_key, *user),
{
    if find_receipt(vault_key, user).is_some() {
        Some(derive_receipt_pda(vault_key, user))
    } else {
        None
    }
}

/// The LP mint of a vault.
pub fn derive_vault_lp_mint_pda(vault_key: &Pubkey) -> (address: Pubkey)
    requires
        vault_lp_mint_address(*vault_key) is Some,
    ensures
        Some(address) == vault_lp_mint_address(*vault_key),
{
    find_vault_lp_mint(vault_key).unwrap()
}

/// `derive_vault_lp_mint_pda`, or `None` where no such address exists.
pub fn try_derive_vault_lp_mint_pda(vault_key: &Pubkey) -> (address: Option<Pubkey>)
    ensures
        address == vault_lp_mint_address(*vault_key),
{
    if find_vault_lp_mint(vault_key).is_some() {
        Some(derive_vault_lp_mint_pda(vault_key))
    } else {
        None
    }
}

/// The derived addresses that a deposit names.
#[derive(Clone, Copy, Debug, PartialEq, Eq)]
pub struct DepositAddresses {
    pub protocol: Pubkey,
    pub vault_lp_mint: Pubkey,
    pub vault_asset_idle_auth: Pubkey,
    pub vault_lp_mint_auth: Pubkey,
}

/// The derived addresses that a withdrawal names.
#[derive(Clone, Copy, Debug, PartialEq, Eq)]
pub struct RedeemAddresses {
    pub protocol: Pubkey,
    pub vault_lp_mint: Pubkey,
    pub vault_asset_idle_auth: Pubkey,
    pub receipt: Pubkey,
    pub receipt_lp_ata: Pubkey,
}

/// The addresses of a deposit into a vault, if all of them exist.
pub open spec fn deposit_addresses(vault_key: Pubkey) -> Option<DepositAddresses> {
    match (
        protocol_address(),
        vault_lp_mint_address(vault_key),
        vault_asset_idle_auth_address(vault_key),
        vault_lp_mint_auth_address(vault_key),
    ) {
        (
            Some(protocol),
            Some(vault_lp_mint),
            Some(vault_asset_idle_auth),
            Some(vault_lp_mint_auth),
        ) => Some(
            DepositAddresses {
                protocol,
                vault_lp_mint,
                vault_asset_idle_auth,
                vault_lp_mint_auth,
            },
        ),
        _ => None,
    }
}

/// The addresses of a user's withdrawal from a vault, if all of them exist. The receipt's LP
/// account is the associated token account of the receipt and of the vault's LP mint.
pub open spec fn redeem_addresses(vault_key: Pubkey, user: Pubkey) -> Option<RedeemAddresses> {
    match (
        protocol_address(),
        vault_lp_mint_address(vault_key),
        vault_asset_idle_auth_address(vault_key),
        receipt_address(vault_key, user),
    ) {
        (
            Some(protocol),
            Some(vault_lp_mint),
            Some(vault_asset_idle_auth),
            Some(receipt),
        ) => match associated_token_address(receipt, vault_lp_mint) {
            Some(receipt_lp_ata) => Some(
                RedeemAddresses {
                    protocol,
                    vault_lp_mint,
                    vault_asset_idle_auth,
                    receipt,
                    receipt_lp_ata,
                },
            ),
            None => None,
        },
        _ => None,
    }
}

/// Derives the addresses of a deposit, if all of them exist.
pub fn find_deposit_addresses(vault_key: &Pubkey) -> (addresses: Option<DepositAddresses>)
    ensures
        addresses == deposit_addresses(*vault_key),
{
    let protocol = find_protocol();
    let vault_lp_mint = find_vault_lp_mint(vault_key);
    let vault_asset_idle_auth = find_of_vault(VAULT_ASSET_IDLE_AUTH_SEED.as_slice(), vault_key);
    let vault_lp_mint_auth = find_of_vault(VAULT_LP_MINT_AUTH_SEED.as_slice(), vault_key);
    match (protocol, vault_lp_mint, vault_asset_idle_auth, vault_lp_mint_auth) {
        (
            Some(protocol),
            Some(vault_lp_mint),
            Some(vault_asset_idle_auth),
            Some(vault_lp_mint_auth),
        ) => Some(
            DepositAddresses {
                protocol,
                vault_lp_mint,
                vault_asset_idle_auth,
                vault_lp_mint_auth,
            },
        ),
        _ => None,
    }
}

/// Derives the addresses of a withdrawal, if all of them exist.
pub fn find_redeem_addresses(vault_key: &Pubkey, user: &Pubkey) -> (addresses: Option<
    RedeemAddresses,
>)
    ensures
        addresses == redeem_addresses(*vault_key, *user),
{
    let protocol = find_protocol();
    let vault_lp_mint = find_vault_lp_mint(vault_key);
    let vault_asset_idle_auth = find_of_vault(VAULT_ASSET_IDLE_AUTH_SEED.as_slice(), vault_key);
    let receipt = find_receipt(vault_key, user);
    match (protocol, vault_lp_mint, vault_asset_idle_auth, receipt) {
        (
            Some(protocol),
            Some(vault_lp_mint),
            Some(vault_asset_idle_auth),
            Some(receipt),
        ) => match find_associated_token_account(&receipt, &vault_lp_mint) {
            Some(receipt_lp_ata) => Some(
                RedeemAddresses {
                    protocol,
                    vault_lp_mint,
                    vault_asset_idle_auth,
                    receipt,
                    receipt_lp_ata,
                },
            ),
            None => None,
        },
        _ => None,
    }
}

} // verus!
