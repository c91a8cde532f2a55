use solana_sdk::program_option::COption;
use solana_sdk::program_pack::Pack;
use solana_sdk::pubkey::Pubkey;
use voltr_amm::accounts::{Account, AccountMap};
use voltr_amm::amm::{Swap, SwapParams};
use voltr_amm::constants::{TOKEN_22_PROGRAM, TOKEN_PROGRAM};
use voltr_amm::errors::{UnpackError, VoltrAmmError};
use voltr_amm::instruction::AccountMeta;
use voltr_amm::state::{
    FeeConfiguration, FeeUpdate, Vault, VaultAsset, VaultConfiguration, VaultLp,
};
use voltr_amm::{VoltrAmm, VoltrRedeemSwap, VoltrSwap};

const VAULT: [u8; 32] = [1; 32];
const LP: [u8; 32] = [2; 32];
const ASSET: [u8; 32] = [3; 32];
const IDLE: [u8; 32] = [4; 32];

fn vault(total_asset_value: u64) -> Vault<()> {
    Vault {
        asset: VaultAsset { mint: ASSET, idle_ata: IDLE },
        lp: VaultLp { mint: LP },
        vault_configuration: VaultConfiguration { withdrawal_waiting_period: 0 },
        fee_configuration: FeeConfiguration { redemption_fee: 0, issuance_fee: 0 },
        fee_update: FeeUpdate { last_management_fee_update_ts: 0 },
        dead_weight: 1_000,
        last_updated_ts: 0,
        total_asset_value,
        accounting: (),
    }
}

/// Reads a vault whose bytes are its total asset value.
fn load(data: &[u8]) -> Result<Vault<()>, VoltrAmmError> {
    match data.try_into() {
        Ok(bytes) => Ok(vault(u64::from_le_bytes(bytes))),
        Err(_) => Err(VoltrAmmError::Vault("not a vault".to_string())),
    }
}

fn vault_data(total_asset_value: u64) -> Vec<u8> {
    total_asset_value.to_le_bytes().to_vec()
}

fn mint(supply: u64, decimals: u8, is_initialized: bool) -> Vec<u8> {
    let mint = spl_token::state::Mint {
        mint_authority: COption::Some(Pubkey::new_from_array([8; 32])),
        supply,
        decimals,
        is_initialized,
        freeze_authority: COption::None,
    };
    let mut data = vec![0; 82];
    spl_token::state::Mint::pack(mint, &mut data).unwrap();
    data
}

fn token_account(amount: u64, state: spl_token::state::AccountState) -> Vec<u8> {
    let account = spl_token::state::Account {
        mint: Pubkey::new_from_array(ASSET),
        owner: Pubkey::new_from_array([8; 32]),
        amount,
        delegate: COption::None,
        state,
        is_native: COption::Some(5),
        delegated_amount: 6,
        close_authority: COption::Some(Pubkey::new_from_array([7; 32])),
    };
    let mut data = vec![0; 165];
    spl_token::state::Account::pack(account, &mut data).unwrap();
    data
}

const INITIALIZED: spl_token::state::AccountState = spl_token::state::AccountState::Initialized;

/// Lengthens a base state to hold an extension: zeros to byte 165, the account type, the entry.
fn extend(mut base: Vec<u8>, account_type: u8) -> Vec<u8> {
    base.resize(165, 0);
    base.push(account_type);
    base.extend_from_slice(&[9, 0, 0, 0]);
    base
}

fn account(owner: [u8; 32], data: Vec<u8>) -> Account {
    Account { owner, data }
}

fn accounts() -> AccountMap {
    let mut map = AccountMap::new();
    map.insert(VAULT, account([9; 32], vault_data(700)));
    map.insert(LP, account(TOKEN_PROGRAM, mint(0x0102_0304_0506_0708, 9, true)));
    map.insert(ASSET, account(TOKEN_PROGRAM, mint(12, 6, true)));
    map.insert(IDLE, account(TOKEN_PROGRAM, token_account(555, INITIALIZED)));
    map
}

fn accounts_without(key: [u8; 32]) -> AccountMap {
    let full = accounts();
    let mut map = AccountMap::new();
    for other in [VAULT, LP, ASSET, IDLE] {
        if other != key {
            map.insert(other, full.get(&other).unwrap().clone());
        }
    }
    map
}

fn with(key: [u8; 32], changed: Account) -> AccountMap {
    let mut map = accounts();
    map.insert(key, changed);
    map
}

fn amm() -> VoltrAmm<()> {
    VoltrAmm::new(VAULT, vault(1))
}

fn state(amm: &VoltrAmm<()>) -> (u64, u64, u8, u8, [u8; 32], u64) {
    (
        amm.vault_state.get_total_asset_value(),
        amm.lp_mint_supply,
        amm.lp_mint_decimals,
        amm.asset_mint_decimals,
        amm.asset_token_program,
        amm.asset_idle_balance,
    )
}

const SUPPLY: u64 = 0x0102_0304_0506_0708;

#[test]
fn account_map_keeps_the_last() {
    let mut map = AccountMap::new();
    assert_eq!(map.get(&LP), None);
    map.insert(LP, account(ASSET, vec![1]));
    map.insert(ASSET, account(ASSET, vec![2]));
    map.insert(LP, account(ASSET, vec![3]));
    assert_eq!(map.get(&LP), Some(&account(ASSET, vec![3])));
    assert_eq!(map.get(&ASSET), Some(&account(ASSET, vec![2])));
    assert_eq!(map.get(&IDLE), None);
}

#[test]
fn from_keyed_account_reads_the_vault() {
    let amm = VoltrAmm::from_keyed_account(VAULT, &vault_data(42), &load).unwrap();
    assert_eq!(amm.key(), VAULT);
    assert_eq!(state(&amm), (42, 0, 9, 0, TOKEN_PROGRAM, 0));
    assert_eq!(
        VoltrAmm::from_keyed_account(VAULT, &[1, 2], &load).map(|amm| amm.vault_key),
        Err(VoltrAmmError::Vault("not a vault".to_string()))
    );
}

#[test]
fn update_reads_everything() {
    let mut amm = amm();
    assert_eq!(amm.update(&accounts(), &load), Ok(()));
    assert_eq!(state(&amm), (700, SUPPLY, 9, 6, TOKEN_PROGRAM, 555));
    assert_eq!(amm.key(), VAULT);
    assert_eq!(amm.label(), "VoltrAmm");
    let before = format!("{:?}", amm);
    assert_eq!(amm.update(&accounts(), &load), Ok(()));
    assert_eq!(format!("{:?}", amm), before);
}

#[test]
fn update_reads_token_2022() {
    let mut amm = amm();
    let mut map = accounts();
    map.insert(ASSET, account(TOKEN_22_PROGRAM, extend(mint(12, 7, true), 1)));
    map.insert(IDLE, account(TOKEN_22_PROGRAM, extend(token_account(556, INITIALIZED), 2)));
    assert_eq!(amm.update(&map, &load), Ok(()));
    assert_eq!(state(&amm), (700, SUPPLY, 9, 7, TOKEN_22_PROGRAM, 556));

    map.insert(ASSET, account([77; 32], mint(12, 8, true)));
    map.insert(IDLE, account([77; 32], token_account(557, INITIALIZED)));
    assert_eq!(amm.update(&map, &load), Ok(()));
    assert_eq!(state(&amm), (700, SUPPLY, 9, 8, [77; 32], 557));
}

#[test]
fn update_keeps_what_was_read_before_it_failed() {
    let fresh = (1, 0, 9, 0, TOKEN_PROGRAM, 0);
    let mut amm = amm();
    assert_eq!(
        amm.update(&accounts_without(VAULT), &load),
        Err(VoltrAmmError::AccountNotFound(VAULT))
    );
    assert_eq!(state(&amm), fresh);
    assert_eq!(
        amm.update(&with(VAULT, account(VAULT, vec![])), &load),
        Err(VoltrAmmError::Vault("not a vault".to_string()))
    );
    assert_eq!(state(&amm), fresh);
    assert_eq!(amm.update(&accounts_without(LP), &load), Err(VoltrAmmError::AccountNotFound(LP)));
    assert_eq!(state(&amm), (700, 0, 9, 0, TOKEN_PROGRAM, 0));
    assert_eq!(amm.update(&accounts_without(ASSET), &load), Err(VoltrAmmError::AssetMintNotFound));
    assert_eq!(state(&amm), (700, SUPPLY, 9, 0, TOKEN_PROGRAM, 0));
    assert_eq!(
        amm.update(&with(ASSET, account(TOKEN_22_PROGRAM, vec![0; 81])), &load),
        Err(VoltrAmmError::Unpack(UnpackError::InvalidAccountData))
    );
    assert_eq!(state(&amm), (700, SUPPLY, 9, 0, TOKEN_22_PROGRAM, 0));
    assert_eq!(
        amm.update(&accounts_without(IDLE), &load),
        Err(VoltrAmmError::AccountNotFound(IDLE))
    );
    assert_eq!(state(&amm), (700, SUPPLY, 9, 6, TOKEN_PROGRAM, 0));
}

fn update_error(map: &AccountMap) -> VoltrAmmError {
    amm().update(map, &load).unwrap_err()
}

const INVALID: VoltrAmmError = VoltrAmmError::Unpack(UnpackError::InvalidAccountData);
const UNINITIALIZED: VoltrAmmError = VoltrAmmError::Unpack(UnpackError::UninitializedAccount);

#[test]
fn lp_mint_must_be_a_mint() {
    let changed = |at: usize, byte: u8| {
        let mut data = mint(1, 9, true);
        data[at] = byte;
        with(LP, account(TOKEN_PROGRAM, data))
    };
    assert_eq!(update_error(&with(LP, account(TOKEN_PROGRAM, mint(1, 9, false)))), UNINITIALIZED);
    assert_eq!(update_error(&with(LP, account(TOKEN_PROGRAM, vec![0; 82]))), UNINITIALIZED);
    assert_eq!(update_error(&with(LP, account(TOKEN_PROGRAM, vec![0; 83]))), INVALID);
    assert_eq!(update_error(&with(LP, account(TOKEN_PROGRAM, extend(mint(1, 9, true), 1)))), INVALID);
    assert_eq!(update_error(&changed(0, 2)), INVALID);
    assert_eq!(update_error(&changed(3, 1)), INVALID);
    assert_eq!(update_error(&changed(45, 2)), INVALID);
    assert_eq!(update_error(&changed(46, 2)), INVALID);
    assert_eq!(update_error(&changed(49, 1)), INVALID);
    assert_eq!(amm().update(&changed(50, 9), &load), Ok(()));
    assert_eq!(amm().update(&changed(0, 0), &load), Ok(()));
}

#[test]
fn asset_mint_of_token_2022_must_fit() {
    let update = |data: Vec<u8>| {
        let mut map = with(ASSET, account(TOKEN_22_PROGRAM, data));
        map.insert(IDLE, account(TOKEN_22_PROGRAM, token_account(1, INITIALIZED)));
        amm().update(&map, &load)
    };
    let base = mint(1, 6, true);
    assert_eq!(update(base.clone()), Ok(()));
    assert_eq!(update(extend(base.clone(), 1)), Ok(()));
    assert_eq!(update(extend(base.clone(), 2)), Err(INVALID));
    assert_eq!(update(extend(base.clone(), 3)), Err(INVALID));
    assert_eq!(update(extend(mint(1, 6, false), 1)), Err(UNINITIALIZED));
    let mut padded = extend(base.clone(), 1);
    padded[164] = 1;
    assert_eq!(update(padded), Err(INVALID));
    let mut short = extend(base.clone(), 1);
    short.truncate(166);
    assert_eq!(update(short.clone()), Err(INVALID));
    short.push(0);
    assert_eq!(update(short), Ok(()));
    let mut multisig = extend(base.clone(), 1);
    multisig.resize(355, 0);
    assert_eq!(update(multisig.clone()), Err(INVALID));
    multisig.push(0);
    assert_eq!(update(multisig), Ok(()));
    assert_eq!(update(base[..81].to_vec()), Err(INVALID));
}

#[test]
fn idle_account_must_be_a_token_account() {
    let update = |data: Vec<u8>| amm().update(&with(IDLE, account(TOKEN_PROGRAM, data)), &load);
    let changed = |at: usize, byte: u8| {
        let mut data = token_account(1, INITIALIZED);
        data[at] = byte;
        update(data)
    };
    assert_eq!(update(token_account(1, spl_token::state::AccountState::Frozen)), Ok(()));
    assert_eq!(
        update(token_account(1, spl_token::state::AccountState::Uninitialized)),
        Err(UNINITIALIZED)
    );
    assert_eq!(update(vec![0; 164]), Err(INVALID));
    assert_eq!(update(extend(token_account(1, INITIALIZED), 2)), Err(INVALID));
    assert_eq!(changed(72, 2), Err(INVALID));
    assert_eq!(changed(108, 3), Err(INVALID));
    assert_eq!(changed(110, 1), Err(INVALID));
    assert_eq!(changed(129, 7), Err(INVALID));
    assert_eq!(changed(71, 7), Ok(()));
}

#[test]
fn idle_account_of_token_2022_must_fit() {
    let update = |data: Vec<u8>| {
        let mut map = with(ASSET, account(TOKEN_22_PROGRAM, mint(1, 6, true)));
        map.insert(IDLE, account(TOKEN_22_PROGRAM, data));
        amm().update(&map, &load)
    };
    let base = token_account(1, INITIALIZED);
    assert_eq!(update(base.clone()), Ok(()));
    assert_eq!(update(extend(base.clone(), 2)), Ok(()));
    assert_eq!(update(extend(base.clone(), 1)), Err(INVALID));
    assert_eq!(update(extend(base.clone(), 2)[..166].to_vec()), Err(INVALID));
    assert_eq!(update(base[..164].to_vec()), Err(INVALID));
    let mut multisig = extend(base.clone(), 2);
    multisig.resize(355, 0);
    assert_eq!(update(multisig), Err(INVALID));
    assert_eq!(
        update(extend(token_account(1, spl_token::state::AccountState::Uninitialized), 2)),
        Err(UNINITIALIZED)
    );
}

#[test]
fn update_reads_only_listed_accounts() {
    let mut first = amm();
    let mut second = amm();
    let mut map = accounts();
    assert_eq!(first.update(&map, &load), Ok(()));
    map.insert([200; 32], account(LP, vec![1, 2, 3]));
    assert_eq!(second.update(&map, &load), Ok(()));
    assert_eq!(format!("{:?}", first), format!("{:?}", second));
    assert_eq!(first.get_accounts_to_update(), vec![VAULT, LP, ASSET, IDLE]);
}

fn params(source_mint: [u8; 32], destination_mint: [u8; 32]) -> SwapParams {
    SwapParams {
        source_mint,
        destination_mint,
        source_token_account: [11; 32],
        destination_token_account: [12; 32],
        token_transfer_authority: [13; 32],
        placeholder: PLACEHOLDER,
    }
}

const PLACEHOLDER: AccountMeta =
    AccountMeta { pubkey: [14; 32], is_signer: false, is_writable: false };

#[test]
fn issuing_swap_has_the_accounts_of_a_deposit() {
    let mut amm = amm();
    amm.asset_token_program = TOKEN_22_PROGRAM;
    let made = amm.get_swap_and_account_metas(&params(ASSET, LP)).unwrap();
    assert_eq!(made.swap, Swap::TokenSwap);
    let mut expected = VoltrSwap {
        vault_key: VAULT,
        vault_asset_mint: ASSET,
        vault_asset_idle_ata: IDLE,
        vault_lp_mint: LP,
        user_source: [11; 32],
        user_destination: [12; 32],
        user_transfer_authority: [13; 32],
        asset_token_program: TOKEN_22_PROGRAM,
    }
    .account_metas();
    expected.push(PLACEHOLDER);
    assert_eq!(made.account_metas, expected);
    assert_eq!(made.account_metas.len(), 14);
}

#[test]
fn redeeming_swap_has_the_accounts_of_a_withdrawal() {
    let made = amm().get_swap_and_account_metas(&params(LP, ASSET)).unwrap();
    assert_eq!(made.swap, Swap::TokenSwap);
    let mut expected = VoltrRedeemSwap {
        vault_key: VAULT,
        vault_asset_mint: ASSET,
        vault_asset_idle_ata: IDLE,
        vault_lp_mint: LP,
        user_lp_ata: [11; 32],
        user_asset_ata: [12; 32],
        user_transfer_authority: [13; 32],
        asset_token_program: TOKEN_PROGRAM,
        placeholder: PLACEHOLDER,
    }
    .account_metas();
    expected.push(PLACEHOLDER);
    assert_eq!(made.account_metas, expected);
    assert_eq!(made.account_metas.len(), 25);
    assert_eq!(made.account_metas[10], PLACEHOLDER);
    let again = amm().try_get_swap_and_account_metas(&params(LP, ASSET)).unwrap().unwrap();
    assert_eq!(again.account_metas, made.account_metas);
}

#[test]
fn placeholder_is_kept_as_given() {
    let placeholder = AccountMeta { pubkey: [15; 32], is_signer: true, is_writable: true };
    let given = |source, destination| SwapParams { placeholder, ..params(source, destination) };
    let issued = amm().get_swap_and_account_metas(&given(ASSET, LP)).unwrap().account_metas;
    assert_eq!(issued[13], placeholder);
    let redeemed = amm().get_swap_and_account_metas(&given(LP, ASSET)).unwrap().account_metas;
    assert_eq!(redeemed[10], placeholder);
    assert_eq!(redeemed[24], placeholder);
}

#[test]
fn copy_swaps_as_the_amm_it_was_made_from() {
    let mut first = amm();
    assert_eq!(first.update(&accounts(), &load), Ok(()));
    let copy = first.clone();
    assert_eq!(state(&copy), state(&first));
    assert_eq!(copy.label(), first.label());
    assert_eq!(copy.program_id(), first.program_id());
    assert_eq!(copy.key(), first.key());
    assert_eq!(copy.get_reserve_mints(), vec![ASSET, LP]);
    assert_eq!(copy.get_accounts_to_update(), vec![VAULT, LP, ASSET, IDLE]);
    for (source, destination) in [(ASSET, LP), (LP, ASSET)] {
        assert_eq!(
            copy.get_swap_and_account_metas(&params(source, destination)).unwrap().account_metas,
            first.get_swap_and_account_metas(&params(source, destination)).unwrap().account_metas
        );
    }
}

#[test]
fn swap_of_other_mints_is_refused() {
    for (source, destination) in [(ASSET, ASSET), (LP, LP), ([9; 32], LP), (LP, [9; 32])] {
        let made = amm().get_swap_and_account_metas(&params(source, destination));
        assert_eq!(made.map(|made| made.swap), Err(VoltrAmmError::InvalidSourceMint));
    }
}
