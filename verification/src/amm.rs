//! The AMM over one vault.
use vstd::prelude::*;

use crate::accounts::{AccountMap, AccountView};
use crate::address;
use crate::constants::{AMM_LABEL, TOKEN_PROGRAM, VOLTR_VAULT_PROGRAM};
use crate::errors::{UnpackError, VoltrAmmError};
use crate::instruction::AccountMeta;
use crate::key::{same_key, Pubkey};
use crate::quote;
use crate::quote::Direction;
use crate::state;
use crate::state::Vault;
use crate::swap;
use crate::swap::{VoltrRedeemSwap, VoltrSwap};
use crate::token;

verus! {

/// A vault as an AMM between its asset and its LP token.
#[derive(Debug)]
pub struct VoltrAmm<A> {
    pub label: String,
    pub program_id: Pubkey,
    pub vault_key: Pubkey,
    pub vault_state: Vault<A>,
    pub lp_mint_supply: u64,
    pub lp_mint_decimals: u8,
    pub asset_mint_decimals: u8,
    pub asset_token_program: Pubkey,
    pub asset_idle_balance: u64,
}

/// Who swaps what: the mints, the user's token accounts and authority, and the router's placeholder,
/// which ends or separates accounts.
#[derive(Clone, Copy, Debug)]
pub struct SwapParams {
    pub source_mint: Pubkey,
    pub destination_mint: Pubkey,
    pub source_token_account: Pubkey,
    pub destination_token_account: Pubkey,
    pub token_transfer_authority: Pubkey,
    pub placeholder: AccountMeta,
}

/// The kind of swap that the router performs.
#[derive(Clone, Copy, Debug, PartialEq, Eq)]
pub enum Swap {
    TokenSwap,
}

/// A swap for the router, and the accounts that it names.
#[derive(Clone, Debug)]
pub struct SwapAndAccountMetas {
    pub swap: Swap,
    pub account_metas: Vec<AccountMeta>,
}

/// The decimals of a mint of a token program. Programs other than the SPL token program
/// are read as token-2022.
pub open spec fn decimals_of(owner: Pubkey, data: Seq<u8>) -> Result<u8, UnpackError> {
    let mint = if owner == TOKEN_PROGRAM {
        token::mint_state(data)
    } else {
        token::mint_2022_state(data)
    };
    match mint {
        Ok(mint) => Ok(mint.decimals),
        Err(e) => Err(e),
    }
}

/// The amount in a token account of a token program. Programs other than the SPL token program
/// are read as token-2022.
pub open spec fn amount_of(token_program: Pubkey, data: Seq<u8>) -> Result<u64, UnpackError> {
    if token_program == TOKEN_PROGRAM {
        token::token_amount(data)
    } else {
        token::token_2022_amount(data)
    }
}

/// The last step of an update: the idle balance.
pub open spec fn updated_idle_balance<A>(
    amm: VoltrAmm<A>,
    accounts: Map<Pubkey, AccountView>,
) -> (VoltrAmm<A>, Result<(), VoltrAmmError>) {
    let idle_ata = amm.vault_state.asset.idle_ata;
    if !accounts.dom().contains(idle_ata) {
        (amm, Err(VoltrAmmError::AccountNotFound(idle_ata)))
    } else {
        match amount_of(amm.asset_token_program, accounts[idle_ata].data) {
            Err(e) => (amm, Err(VoltrAmmError::Unpack(e))),
            Ok(amount) => (VoltrAmm { asset_idle_balance: amount, ..amm }, Ok(())),
        }
    }
}

/// The third step of an update: the asset mint, then the idle balance.
pub open spec fn updated_asset<A>(amm: VoltrAmm<A>, accounts: Map<Pubkey, AccountView>) -> (
    VoltrAmm<A>,
    Result<(), VoltrAmmError>,
) {
    let mint = amm.vault_state.asset.mint;
    if !accounts.dom().contains(mint) {
        (amm, Err(VoltrAmmError::AssetMintNotFound))
    } else {
        let owned = VoltrAmm { asset_token_program: accounts[mint].owner, ..amm };
        match decimals_of(accounts[mint].owner, accounts[mint].data) {
            Err(e) => (owned, Err(VoltrAmmError::Unpack(e))),
            Ok(decimals) => updated_idle_balance(
                VoltrAmm { asset_mint_decimals: decimals, ..owned },
                accounts,
            ),
        }
    }
}

/// The second step of an update: the LP mint, then the asset.
pub open spec fn updated_lp_mint<A>(amm: VoltrAmm<A>, accounts: Map<Pubkey, AccountView>) -> (
    VoltrAmm<A>,
    Result<(), VoltrAmmError>,
) {
    let mint = amm.vault_state.lp.mint;
    if !accounts.dom().contains(mint) {
        (amm, Err(VoltrAmmError::AccountNotFound(mint)))
    } else {
        match token::mint_state(accounts[mint].data) {
            Err(e) => (amm, Err(VoltrAmmError::Unpack(e))),
            Ok(state) => updated_asset(
                VoltrAmm {
                    lp_mint_supply: state.supply,
                    lp_mint_decimals: state.decimals,
                    ..amm
                },
                accounts,
            ),
        }
    }
}

/// The first step of an update: the vault as it was read, then the LP mint.
pub open spec fn updated_vault<A>(
    amm: VoltrAmm<A>,
    accounts: Map<Pubkey, AccountView>,
    loaded: Result<Vault<A>, VoltrAmmError>,
) -> (VoltrAmm<A>, Result<(), VoltrAmmError>) {
    match loaded {
        Err(e) => (amm, Err(e)),
        Ok(vault) => updated_lp_mint(VoltrAmm { vault_state: vault, ..amm }, accounts),
    }
}

/// The AMM after an update from accounts, and whether the update succeeded: the vault is read
/// first, then the LP mint, then the asset mint, then the idle balance. An update that fails
/// keeps what it read before.
pub open spec fn updated<A>(
    amm: VoltrAmm<A>,
    accounts: Map<Pubkey, AccountView>,
    model: spec_fn(Seq<u8>) -> Result<Vault<A>, VoltrAmmError>,
) -> (VoltrAmm<A>, Result<(), VoltrAmmError>) {
    if !accounts.dom().contains(amm.vault_key) {
        (amm, Err(VoltrAmmError::AccountNotFound(amm.vault_key)))
    } else {
        updated_vault(amm, accounts, model(accounts[amm.vault_key].data))
    }
}

/// The AMM over a vault before its first update.
pub open spec fn is_new<A>(amm: VoltrAmm<A>, vault_key: Pubkey, vault_state: Vault<A>) -> bool {
    &&& amm.label@ == AMM_LABEL@
    &&& amm.program_id == VOLTR_VAULT_PROGRAM
    &&& amm.vault_key == vault_key
    &&& amm.vault_state == vault_state
    &&& amm.lp_mint_supply == 0
    &&& amm.lp_mint_decimals == 9
    &&& amm.asset_mint_decimals == 0
    &&& amm.asset_token_program == TOKEN_PROGRAM
    &&& amm.asset_idle_balance == 0
}

/// Whether one AMM is a copy of another: all the same, but for the accounting of the vault, which
/// is cloned.
pub open spec fn is_copy<A: Clone>(amm: VoltrAmm<A>, copy: VoltrAmm<A>) -> bool {
    &&& cloned(amm.vault_state.accounting, copy.vault_state.accounting)
    &&& copy == (VoltrAmm {
        vault_state: Vault { accounting: copy.vault_state.accounting, ..amm.vault_state },
        ..amm
    })
}

/// The accounts that an update reads: the vault, and what the vault names.
pub open spec fn accounts_to_update<A>(amm: VoltrAmm<A>) -> Seq<Pubkey> {
    seq![
        amm.vault_key,
        amm.vault_state.lp.mint,
        amm.vault_state.asset.mint,
        amm.vault_state.asset.idle_ata,
    ]
}

/// The deposit that an issuing swap makes.
pub open spec fn issue_swap<A>(amm: VoltrAmm<A>, params: SwapParams) -> VoltrSwap {
    VoltrSwap {
        vault_key: amm.vault_key,
        vault_asset_mint: amm.vault_state.asset.mint,
        vault_asset_idle_ata: amm.vault_state.asset.idle_ata,
        vault_lp_mint: amm.vault_state.lp.mint,
        user_source: params.source_token_account,
        user_destination: params.destination_token_account,
        user_transfer_authority: params.token_transfer_authority,
        asset_token_program: amm.asset_token_program,
    }
}

/// The withdrawal that a redeeming swap makes.
pub open spec fn redeem_swap<A>(amm: VoltrAmm<A>, params: SwapParams) -> VoltrRedeemSwap {
    VoltrRedeemSwap {
        vault_key: amm.vault_key,
        vault_asset_mint: amm.vault_state.asset.mint,
        vault_asset_idle_ata: amm.vault_state.asset.idle_ata,
        vault_lp_mint: amm.vault_state.lp.mint,
        user_lp_ata: params.source_token_account,
        user_asset_ata: params.destination_token_account,
        user_transfer_authority: params.token_transfer_authority,
        asset_token_program: amm.asset_token_program,
        placeholder: params.placeholder,
    }
}

/// The direction of a swap.
pub open spec fn swap_direction<A>(amm: VoltrAmm<A>, params: SwapParams) -> Option<Direction> {
    quote::direction(
        amm.vault_state.asset.mint,
        amm.vault_state.lp.mint,
        params.source_mint,
        params.destination_mint,
    )
}

/// Whether the addresses that a swap derives exist.
pub open spec fn swap_addresses_exist<A>(amm: VoltrAmm<A>, params: SwapParams) -> bool {
    match swap_direction(amm, params) {
        None => true,
        Some(Direction::Issue) => address::deposit_addresses(amm.vault_key) is Some,
        Some(Direction::Redeem) => address::redeem_addresses(
            amm.vault_key,
            params.token_transfer_authority,
        ) is Some,
    }
}

/// The accounts of a swap, the placeholder last.
pub open spec fn swap_metas<A>(amm: VoltrAmm<A>, params: SwapParams) -> Result<
    Seq<AccountMeta>,
    VoltrAmmError,
> {
    match swap_direction(amm, params) {
        None => Err(VoltrAmmError::InvalidSourceMint),
        Some(Direction::Issue) => Ok(
            swap::deposit_metas(
                issue_swap(amm, params),
                address::deposit_addresses(amm.vault_key).unwrap(),
            ).push(params.placeholder),
        ),
        Some(Direction::Redeem) => Ok(
            swap::redeem_metas(
                redeem_swap(amm, params),
                address::redeem_addresses(
                    amm.vault_key,
                    params.token_transfer_authority,
                ).unwrap(),
            ).push(params.placeholder),
        ),
    }
}

/// Whether a swap and its accounts, or the error, are those of `swap_metas`.
pub open spec fn is_swap<A>(
    amm: VoltrAmm<A>,
    params: SwapParams,
    made: Result<SwapAndAccountMetas, VoltrAmmError>,
) -> bool {
    match made {
        Ok(made) => made.swap == Swap::TokenSwap && swap_metas(amm, params) == Ok::<
            Seq<AccountMeta>,
            VoltrAmmError,
        >(made.account_metas@),
        Err(e) => swap_metas(amm, params) == Err::<Seq<AccountMeta>, VoltrAmmError>(e),
    }
}

fn data_of<'a>(account_map: &'a AccountMap, key: &Pubkey) -> (data: Result<
    &'a [u8],
    VoltrAmmError,
>)
    ensures
        account_map@.dom().contains(*key) <==> data is Ok,
        data matches Ok(bytes) ==> bytes@ == account_map@[*key].data,
        data matches Err(e) ==> e == VoltrAmmError::AccountNotFound(*key),
{
    match account_map.get(key) {
        Some(account) => Ok(account.data.as_slice()),
        None => Err(VoltrAmmError::AccountNotFound(*key)),
    }
}

impl<A> VoltrAmm<A> {
    /// An AMM that has not read its mints and its idle balance yet.
    pub fn new(vault_key: Pubkey, vault_state: Vault<A>) -> (amm: VoltrAmm<A>)
        ensures
            is_new(amm, vault_key, vault_state),
    {
        VoltrAmm {
            label: AMM_LABEL.to_owned(),
            program_id: VOLTR_VAULT_PROGRAM,
            vault_key,
            vault_state,
            lp_mint_supply: 0,
            lp_mint_decimals: 9,  // LP tokens of a vault always have nine decimals
            asset_mint_decimals: 0,
            asset_token_program: TOKEN_PROGRAM,
            asset_idle_balance: 0,
        }
    }

    /// An AMM over the vault account at an address. `load` reads the vault account.
    pub fn from_keyed_account<L: Fn(&[u8]) -> Result<Vault<A>, VoltrAmmError>>(
        key: Pubkey,
        data: &[u8],
        load: &L,
    ) -> (amm: Result<VoltrAmm<A>, VoltrAmmError>)
        requires
            state::loads_all(*load),
        ensures
            amm matches Ok(made) ==> is_new(made, key, made.vault_state) && call_ensures(
                *load,
                (data,),
                Ok(made.vault_state),
            ),
            amm matches Err(e) ==> call_ensures(*load, (data,), Err(e)),
    {
        match load(data) {
            Ok(vault_state) => Ok(VoltrAmm::new(key, vault_state)),
            Err(e) => Err(e),
        }
    }

    /// The label under which the AMM is listed.
    pub fn label(&self) -> (label: String)
        ensures
            label@ == self.label@,
    {
        self.label.clone()
    }

    /// The program that the AMM calls.
    pub fn program_id(&self) -> (program_id: Pubkey)
        ensures
            program_id == self.program_id,
    {
        self.program_id
    }

    /// The address of the vault.
    pub fn key(&self) -> (key: Pubkey)
        ensures
            key == self.vault_key,
    {
        self.vault_key
    }

    /// The mints that can be swapped: the asset and the LP token.
    pub fn get_reserve_mints(&self) -> (mints: Vec<Pubkey>)
        ensures
            mints@ == seq![self.vault_state.asset.mint, self.vault_state.lp.mint],
    {
        vec![self.vault_state.asset.mint, self.vault_state.lp.mint]
    }

    /// The accounts that an update reads.
    pub fn get_accounts_to_update(&self) -> (keys: Vec<Pubkey>)
        ensures
            keys@ == accounts_to_update(*self),
    {
        vec![
            self.vault_key,
            self.vault_state.lp.mint,
            self.vault_state.asset.mint,
            self.vault_state.asset.idle_ata,
        ]
    }

    /// Whether an amount that comes out can be asked for. It cannot.
    pub fn supports_exact_out(&self) -> (supported: bool)
        ensures
            !supported,
    {
        false
    }

    /// The accounts of a swap.
    pub fn get_swap_and_account_metas(&self, swap_params: &SwapParams) -> (made: Result<
        SwapAndAccountMetas,
        VoltrAmmError,
    >)
        requires
            swap_addresses_exist(*self, *swap_params),
        ensures
            is_swap(*self, *swap_params, made),
    {
        let found = quote::find_direction(
            &self.vault_state,
            &swap_params.source_mint,
            &swap_params.destination_mint,
        );
        let account_metas = match found {
            None => return Err(VoltrAmmError::InvalidSourceMint),
            Some(Direction::Redeem) => {
                let redeem = VoltrRedeemSwap {
                    vault_key: self.vault_key,
                    vault_asset_mint: self.vault_state.asset.mint,
                    vault_asset_idle_ata: self.vault_state.asset.idle_ata,
                    vault_lp_mint: self.vault_state.lp.mint,
                    user_lp_ata: swap_params.source_token_account,
                    user_asset_ata: swap_params.destination_token_account,
                    user_transfer_authority: swap_params.token_transfer_authority,
                    asset_token_program: self.asset_token_program,
                    placeholder: swap_params.placeholder,
                };
                redeem.account_metas()
            },
            Some(Direction::Issue) => {
                let issue = VoltrSwap {
                    vault_key: self.vault_key,
                    vault_asset_mint: self.vault_state.asset.mint,
                    vault_asset_idle_ata: self.vault_state.asset.idle_ata,
                    vault_lp_mint: self.vault_state.lp.mint,
                    user_source: swap_params.source_token_account,
                    user_destination: swap_params.destination_token_account,
                    user_transfer_authority: swap_params.token_transfer_authority,
                    asset_token_program: self.asset_token_program,
                };
                issue.account_metas()
            },
        };
        let mut account_metas = account_metas;
        account_metas.push(swap_params.placeholder);
        Ok(SwapAndAccountMetas { swap: Swap::TokenSwap, account_metas })
    }

    /// `get_swap_and_account_metas`, or `None` where a derived address does not exist.
    pub fn try_get_swap_and_account_metas(&self, swap_params: &SwapParams) -> (made: Option<
        Result<SwapAndAccountMetas, VoltrAmmError>,
    >)
        ensures
            made is Some <==> swap_addresses_exist(*self, *swap_params),
            made matches Some(swap) ==> is_swap(*self, *swap_params, swap),
    {
        let found = quote::find_direction(
            &self.vault_state,
            &swap_params.source_mint,
            &swap_params.destination_mint,
        );
        let exist = match found {
            None => true,
            Some(Direction::Issue) => address::find_deposit_addresses(&self.vault_key).is_some(),
            Some(Direction::Redeem) => address::find_redeem_addresses(
                &self.vault_key,
                &swap_params.token_transfer_authority,
            ).is_some(),
        };
        if exist {
            Some(self.get_swap_and_account_metas(swap_params))
        } else {
            None
        }
    }

    /// Reads everything anew from accounts. `load` reads the vault account.
    pub fn update<L: Fn(&[u8]) -> Result<Vault<A>, VoltrAmmError>>(
        &mut self,
        account_map: &AccountMap,
        load: &L,
    ) -> (result: Result<(), VoltrAmmError>)
        requires
            state::loads_all(*load),
        ensures
            forall|model: spec_fn(Seq<u8>) -> Result<Vault<A>, VoltrAmmError>| #[trigger]
                state::loads_as(*load, model) ==> (*final(self), result) == updated(
                    *old(self),
                    account_map@,
                    model,
                ),
            !account_map@.dom().contains(old(self).vault_key) ==> (*final(self), result) == (
                *old(self),
                Err::<(), VoltrAmmError>(VoltrAmmError::AccountNotFound(old(self).vault_key)),
            ),
            account_map@.dom().contains(old(self).vault_key) ==> exists|
                data: &[u8],
                loaded: Result<Vault<A>, VoltrAmmError>,
            | #[trigger]
                call_ensures(*load, (data,), loaded) && data@
                    == account_map@[old(self).vault_key].data && (*final(self), result)
                    == updated_vault(*old(self), account_map@, loaded),
    {
        let vault_data = match data_of(account_map, &self.vault_key) {
            Ok(data) => data,
            Err(e) => return Err(e),
        };
        self.vault_state = match load(vault_data) {
            Ok(vault) => vault,
            Err(e) => return Err(e),
        };
        let lp_mint_data = match data_of(account_map, &self.vault_state.lp.mint) {
            Ok(data) => data,
            Err(e) => return Err(e),
        };
        let lp_mint = match token::unpack_mint(lp_mint_data) {
            Ok(mint) => mint,
            Err(e) => return Err(VoltrAmmError::Unpack(e)),
        };
        self.lp_mint_supply = lp_mint.supply;
        self.lp_mint_decimals = lp_mint.decimals;

        let asset_account = match account_map.get(&self.vault_state.asset.mint) {
            Some(account) => account,
            None => return Err(VoltrAmmError::AssetMintNotFound),
        };
        self.asset_token_program = asset_account.owner;
        let asset_mint = if same_key(&asset_account.owner, &TOKEN_PROGRAM) {
            token::unpack_mint(asset_account.data.as_slice())
        } else {
            token::unpack_mint_2022(asset_account.data.as_slice())
        };
        self.asset_mint_decimals = match asset_mint {
            Ok(mint) => mint.decimals,
            Err(e) => return Err(VoltrAmmError::Unpack(e)),
        };

        let idle_ata_data = match data_of(account_map, &self.vault_state.asset.idle_ata) {
            Ok(data) => data,
            Err(e) => return Err(e),
        };
        let idle_amount = if same_key(&self.asset_token_program, &TOKEN_PROGRAM) {
            token::unpack_token_account(idle_ata_data)
        } else {
            token::unpack_token_account_2022(idle_ata_data)
        };
        self.asset_idle_balance = match idle_amount {
            Ok(amount) => amount,
            Err(e) => return Err(VoltrAmmError::Unpack(e)),
        };
        Ok(())
    }
}

impl<A: Clone> Clone for VoltrAmm<A> {
    fn clone(&self) -> (amm: VoltrAmm<A>)
        ensures
            is_copy(*self, amm),
    {
        VoltrAmm {
            label: self.label.clone(),
            program_id: self.program_id,
            vault_key: self.vault_key,
            vault_state: Vault {
                asset: self.vault_state.asset,
                lp: self.vault_state.lp,
                vault_configuration: self.vault_state.vault_configuration,
                fee_configuration: self.vault_state.fee_configuration,
                fee_update: self.vault_state.fee_update,
                dead_weight: self.vault_state.dead_weight,
                last_updated_ts: self.vault_state.last_updated_ts,
                total_asset_value: self.vault_state.total_asset_value,
                accounting: self.vault_state.accounting.clone(),
            },
            lp_mint_supply: self.lp_mint_supply,
            lp_mint_decimals: self.lp_mint_decimals,
            asset_mint_decimals: self.asset_mint_decimals,
            asset_token_program: self.asset_token_program,
            asset_idle_balance: self.asset_idle_balance,
        }
    }
}

} // verus!
