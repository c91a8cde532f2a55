//! What an update reads, down to the bytes of the accounts, and what it leaves when it fails.
use vstd::prelude::*;

use crate::accounts::{Account, AccountView};
use crate::amm;
use crate::amm::VoltrAmm;
use crate::constants::{TOKEN_PROGRAM, VOLTR_VAULT_PROGRAM};
use crate::errors::{UnpackError, VoltrAmmError};
use crate::key::Pubkey;
use crate::state;
use crate::state::Vault;
use crate::token;
use crate::token::MintState;

verus! {

/// The number that eight bytes at an offset stand for, least significant first.
pub open spec fn number_at(data: Seq<u8>, at: int) -> int {
    data[at] + 256 * (data[at + 1] + 256 * (data[at + 2] + 256 * (data[at + 3] + 256 * (data[at + 4]
        + 256 * (data[at + 5] + 256 * (data[at + 6] + 256 * data[at + 7]))))))
}

// Accounts.

/// An account is seen with its owner and all of its bytes.
pub proof fn law_account_is_seen_whole(account: Account)
    ensures
        account@.owner == account.owner,
        account@.data == account.data@,
{
}

/// A mint gives its supply from bytes 36 to 43 and its decimals from byte 44, and is read exactly
/// where it has 82 bytes, valid tags for its two authorities, and is marked as initialized.
pub proof fn law_mint_bytes(data: Seq<u8>)
    ensures
        token::mint_state(data) matches Ok(mint) ==> mint.supply == number_at(data, 36)
            && mint.decimals == data[44],
        token::mint_state(data) is Ok <==> {
            &&& data.len() == 82
            &&& data[45] == 1
            &&& data[0] <= 1 && data[1] == 0 && data[2] == 0 && data[3] == 0
            &&& data[46] <= 1 && data[47] == 0 && data[48] == 0 && data[49] == 0
        },
{
}

/// A token account gives its amount from bytes 64 to 71, and is read exactly where it has 165
/// bytes, valid tags for its three optional fields, and is initialized or frozen.
pub proof fn law_token_account_bytes(data: Seq<u8>)
    ensures
        token::token_amount(data) matches Ok(amount) ==> amount == number_at(data, 64),
        token::token_amount(data) is Ok <==> {
            &&& data.len() == 165
            &&& data[108] == 1 || data[108] == 2
            &&& data[72] <= 1 && data[73] == 0 && data[74] == 0 && data[75] == 0
            &&& data[109] <= 1 && data[110] == 0 && data[111] == 0 && data[112] == 0
            &&& data[129] <= 1 && data[130] == 0 && data[131] == 0 && data[132] == 0
        },
{
}

/// A mint or token account of the right length with valid tags that was never initialized is told
/// apart from bytes that are none.
pub proof fn law_uninitialized_is_told_apart(data: Seq<u8>)
    ensures
        token::mint_state(data) == Err::<MintState, UnpackError>(UnpackError::UninitializedAccount)
            <==> {
            &&& data.len() == 82
            &&& data[45] == 0
            &&& data[0] <= 1 && data[1] == 0 && data[2] == 0 && data[3] == 0
            &&& data[46] <= 1 && data[47] == 0 && data[48] == 0 && data[49] == 0
        },
        token::token_amount(data) == Err::<u64, UnpackError>(UnpackError::UninitializedAccount)
            <==> {
            &&& data.len() == 165
            &&& data[108] == 0
            &&& data[72] <= 1 && data[73] == 0 && data[74] == 0 && data[75] == 0
            &&& data[109] <= 1 && data[110] == 0 && data[111] == 0 && data[112] == 0
            &&& data[129] <= 1 && data[130] == 0 && data[131] == 0 && data[132] == 0
        },
{
}

/// A token-2022 mint with extensions is read where its first 82 bytes are a mint, zeros follow up
/// to byte 165, that byte is one and more bytes follow; a token account where its first 165 bytes
/// are a token account, byte 165 is two and more bytes follow. Neither has the 355 bytes of a
/// multisig.
pub proof fn law_token_2022_extensions(data: Seq<u8>)
    requires
        data.len() > 165,
    ensures
        token::mint_2022_state(data) is Ok <==> {
            &&& token::mint_state(data.take(82)) is Ok
            &&& data.len() > 166
            &&& data.len() != 355
            &&& data[165] == 1
            &&& forall|i: int| 82 <= i < 165 ==> #[trigger] data[i] == 0
        },
        token::token_2022_amount(data) is Ok <==> {
            &&& token::token_amount(data.take(165)) is Ok
            &&& data.len() > 166
            &&& data.len() != 355
            &&& data[165] == 2
        },
{
}

/// A token-2022 mint or account gives what the first bytes give as one of the SPL token program;
/// without extensions the two programs read the same.
pub proof fn law_token_2022_bytes(data: Seq<u8>)
    ensures
        token::mint_2022_state(data) matches Ok(mint) ==> mint.supply == number_at(data, 36)
            && mint.decimals == data[44] && data.len() >= 82,
        token::token_2022_amount(data) matches Ok(amount) ==> amount == number_at(data, 64)
            && data.len() >= 165,
        data.len() == 82 ==> token::mint_2022_state(data) == token::mint_state(data),
        data.len() == 165 ==> token::token_2022_amount(data) == token::token_amount(data),
{
    if data.len() == 82 {
        assert(data.take(82) =~= data);
    }
    if data.len() == 165 {
        assert(data.take(165) =~= data);
    }
    if data.len() >= 82 {
        assert(forall|i: int| 0 <= i < 82 ==> data.take(82)[i] == data[i]);
        law_mint_bytes(data.take(82));
    }
    if data.len() >= 165 {
        assert(forall|i: int| 0 <= i < 165 ==> data.take(165)[i] == data[i]);
        law_token_account_bytes(data.take(165));
    }
}

// What an update reads.

/// After an update that succeeded, the idle balance is the whole amount of the vault's idle
/// account, read by the token program that owns the asset mint.
pub proof fn law_update_reads_whole_idle_balance<A>(
    amm: VoltrAmm<A>,
    accounts: Map<Pubkey, AccountView>,
    model: spec_fn(Seq<u8>) -> Result<Vault<A>, VoltrAmmError>,
    new: VoltrAmm<A>,
)
    requires
        amm::updated(amm, accounts, model) == (new, Ok::<(), VoltrAmmError>(())),
    ensures
        ({
            let owner = accounts[new.vault_state.asset.mint].owner;
            let data = accounts[new.vault_state.asset.idle_ata].data;
            &&& accounts.dom().contains(new.vault_state.asset.idle_ata)
            &&& owner == TOKEN_PROGRAM ==> token::token_amount(data) == Ok::<u64, UnpackError>(
                new.asset_idle_balance,
            )
            &&& owner != TOKEN_PROGRAM ==> token::token_2022_amount(data) == Ok::<
                u64,
                UnpackError,
            >(new.asset_idle_balance)
            &&& new.asset_idle_balance == number_at(data, 64)
        }),
{
    law_token_account_bytes(accounts[new.vault_state.asset.idle_ata].data);
    law_token_2022_bytes(accounts[new.vault_state.asset.idle_ata].data);
}

/// After an update that succeeded, the decimals of the asset are those of its mint, read by the
/// token program that owns it, and that program is the asset's.
pub proof fn law_update_reads_asset_mint<A>(
    amm: VoltrAmm<A>,
    accounts: Map<Pubkey, AccountView>,
    model: spec_fn(Seq<u8>) -> Result<Vault<A>, VoltrAmmError>,
    new: VoltrAmm<A>,
)
    requires
        amm::updated(amm, accounts, model) == (new, Ok::<(), VoltrAmmError>(())),
    ensures
        ({
            let account = accounts[new.vault_state.asset.mint];
            &&& accounts.dom().contains(new.vault_state.asset.mint)
            &&& new.asset_token_program == account.owner
            &&& new.asset_mint_decimals == account.data[44]
            &&& account.owner == TOKEN_PROGRAM ==> (token::mint_state(account.data) matches Ok(mint)
                && mint.decimals == new.asset_mint_decimals)
            &&& account.owner != TOKEN_PROGRAM ==> (token::mint_2022_state(
                account.data,
            ) matches Ok(mint) && mint.decimals == new.asset_mint_decimals)
        }),
{
    law_mint_bytes(accounts[new.vault_state.asset.mint].data);
    law_token_2022_bytes(accounts[new.vault_state.asset.mint].data);
}

/// After an update that succeeded, supply and decimals of the LP token are those of its mint, as
/// one of the SPL token program, whoever owns it.
pub proof fn law_update_reads_lp_mint<A>(
    amm: VoltrAmm<A>,
    accounts: Map<Pubkey, AccountView>,
    model: spec_fn(Seq<u8>) -> Result<Vault<A>, VoltrAmmError>,
    new: VoltrAmm<A>,
)
    requires
        amm::updated(amm, accounts, model) == (new, Ok::<(), VoltrAmmError>(())),
    ensures
        ({
            let data = accounts[new.vault_state.lp.mint].data;
            &&& accounts.dom().contains(new.vault_state.lp.mint)
            &&& token::mint_state(data) == Ok::<MintState, UnpackError>(
                MintState { supply: new.lp_mint_supply, decimals: new.lp_mint_decimals },
            )
            &&& new.lp_mint_supply == number_at(data, 36)
            &&& new.lp_mint_decimals == data[44]
        }),
{
    law_mint_bytes(accounts[new.vault_state.lp.mint].data);
}

/// After an update that succeeded, the vault is the one that its account holds, whole.
pub proof fn law_update_reads_vault<A>(
    amm: VoltrAmm<A>,
    accounts: Map<Pubkey, AccountView>,
    model: spec_fn(Seq<u8>) -> Result<Vault<A>, VoltrAmmError>,
    new: VoltrAmm<A>,
)
    requires
        amm::updated(amm, accounts, model) == (new, Ok::<(), VoltrAmmError>(())),
    ensures
        accounts.dom().contains(amm.vault_key),
        model(accounts[amm.vault_key].data) == Ok::<Vault<A>, VoltrAmmError>(new.vault_state),
        new.label == amm.label,
        new.program_id == amm.program_id,
        new.vault_key == amm.vault_key,
{
}

/// An update does not depend on what the AMM read before: two AMMs over one vault that both update
/// from the same accounts agree afterwards on all that was read.
pub proof fn law_update_forgets_the_past<A>(
    amm: VoltrAmm<A>,
    other: VoltrAmm<A>,
    accounts: Map<Pubkey, AccountView>,
    model: spec_fn(Seq<u8>) -> Result<Vault<A>, VoltrAmmError>,
)
    requires
        amm.vault_key == other.vault_key,
    ensures
        ({
            let (new, result) = amm::updated(amm, accounts, model);
            let (other_new, other_result) = amm::updated(other, accounts, model);
            &&& result == other_result
            &&& result is Ok ==> new == (VoltrAmm {
                label: amm.label,
                program_id: amm.program_id,
                ..other_new
            })
        }),
{
}

// When an update succeeds, and what it leaves when it fails.

/// An update fails, and changes nothing, where the vault account is missing or cannot be read.
pub proof fn law_update_without_vault<A>(
    amm: VoltrAmm<A>,
    accounts: Map<Pubkey, AccountView>,
    model: spec_fn(Seq<u8>) -> Result<Vault<A>, VoltrAmmError>,
)
    ensures
        !accounts.dom().contains(amm.vault_key) ==> amm::updated(amm, accounts, model) == (
            amm,
            Err::<(), VoltrAmmError>(VoltrAmmError::AccountNotFound(amm.vault_key)),
        ),
        accounts.dom().contains(amm.vault_key) ==> (model(
            accounts[amm.vault_key].data,
        ) matches Err(e) ==> amm::updated(amm, accounts, model) == (
            amm,
            Err::<(), VoltrAmmError>(e),
        )),
{
}

/// Where the vault was read but its LP mint is missing or cannot be read, an update fails and
/// changes the vault alone.
pub proof fn law_update_without_lp_mint<A>(
    amm: VoltrAmm<A>,
    accounts: Map<Pubkey, AccountView>,
    model: spec_fn(Seq<u8>) -> Result<Vault<A>, VoltrAmmError>,
    vault: Vault<A>,
)
    requires
        accounts.dom().contains(amm.vault_key),
        model(accounts[amm.vault_key].data) == Ok::<Vault<A>, VoltrAmmError>(vault),
    ensures
        !accounts.dom().contains(vault.lp.mint) ==> amm::updated(amm, accounts, model) == (
            VoltrAmm { vault_state: vault, ..amm },
            Err::<(), VoltrAmmError>(VoltrAmmError::AccountNotFound(vault.lp.mint)),
        ),
        accounts.dom().contains(vault.lp.mint) ==> (token::mint_state(
            accounts[vault.lp.mint].data,
        ) matches Err(e) ==> amm::updated(amm, accounts, model) == (
            VoltrAmm { vault_state: vault, ..amm },
            Err::<(), VoltrAmmError>(VoltrAmmError::Unpack(e)),
        )),
{
}

/// Where the LP mint was read but the asset mint is missing, an update fails and keeps the token
/// program, decimals and idle balance of before. Where the asset mint is there but cannot be read
/// by its program, it keeps the decimals and idle balance of before.
pub proof fn law_update_without_asset_mint<A>(
    amm: VoltrAmm<A>,
    accounts: Map<Pubkey, AccountView>,
    model: spec_fn(Seq<u8>) -> Result<Vault<A>, VoltrAmmError>,
    vault: Vault<A>,
    lp_mint: MintState,
)
    requires
        accounts.dom().contains(amm.vault_key),
        model(accounts[amm.vault_key].data) == Ok::<Vault<A>, VoltrAmmError>(vault),
        accounts.dom().contains(vault.lp.mint),
        token::mint_state(accounts[vault.lp.mint].data) == Ok::<MintState, UnpackError>(lp_mint),
    ensures
        ({
            let read = VoltrAmm {
                vault_state: vault,
                lp_mint_supply: lp_mint.supply,
                lp_mint_decimals: lp_mint.decimals,
                ..amm
            };
            let account = accounts[vault.asset.mint];
            let mint = if account.owner == TOKEN_PROGRAM {
                token::mint_state(account.data)
            } else {
                token::mint_2022_state(account.data)
            };
            &&& !accounts.dom().contains(vault.asset.mint) ==> amm::updated(amm, accounts, model)
                == (read, Err::<(), VoltrAmmError>(VoltrAmmError::AssetMintNotFound))
            &&& accounts.dom().contains(vault.asset.mint) ==> (mint matches Err(e) ==> amm::updated(
                amm,
                accounts,
                model,
            ) == (
                VoltrAmm { asset_token_program: account.owner, ..read },
                Err::<(), VoltrAmmError>(VoltrAmmError::Unpack(e)),
            ))
        }),
{
}

/// Where everything else was read but the idle account is missing or cannot be read, an update
/// fails and keeps only the idle balance of before; where it can be read, the update succeeds.
pub proof fn law_update_ends_with_idle_balance<A>(
    amm: VoltrAmm<A>,
    accounts: Map<Pubkey, AccountView>,
    model: spec_fn(Seq<u8>) -> Result<Vault<A>, VoltrAmmError>,
    vault: Vault<A>,
    lp_mint: MintState,
    asset_mint: MintState,
)
    requires
        accounts.dom().contains(amm.vault_key),
        model(accounts[amm.vault_key].data) == Ok::<Vault<A>, VoltrAmmError>(vault),
        accounts.dom().contains(vault.lp.mint),
        token::mint_state(accounts[vault.lp.mint].data) == Ok::<MintState, UnpackError>(lp_mint),
        accounts.dom().contains(vault.asset.mint),
        Ok::<MintState, UnpackError>(asset_mint) == if accounts[vault.asset.mint].owner
            == TOKEN_PROGRAM {
            token::mint_state(accounts[vault.asset.mint].data)
        } else {
            token::mint_2022_state(accounts[vault.asset.mint].data)
        },
    ensures
        ({
            let read = VoltrAmm {
                vault_state: vault,
                lp_mint_supply: lp_mint.supply,
                lp_mint_decimals: lp_mint.decimals,
                asset_token_program: accounts[vault.asset.mint].owner,
                asset_mint_decimals: asset_mint.decimals,
                ..amm
            };
            let data = accounts[vault.asset.idle_ata].data;
            let amount = if accounts[vault.asset.mint].owner == TOKEN_PROGRAM {
                token::token_amount(data)
            } else {
                token::token_2022_amount(data)
            };
            if !accounts.dom().contains(vault.asset.idle_ata) {
                amm::updated(amm, accounts, model) == (
                    read,
                    Err::<(), VoltrAmmError>(VoltrAmmError::AccountNotFound(vault.asset.idle_ata)),
                )
            } else {
                match amount {
                    Err(e) => amm::updated(amm, accounts, model) == (
                        read,
                        Err::<(), VoltrAmmError>(VoltrAmmError::Unpack(e)),
                    ),
                    Ok(amount) => amm::updated(amm, accounts, model) == (
                        VoltrAmm { asset_idle_balance: amount, ..read },
                        Ok::<(), VoltrAmmError>(()),
                    ),
                }
            }
        }),
{
}

/// An update goes by what the vault account was read as: with that taken as given, it is what it is
/// with a reader that reads so.
pub proof fn law_update_goes_by_what_was_loaded<A>(
    amm: VoltrAmm<A>,
    accounts: Map<Pubkey, AccountView>,
    model: spec_fn(Seq<u8>) -> Result<Vault<A>, VoltrAmmError>,
    loaded: Result<Vault<A>, VoltrAmmError>,
)
    requires
        accounts.dom().contains(amm.vault_key),
        model(accounts[amm.vault_key].data) == loaded,
    ensures
        amm::updated_vault(amm, accounts, loaded) == amm::updated(amm, accounts, model),
{
}

/// A reader of vault accounts whose every answer is what a function says reads as that function.
pub proof fn law_loads_make_a_function<A, L: Fn(&[u8]) -> Result<Vault<A>, VoltrAmmError>>(
    load: L,
    model: spec_fn(Seq<u8>) -> Result<Vault<A>, VoltrAmmError>,
)
    ensures
        (forall|data: &[u8], vault: Result<Vault<A>, VoltrAmmError>| #[trigger]
            call_ensures(load, (data,), vault) ==> vault == model(data@)) ==> state::loads_as(
            load,
            model,
        ),
        (forall|data: &[u8]| #[trigger] call_requires(load, (data,))) ==> state::loads_all(load),
{
}

/// An update reads the vault, its two mints and its idle account, in this order.
pub proof fn law_accounts_to_update<A>(amm: VoltrAmm<A>)
    ensures
        amm::accounts_to_update(amm).len() == 4,
        amm::accounts_to_update(amm)[0] == amm.vault_key,
        amm::accounts_to_update(amm)[1] == amm.vault_state.lp.mint,
        amm::accounts_to_update(amm)[2] == amm.vault_state.asset.mint,
        amm::accounts_to_update(amm)[3] == amm.vault_state.asset.idle_ata,
{
}

// New AMMs and copies.

/// A new AMM is over the vault it was given, at its address, and has read nothing: no supply, no
/// decimals of the asset, no idle balance. Its LP token has nine decimals, and its asset is taken
/// for one of the SPL token program.
pub proof fn law_new_amm_has_read_nothing<A>(
    amm: VoltrAmm<A>,
    vault_key: Pubkey,
    vault_state: Vault<A>,
)
    requires
        amm::is_new(amm, vault_key, vault_state),
    ensures
        amm.vault_key == vault_key,
        amm.vault_state == vault_state,
        amm.label@ == "VoltrAmm"@,
        amm.program_id == VOLTR_VAULT_PROGRAM,
        amm.lp_mint_supply == 0,
        amm.lp_mint_decimals == 9,
        amm.asset_mint_decimals == 0,
        amm.asset_token_program == TOKEN_PROGRAM,
        amm.asset_idle_balance == 0,
{
}

/// A copy has every field of the AMM it was made from; the accounting of its vault is a clone.
pub proof fn law_copy_has_every_field<A: Clone>(amm: VoltrAmm<A>, copy: VoltrAmm<A>)
    requires
        amm::is_copy(amm, copy),
    ensures
        copy.label == amm.label,
        copy.program_id == amm.program_id,
        copy.vault_key == amm.vault_key,
        copy.vault_state.asset == amm.vault_state.asset,
        copy.vault_state.lp == amm.vault_state.lp,
        copy.vault_state.vault_configuration == amm.vault_state.vault_configuration,
        copy.vault_state.fee_configuration == amm.vault_state.fee_configuration,
        copy.vault_state.fee_update == amm.vault_state.fee_update,
        copy.vault_state.dead_weight == amm.vault_state.dead_weight,
        copy.vault_state.last_updated_ts == amm.vault_state.last_updated_ts,
        copy.vault_state.total_asset_value == amm.vault_state.total_asset_value,
        cloned(amm.vault_state.accounting, copy.vault_state.accounting),
        copy.lp_mint_supply == amm.lp_mint_supply,
        copy.lp_mint_decimals == amm.lp_mint_decimals,
        copy.asset_mint_decimals == amm.asset_mint_decimals,
        copy.asset_token_program == amm.asset_token_program,
        copy.asset_idle_balance == amm.asset_idle_balance,
{
}

} // verus!
