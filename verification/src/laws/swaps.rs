//! Which account stands where in a swap, and which bytes call the vault program.
use vstd::prelude::*;

use crate::address;
use crate::address::{DepositAddresses, RedeemAddresses};
use crate::amm;
use crate::amm::{Swap, SwapAndAccountMetas, SwapParams, VoltrAmm};
use crate::constants::{
    ATA_PROGRAM, PROTOCOL_SEED, REQUEST_WITHDRAW_VAULT_RECEIPT_SEED, SYSTEM_PROGRAM, TOKEN_PROGRAM,
    VAULT_ASSET_IDLE_AUTH_SEED, VAULT_LP_MINT_AUTH_SEED, VAULT_LP_MINT_SEED, VOLTR_VAULT_PROGRAM,
};
use crate::encoding;
use crate::errors::VoltrAmmError;
use crate::instruction;
use crate::instruction::{AccountMeta, Instruction};
use crate::key::Pubkey;
use crate::laws::updates::number_at;
use crate::swap;
use crate::swap::{VoltrRedeemSwap, VoltrSwap};

verus! {

/// An account with its rights.
pub open spec fn is_meta(
    meta: AccountMeta,
    key: Pubkey,
    is_signer: bool,
    is_writable: bool,
) -> bool {
    &&& meta.pubkey == key
    &&& meta.is_signer == is_signer
    &&& meta.is_writable == is_writable
}

/// The address that seeds and a program give.
pub open spec fn is_derived(address: Pubkey, seeds: Seq<Seq<u8>>, program: Pubkey) -> bool {
    address::program_address(seeds, program@) matches Some(found) && found.0 == address
}

/// A meta that may be written differs from one that may not in that right alone.
pub proof fn law_meta_rights(key: Pubkey, is_signer: bool)
    ensures
        is_meta(instruction::writable(key, is_signer), key, is_signer, true),
        is_meta(instruction::readonly(key, is_signer), key, is_signer, false),
{
}

// Derived addresses.

/// The receipt of a withdrawal request is the address of the vault program for its seed, the vault
/// and the user; the LP mint that for its seed and the vault; a token account that of the
/// associated token program for wallet, token program and mint. Each exists where that does.
pub proof fn law_addresses_are_derived(
    vault_key: Pubkey,
    user: Pubkey,
    wallet: Pubkey,
    mint: Pubkey,
)
    ensures
        ({
            let seeds = seq![REQUEST_WITHDRAW_VAULT_RECEIPT_SEED@, vault_key@, user@];
            match address::receipt_address(vault_key, user) {
                Some(found) => is_derived(found, seeds, VOLTR_VAULT_PROGRAM),
                None => address::program_address(seeds, VOLTR_VAULT_PROGRAM@) is None,
            }
        }),
        ({
            let seeds = seq![VAULT_LP_MINT_SEED@, vault_key@];
            match address::vault_lp_mint_address(vault_key) {
                Some(found) => is_derived(found, seeds, VOLTR_VAULT_PROGRAM),
                None => address::program_address(seeds, VOLTR_VAULT_PROGRAM@) is None,
            }
        }),
        ({
            let seeds = seq![wallet@, TOKEN_PROGRAM@, mint@];
            match address::associated_token_address(wallet, mint) {
                Some(found) => is_derived(found, seeds, ATA_PROGRAM),
                None => address::program_address(seeds, ATA_PROGRAM@) is None,
            }
        }),
{
}

/// The addresses of a deposit are those of the vault program for their seeds, and are found exactly
/// where each of them exists.
pub proof fn law_deposit_addresses(vault_key: Pubkey)
    ensures
        ({
            let protocol = seq![PROTOCOL_SEED@];
            let lp_mint = seq![VAULT_LP_MINT_SEED@, vault_key@];
            let idle_auth = seq![VAULT_ASSET_IDLE_AUTH_SEED@, vault_key@];
            let lp_mint_auth = seq![VAULT_LP_MINT_AUTH_SEED@, vault_key@];
            let program = VOLTR_VAULT_PROGRAM;
            match address::deposit_addresses(vault_key) {
                Some(found) => {
                    &&& is_derived(found.protocol, protocol, program)
                    &&& is_derived(found.vault_lp_mint, lp_mint, program)
                    &&& is_derived(found.vault_asset_idle_auth, idle_auth, program)
                    &&& is_derived(found.vault_lp_mint_auth, lp_mint_auth, program)
                },
                None => {
                    ||| address::program_address(protocol, program@) is None
                    ||| address::program_address(lp_mint, program@) is None
                    ||| address::program_address(idle_auth, program@) is None
                    ||| address::program_address(lp_mint_auth, program@) is None
                },
            }
        }),
{
}

/// The addresses of a withdrawal are those of the vault program for their seeds, and the associated
/// token account of the receipt and the LP mint. They are found exactly where each of them exists.
pub proof fn law_redeem_addresses(vault_key: Pubkey, user: Pubkey)
    ensures
        ({
            let protocol = seq![PROTOCOL_SEED@];
            let lp_mint = seq![VAULT_LP_MINT_SEED@, vault_key@];
            let idle_auth = seq![VAULT_ASSET_IDLE_AUTH_SEED@, vault_key@];
            let receipt = seq![REQUEST_WITHDRAW_VAULT_RECEIPT_SEED@, vault_key@, user@];
            let program = VOLTR_VAULT_PROGRAM;
            match address::redeem_addresses(vault_key, user) {
                Some(found) => {
                    &&& is_derived(found.protocol, protocol, program)
                    &&& is_derived(found.vault_lp_mint, lp_mint, program)
                    &&& is_derived(found.vault_asset_idle_auth, idle_auth, program)
                    &&& is_derived(found.receipt, receipt, program)
                    &&& is_derived(
                        found.receipt_lp_ata,
                        seq![found.receipt@, TOKEN_PROGRAM@, found.vault_lp_mint@],
                        ATA_PROGRAM,
                    )
                },
                None => {
                    ||| address::program_address(protocol, program@) is None
                    ||| address::program_address(lp_mint, program@) is None
                    ||| address::program_address(idle_auth, program@) is None
                    ||| address::program_address(receipt, program@) is None
                    ||| (address::program_address(receipt, program@) matches Some(receipt)
                        && (address::program_address(lp_mint, program@) matches Some(lp_mint)
                        && address::program_address(
                        seq![receipt.0@, TOKEN_PROGRAM@, lp_mint.0@],
                        ATA_PROGRAM@,
                    ) is None))
                },
            }
        }),
{
}

// Accounts.

/// A deposit takes asset from the user's source account into the vault's idle account, and mints LP
/// tokens to the user's destination account; only what changes is written to, and only the user's
/// authority signs.
pub proof fn law_deposit_accounts(s: VoltrSwap, a: DepositAddresses)
    ensures
        ({
            let metas = swap::deposit_metas(s, a);
            &&& metas.len() == 13
            &&& is_meta(metas[0], s.user_transfer_authority, true, false)
            &&& is_meta(metas[1], a.protocol, false, false)
            &&& is_meta(metas[2], s.vault_key, false, true)
            &&& is_meta(metas[3], s.vault_asset_mint, false, false)
            &&& is_meta(metas[4], a.vault_lp_mint, false, true)
            &&& is_meta(metas[5], s.user_source, false, true)
            &&& is_meta(metas[6], s.vault_asset_idle_ata, false, true)
            &&& is_meta(metas[7], a.vault_asset_idle_auth, false, false)
            &&& is_meta(metas[8], s.user_destination, false, true)
            &&& is_meta(metas[9], a.vault_lp_mint_auth, false, false)
            &&& is_meta(metas[10], s.asset_token_program, false, false)
            &&& is_meta(metas[11], TOKEN_PROGRAM, false, false)
            &&& is_meta(metas[12], SYSTEM_PROGRAM, false, false)
        }),
{
}

/// A withdrawal request takes LP tokens from the user's LP account into the receipt's, and writes
/// the receipt.
pub proof fn law_request_accounts(s: VoltrRedeemSwap, a: RedeemAddresses)
    ensures
        ({
            let metas = swap::request_metas(s, a);
            &&& metas.len() == 10
            &&& is_meta(metas[0], s.user_transfer_authority, true, true)
            &&& is_meta(metas[1], s.user_transfer_authority, true, false)
            &&& is_meta(metas[2], a.protocol, false, false)
            &&& is_meta(metas[3], s.vault_key, false, false)
            &&& is_meta(metas[4], a.vault_lp_mint, false, false)
            &&& is_meta(metas[5], s.user_lp_ata, false, true)
            &&& is_meta(metas[6], a.receipt_lp_ata, false, true)
            &&& is_meta(metas[7], a.receipt, false, true)
            &&& is_meta(metas[8], TOKEN_PROGRAM, false, false)
            &&& is_meta(metas[9], SYSTEM_PROGRAM, false, false)
        }),
{
}

/// A withdrawal takes LP tokens from the receipt's account, and pays asset from the vault's idle
/// account into the user's asset account, whatever the token program of the asset.
pub proof fn law_withdraw_accounts(s: VoltrRedeemSwap, a: RedeemAddresses)
    ensures
        ({
            let metas = swap::withdraw_metas(s, a);
            &&& metas.len() == 13
            &&& is_meta(metas[0], s.user_transfer_authority, true, true)
            &&& is_meta(metas[1], a.protocol, false, false)
            &&& is_meta(metas[2], s.vault_key, false, true)
            &&& is_meta(metas[3], s.vault_asset_mint, false, false)
            &&& is_meta(metas[4], a.vault_lp_mint, false, true)
            &&& is_meta(metas[5], a.receipt_lp_ata, false, true)
            &&& is_meta(metas[6], s.vault_asset_idle_ata, false, true)
            &&& is_meta(metas[7], a.vault_asset_idle_auth, false, true)
            &&& is_meta(metas[8], s.user_asset_ata, false, true)
            &&& is_meta(metas[9], a.receipt, false, true)
            &&& is_meta(metas[10], s.asset_token_program, false, false)
            &&& is_meta(metas[11], TOKEN_PROGRAM, false, false)
            &&& is_meta(metas[12], SYSTEM_PROGRAM, false, false)
        }),
{
}

/// The accounts of a withdrawal are those of the request, the placeholder, and those of the payout.
pub proof fn law_redeem_accounts(s: VoltrRedeemSwap, a: RedeemAddresses)
    ensures
        ({
            let metas = swap::redeem_metas(s, a);
            &&& metas.len() == 24
            &&& is_meta(metas[0], s.user_transfer_authority, true, true)
            &&& is_meta(metas[1], s.user_transfer_authority, true, false)
            &&& is_meta(metas[2], a.protocol, false, false)
            &&& is_meta(metas[3], s.vault_key, false, false)
            &&& is_meta(metas[4], a.vault_lp_mint, false, false)
            &&& is_meta(metas[5], s.user_lp_ata, false, true)
            &&& is_meta(metas[6], a.receipt_lp_ata, false, true)
            &&& is_meta(metas[7], a.receipt, false, true)
            &&& is_meta(metas[8], TOKEN_PROGRAM, false, false)
            &&& is_meta(metas[9], SYSTEM_PROGRAM, false, false)
            &&& metas[10] == s.placeholder
            &&& is_meta(metas[11], s.user_transfer_authority, true, true)
            &&& is_meta(metas[12], a.protocol, false, false)
            &&& is_meta(metas[13], s.vault_key, false, true)
            &&& is_meta(metas[14], s.vault_asset_mint, false, false)
            &&& is_meta(metas[15], a.vault_lp_mint, false, true)
            &&& is_meta(metas[16], a.receipt_lp_ata, false, true)
            &&& is_meta(metas[17], s.vault_asset_idle_ata, false, true)
            &&& is_meta(metas[18], a.vault_asset_idle_auth, false, true)
            &&& is_meta(metas[19], s.user_asset_ata, false, true)
            &&& is_meta(metas[20], a.receipt, false, true)
            &&& is_meta(metas[21], s.asset_token_program, false, false)
            &&& is_meta(metas[22], TOKEN_PROGRAM, false, false)
            &&& is_meta(metas[23], SYSTEM_PROGRAM, false, false)
        }),
{
}

// Swaps for the router.

/// A swap is made between the vault's two mints, in either order, and refused for its mints
/// between all others.
pub proof fn law_swap_is_made_between_own_mints<A>(
    amm: VoltrAmm<A>,
    params: SwapParams,
    made: Result<SwapAndAccountMetas, VoltrAmmError>,
)
    requires
        amm::is_swap(amm, params, made),
    ensures
        ({
            let asset = amm.vault_state.asset.mint;
            let lp = amm.vault_state.lp.mint;
            let own = (params.source_mint == asset && params.destination_mint == lp) || (
            params.source_mint == lp && params.destination_mint == asset);
            &&& made is Ok <==> own
            &&& made matches Ok(made) ==> made.swap == Swap::TokenSwap
            &&& made matches Err(e) ==> e == VoltrAmmError::InvalidSourceMint
        }),
{
}

/// A swap from LP tokens to asset lists, account by account, the AMM's own vault and the user's
/// accounts: LP tokens come from the source account, asset goes from the vault's idle account to
/// the destination account through the asset's token program, and the placeholder stands between
/// the two calls and at the end.
pub proof fn law_redeeming_swap_accounts<A>(
    amm: VoltrAmm<A>,
    params: SwapParams,
    made: SwapAndAccountMetas,
)
    requires
        amm::is_swap(amm, params, Ok(made)),
        amm::swap_addresses_exist(amm, params),
        params.source_mint == amm.vault_state.lp.mint,
        params.destination_mint == amm.vault_state.asset.mint,
    ensures
        ({
            let metas = made.account_metas@;
            let vault_key = amm.vault_key;
            let user = params.token_transfer_authority;
            let program = VOLTR_VAULT_PROGRAM;
            let lp_mint_seeds = seq![VAULT_LP_MINT_SEED@, vault_key@];
            let idle_auth_seeds = seq![VAULT_ASSET_IDLE_AUTH_SEED@, vault_key@];
            let receipt_seeds = seq![REQUEST_WITHDRAW_VAULT_RECEIPT_SEED@, vault_key@, user@];
            let protocol = metas[2].pubkey;
            let lp_mint = metas[4].pubkey;
            let receipt_lp_ata = metas[6].pubkey;
            let receipt = metas[7].pubkey;
            let idle_auth = metas[18].pubkey;
            &&& metas.len() == 25
            &&& is_derived(protocol, seq![PROTOCOL_SEED@], program)
            &&& is_derived(lp_mint, lp_mint_seeds, program)
            &&& is_derived(idle_auth, idle_auth_seeds, program)
            &&& is_derived(receipt, receipt_seeds, program)
            &&& is_derived(
                receipt_lp_ata,
                seq![receipt@, TOKEN_PROGRAM@, lp_mint@],
                ATA_PROGRAM,
            )
            &&& is_meta(metas[0], user, true, true)
            &&& is_meta(metas[1], user, true, false)
            &&& is_meta(metas[2], protocol, false, false)
            &&& is_meta(metas[3], vault_key, false, false)
            &&& is_meta(metas[4], lp_mint, false, false)
            &&& is_meta(metas[5], params.source_token_account, false, true)
            &&& is_meta(metas[6], receipt_lp_ata, false, true)
            &&& is_meta(metas[7], receipt, false, true)
            &&& is_meta(metas[8], TOKEN_PROGRAM, false, false)
            &&& is_meta(metas[9], SYSTEM_PROGRAM, false, false)
            &&& metas[10] == params.placeholder
            &&& is_meta(metas[11], user, true, true)
            &&& is_meta(metas[12], protocol, false, false)
            &&& is_meta(metas[13], vault_key, false, true)
            &&& is_meta(metas[14], amm.vault_state.asset.mint, false, false)
            &&& is_meta(metas[15], lp_mint, false, true)
            &&& is_meta(metas[16], receipt_lp_ata, false, true)
            &&& is_meta(metas[17], amm.vault_state.asset.idle_ata, false, true)
            &&& is_meta(metas[18], idle_auth, false, true)
            &&& is_meta(metas[19], params.destination_token_account, false, true)
            &&& is_meta(metas[20], receipt, false, true)
            &&& is_meta(metas[21], amm.asset_token_program, false, false)
            &&& is_meta(metas[22], TOKEN_PROGRAM, false, false)
            &&& is_meta(metas[23], SYSTEM_PROGRAM, false, false)
            &&& metas[24] == params.placeholder
        }),
{
    let a = address::redeem_addresses(amm.vault_key, params.token_transfer_authority).unwrap();
    let metas = swap::redeem_metas(amm::redeem_swap(amm, params), a);
    law_redeem_accounts(amm::redeem_swap(amm, params), a);
    assert(made.account_metas@ == metas.push(params.placeholder));
    assert(forall|i: int| 0 <= i < 24 ==> made.account_metas@[i] == metas[i]);
}

/// A swap from asset to LP tokens lists, account by account, the AMM's own vault and the user's
/// accounts: asset comes from the source account into the vault's idle account through the asset's
/// token program, LP tokens go to the destination account, and the placeholder stands at the end.
pub proof fn law_issuing_swap_accounts<A>(
    amm: VoltrAmm<A>,
    params: SwapParams,
    made: SwapAndAccountMetas,
)
    requires
        amm::is_swap(amm, params, Ok(made)),
        amm::swap_addresses_exist(amm, params),
        params.source_mint == amm.vault_state.asset.mint,
        params.destination_mint == amm.vault_state.lp.mint,
        amm.vault_state.asset.mint != amm.vault_state.lp.mint,
    ensures
        ({
            let metas = made.account_metas@;
            let vault_key = amm.vault_key;
            let user = params.token_transfer_authority;
            let program = VOLTR_VAULT_PROGRAM;
            let lp_mint_seeds = seq![VAULT_LP_MINT_SEED@, vault_key@];
            let idle_auth_seeds = seq![VAULT_ASSET_IDLE_AUTH_SEED@, vault_key@];
            let lp_mint_auth_seeds = seq![VAULT_LP_MINT_AUTH_SEED@, vault_key@];
            let protocol = metas[1].pubkey;
            let lp_mint = metas[4].pubkey;
            let idle_auth = metas[7].pubkey;
            let lp_mint_auth = metas[9].pubkey;
            &&& metas.len() == 14
            &&& is_derived(protocol, seq![PROTOCOL_SEED@], program)
            &&& is_derived(lp_mint, lp_mint_seeds, program)
            &&& is_derived(idle_auth, idle_auth_seeds, program)
            &&& is_derived(lp_mint_auth, lp_mint_auth_seeds, program)
            &&& is_meta(metas[0], user, true, false)
            &&& is_meta(metas[1], protocol, false, false)
            &&& is_meta(metas[2], vault_key, false, true)
            &&& is_meta(metas[3], amm.vault_state.asset.mint, false, false)
            &&& is_meta(metas[4], lp_mint, false, true)
            &&& is_meta(metas[5], params.source_token_account, false, true)
            &&& is_meta(metas[6], amm.vault_state.asset.idle_ata, false, true)
            &&& is_meta(metas[7], idle_auth, false, false)
            &&& is_meta(metas[8], params.destination_token_account, false, true)
            &&& is_meta(metas[9], lp_mint_auth, false, false)
            &&& is_meta(metas[10], amm.asset_token_program, false, false)
            &&& is_meta(metas[11], TOKEN_PROGRAM, false, false)
            &&& is_meta(metas[12], SYSTEM_PROGRAM, false, false)
            &&& metas[13] == params.placeholder
        }),
{
    let a = address::deposit_addresses(amm.vault_key).unwrap();
    let metas = swap::deposit_metas(amm::issue_swap(amm, params), a);
    law_deposit_accounts(amm::issue_swap(amm, params), a);
    assert(made.account_metas@ == metas.push(params.placeholder));
    assert(forall|i: int| 0 <= i < 13 ==> made.account_metas@[i] == metas[i]);
}

/// The addresses that a swap derives exist where those of its direction do: of the vault and the
/// user for a redemption, of the vault for a deposit, and none are needed between other mints.
pub proof fn law_swap_addresses<A>(amm: VoltrAmm<A>, params: SwapParams)
    ensures
        ({
            let asset = amm.vault_state.asset.mint;
            let lp = amm.vault_state.lp.mint;
            let is_redeem = params.source_mint == lp && params.destination_mint == asset;
            let is_issue = params.source_mint == asset && params.destination_mint == lp;
            amm::swap_addresses_exist(amm, params) == if is_redeem {
                address::redeem_addresses(amm.vault_key, params.token_transfer_authority) is Some
            } else if is_issue {
                address::deposit_addresses(amm.vault_key) is Some
            } else {
                true
            }
        }),
{
}

// Instructions.

/// A split puts before and after the first separator, in order, all that stands there.
pub proof fn law_split_parts(
    metas: Seq<AccountMeta>,
    separator: AccountMeta,
    head: Seq<AccountMeta>,
    tail: Seq<AccountMeta>,
)
    requires
        swap::is_split(metas, separator, head, tail),
    ensures
        metas.len() == head.len() + 1 + tail.len(),
        metas[head.len() as int] == separator,
        forall|i: int|
            0 <= i < head.len() ==> #[trigger] head[i] == metas[i] && head[i] != separator,
        forall|i: int| 0 <= i < tail.len() ==> #[trigger] tail[i] == metas[head.len() + 1 + i],
{
    assert forall|i: int| 0 <= i < head.len() implies #[trigger] head[i] == metas[i] && head[i]
        != separator by {
        assert(head.contains(head[i]));
    }
}

/// The bytes of a number stand least significant first.
pub proof fn law_number_bytes(x: u64)
    ensures
        encoding::le_bytes(x).len() == 8,
        number_at(encoding::le_bytes(x), 0) == x,
{
    let n = x as int;
    assert(n / 0x1_0000 == n / 0x100 / 0x100);
    assert(n / 0x100_0000 == n / 0x1_0000 / 0x100);
    assert(n / 0x1_0000_0000 == n / 0x100_0000 / 0x100);
    assert(n / 0x100_0000_0000 == n / 0x1_0000_0000 / 0x100);
    assert(n / 0x1_0000_0000_0000 == n / 0x100_0000_0000 / 0x100);
    assert(n / 0x100_0000_0000_0000 == n / 0x1_0000_0000_0000 / 0x100);
}

/// Whatever comes before the bytes of a number, it is found behind that.
pub proof fn law_number_after(before: Seq<u8>, x: u64, after: Seq<u8>)
    ensures
        number_at(before + encoding::le_bytes(x) + after, before.len() as int) == x,
{
    let data = before + encoding::le_bytes(x) + after;
    let at = before.len() as int;
    law_number_bytes(x);
    assert(data[at] == encoding::le_bytes(x)[0]);
    assert(data[at + 1] == encoding::le_bytes(x)[1]);
    assert(data[at + 2] == encoding::le_bytes(x)[2]);
    assert(data[at + 3] == encoding::le_bytes(x)[3]);
    assert(data[at + 4] == encoding::le_bytes(x)[4]);
    assert(data[at + 5] == encoding::le_bytes(x)[5]);
    assert(data[at + 6] == encoding::le_bytes(x)[6]);
    assert(data[at + 7] == encoding::le_bytes(x)[7]);
}

/// The eight bytes that the digest of a text begins with.
pub open spec fn is_digest_head(head: Seq<u8>, text: Seq<char>) -> bool {
    &&& head.len() == 8
    &&& head == encoding::sha256(vstd::utf8::encode_utf8(text)).subrange(0, 8)
}

/// The discriminator of any instruction is the head of the digest of its name after `global:`,
/// letter for letter.
pub proof fn law_discriminator(name: Seq<char>, text: Seq<char>)
    requires
        text == seq!['g', 'l', 'o', 'b', 'a', 'l', ':'] + name,
    ensures
        encoding::discriminator(name) == encoding::sha256(
            vstd::utf8::encode_utf8(text),
        ).subrange(0, 8),
{
    reveal_strlit("global:");
    assert("global:"@ =~= seq!['g', 'l', 'o', 'b', 'a', 'l', ':']);
}

/// The data of a deposit and of a withdrawal request begin with the discriminator, go on with the
/// whole amount, and end there, or with a one and a zero.
pub proof fn law_data_layout(discriminator: Seq<u8>, amount: u64)
    ensures
        ({
            let n = discriminator.len() as int;
            let deposit = encoding::deposit_data(discriminator, amount);
            let request = encoding::request_withdraw_data(discriminator, amount);
            &&& deposit.len() == n + 8
            &&& request.len() == n + 10
            &&& deposit.subrange(0, n) == discriminator
            &&& request.subrange(0, n) == discriminator
            &&& number_at(deposit, n) == amount
            &&& number_at(request, n) == amount
            &&& request[n + 8] == 1
            &&& request[n + 9] == 0
        }),
{
    let n = discriminator.len() as int;
    let none = Seq::<u8>::empty();
    law_number_after(discriminator, amount, none);
    law_number_after(discriminator, amount, seq![1u8, 0u8]);
    assert(encoding::deposit_data(discriminator, amount) =~= discriminator + encoding::le_bytes(
        amount,
    ) + none);
    assert(encoding::deposit_data(discriminator, amount).subrange(0, n) =~= discriminator);
    assert(encoding::request_withdraw_data(discriminator, amount).subrange(0, n)
        =~= discriminator);
}

/// The deposit instruction calls the vault program with the accounts of a deposit. Its data are the
/// head of the digest of `global:deposit_vault`, and the whole amount.
pub proof fn law_deposit_instruction(
    deposit: Instruction,
    s: VoltrSwap,
    a: DepositAddresses,
    amount: u64,
)
    requires
        swap::is_deposit_instruction(deposit, s, a, amount),
    ensures
        deposit.program_id == VOLTR_VAULT_PROGRAM,
        deposit.data@.len() == 16,
        is_digest_head(deposit.data@.take(8), "global:deposit_vault"@),
        number_at(deposit.data@, 8) == amount,
        ({
            let metas = deposit.accounts@;
            &&& metas.len() == 13
            &&& is_meta(metas[0], s.user_transfer_authority, true, false)
            &&& is_meta(metas[1], a.protocol, false, false)
            &&& is_meta(metas[2], s.vault_key, false, true)
            &&& is_meta(metas[3], s.vault_asset_mint, false, false)
            &&& is_meta(metas[4], a.vault_lp_mint, false, true)
            &&& is_meta(metas[5], s.user_source, false, true)
            &&& is_meta(metas[6], s.vault_asset_idle_ata, false, true)
            &&& is_meta(metas[7], a.vault_asset_idle_auth, false, false)
            &&& is_meta(metas[8], s.user_destination, false, true)
            &&& is_meta(metas[9], a.vault_lp_mint_auth, false, false)
            &&& is_meta(metas[10], s.asset_token_program, false, false)
            &&& is_meta(metas[11], TOKEN_PROGRAM, false, false)
            &&& is_meta(metas[12], SYSTEM_PROGRAM, false, false)
        }),
{
    reveal_strlit("global:");
    reveal_strlit("deposit_vault");
    reveal_strlit("global:deposit_vault");
    assert("global:"@ + "deposit_vault"@ =~= "global:deposit_vault"@);
    let discriminator = encoding::discriminator("deposit_vault"@);
    let none = Seq::<u8>::empty();
    law_number_after(discriminator, amount, none);
    assert(deposit.data@ =~= discriminator + encoding::le_bytes(amount) + none);
    assert(deposit.data@.take(8) =~= discriminator);
}

/// The two instructions of a redemption call the vault program. The data of the request are the
/// head of the digest of `global:request_withdraw_vault`, the whole amount, a one since it counts
/// LP tokens, and a zero since not everything is withdrawn; those of the withdrawal are the head of
/// the digest of `global:withdraw_vault`.
pub proof fn law_redeem_instructions(
    request: Instruction,
    withdraw: Instruction,
    s: VoltrRedeemSwap,
    a: RedeemAddresses,
    lp_amount: u64,
)
    requires
        swap::are_redeem_instructions(request, withdraw, s, a, lp_amount),
    ensures
        request.program_id == VOLTR_VAULT_PROGRAM,
        withdraw.program_id == VOLTR_VAULT_PROGRAM,
        request.data@.len() == 18,
        is_digest_head(request.data@.take(8), "global:request_withdraw_vault"@),
        number_at(request.data@, 8) == lp_amount,
        request.data@[16] == 1,
        request.data@[17] == 0,
        is_digest_head(withdraw.data@, "global:withdraw_vault"@),
{
    reveal_strlit("global:");
    reveal_strlit("request_withdraw_vault");
    reveal_strlit("global:request_withdraw_vault");
    reveal_strlit("withdraw_vault");
    reveal_strlit("global:withdraw_vault");
    assert("global:"@ + "request_withdraw_vault"@ =~= "global:request_withdraw_vault"@);
    assert("global:"@ + "withdraw_vault"@ =~= "global:withdraw_vault"@);
    let discriminator = encoding::discriminator("request_withdraw_vault"@);
    law_number_after(discriminator, lp_amount, seq![1u8, 0u8]);
    assert(request.data@.take(8) =~= discriminator);
}

/// With a placeholder that is no account of the request, the request takes LP tokens from the
/// user's LP account into the receipt's, and the withdrawal pays asset from the vault's idle
/// account into the user's asset account.
pub proof fn law_redeem_instruction_accounts(
    request: Instruction,
    withdraw: Instruction,
    s: VoltrRedeemSwap,
    a: RedeemAddresses,
    lp_amount: u64,
)
    requires
        swap::are_redeem_instructions(request, withdraw, s, a, lp_amount),
        forall|i: int| 0 <= i < 10 ==> #[trigger] swap::redeem_metas(s, a)[i] != s.placeholder,
    ensures
        ({
            let metas = request.accounts@;
            &&& metas.len() == 10
            &&& is_meta(metas[0], s.user_transfer_authority, true, true)
            &&& is_meta(metas[1], s.user_transfer_authority, true, false)
            &&& is_meta(metas[2], a.protocol, false, false)
            &&& is_meta(metas[3], s.vault_key, false, false)
            &&& is_meta(metas[4], a.vault_lp_mint, false, false)
            &&& is_meta(metas[5], s.user_lp_ata, false, true)
            &&& is_meta(metas[6], a.receipt_lp_ata, false, true)
            &&& is_meta(metas[7], a.receipt, false, true)
            &&& is_meta(metas[8], TOKEN_PROGRAM, false, false)
            &&& is_meta(metas[9], SYSTEM_PROGRAM, false, false)
        }),
        ({
            let metas = withdraw.accounts@;
            &&& metas.len() == 13
            &&& is_meta(metas[0], s.user_transfer_authority, true, true)
            &&& is_meta(metas[1], a.protocol, false, false)
            &&& is_meta(metas[2], s.vault_key, false, true)
            &&& is_meta(metas[3], s.vault_asset_mint, false, false)
            &&& is_meta(metas[4], a.vault_lp_mint, false, true)
            &&& is_meta(metas[5], a.receipt_lp_ata, false, true)
            &&& is_meta(metas[6], s.vault_asset_idle_ata, false, true)
            &&& is_meta(metas[7], a.vault_asset_idle_auth, false, true)
            &&& is_meta(metas[8], s.user_asset_ata, false, true)
            &&& is_meta(metas[9], a.receipt, false, true)
            &&& is_meta(metas[10], s.asset_token_program, false, false)
            &&& is_meta(metas[11], TOKEN_PROGRAM, false, false)
            &&& is_meta(metas[12], SYSTEM_PROGRAM, false, false)
        }),
{
    let all = swap::redeem_metas(s, a);
    let head = request.accounts@;
    let tail = withdraw.accounts@;
    law_redeem_accounts(s, a);
    law_split_parts(all, s.placeholder, head, tail);
    if head.len() < 10 {
        assert(all[head.len() as int] != s.placeholder);
    }
    if head.len() > 10 {
        assert(head[10] == all[10]);
    }
    assert(forall|i: int| 0 <= i < 10 ==> #[trigger] head[i] == all[i]);
    assert(forall|i: int| 0 <= i < 13 ==> #[trigger] tail[i] == all[11 + i]);
}

} // verus!
