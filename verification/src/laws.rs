//! What holds of the library as a whole.
use vstd::prelude::*;

use crate::accounts::AccountView;
use crate::address;
use crate::address::{DepositAddresses, RedeemAddresses};
use crate::amm;
use crate::amm::{SwapParams, VoltrAmm};
use crate::constants::DEAD_WEIGHT;
use crate::encoding;
use crate::errors::VoltrAmmError;
use crate::instruction::{AccountMeta, Instruction};
use crate::key::Pubkey;
use crate::quote;
use crate::quote::{Direction, Quote, QuoteParams};
use crate::state;
use crate::state::{FeeConfiguration, FeeUpdate, Figure, Figures, Formula, Formulas, Vault};
use crate::swap;
use crate::swap::{VoltrRedeemSwap, VoltrSwap};
use crate::token;

pub mod quotes;
pub mod swaps;
pub mod updates;

verus! {

/// A vault with other dead weight and issuance fee.
pub open spec fn with_deposit_terms<A>(
    vault: Vault<A>,
    dead_weight: u64,
    issuance_fee: u16,
) -> Vault<A> {
    Vault {
        dead_weight,
        fee_configuration: FeeConfiguration { issuance_fee, ..vault.fee_configuration },
        ..vault
    }
}

/// A vault whose management fee was last updated later by a span of seconds.
pub open spec fn updated_later<A>(vault: Vault<A>, span: u64) -> Vault<A> {
    Vault {
        fee_update: FeeUpdate {
            last_management_fee_update_ts: (vault.fee_update.last_management_fee_update_ts
                + span) as u64,
        },
        ..vault
    }
}

// Quotes.

/// A quote is for the amount that was asked for, names its fee in the input mint of a deposit
/// and in the output mint of a redemption, and a redemption fits what the vault holds idle.
pub proof fn law_quote_fits<A>(
    amm: VoltrAmm<A>,
    params: QuoteParams,
    unix_time: Option<u64>,
    figures: Figures<A>,
    formulas: Formulas,
    q: Quote,
)
    requires
        quote::quoted(amm, params, unix_time, figures, formulas) == Ok::<Quote, VoltrAmmError>(q),
    ensures
        quote::fits(amm, params, q),
{
}

/// Without a fee in basis points the fee amount is zero. With one, what comes out and the fee
/// together are what would come out without the fee, unless that is less than what comes out.
pub proof fn law_fee_completes_output(
    fee_bps: u16,
    out_amount: u64,
    out_without_fee: Result<u64, VoltrAmmError>,
    fee: u64,
)
    requires
        quote::fee_amount(fee_bps, out_amount, out_without_fee) == Ok::<u64, VoltrAmmError>(fee),
    ensures
        fee_bps == 0 ==> fee == 0,
        fee_bps > 0 ==> (out_without_fee matches Ok(without_fee) && out_amount + fee == if without_fee
            > out_amount {
            without_fee
        } else {
            out_amount
        }),
{
}

/// A swap whose LP supply with the estimated management fee does not fit is refused; any other
/// redemption is quoted at that supply.
pub proof fn law_redemption_is_quoted_at_diluted_supply<A>(
    amm: VoltrAmm<A>,
    params: QuoteParams,
    current_ts: u64,
    figures: Figures<A>,
    formulas: Formulas,
    incl_fees: u64,
    fee_lp: u64,
)
    requires
        quote::direction(
            amm.vault_state.asset.mint,
            amm.vault_state.lp.mint,
            params.input_mint,
            params.output_mint,
        ) is Some,
        figures(
            amm.vault_state,
            Figure::TotalLpSupplyInclFees { lp_mint_supply: amm.lp_mint_supply },
        ) == Ok::<u64, VoltrAmmError>(incl_fees),
        quote::management_fee_lp(
            amm.vault_state,
            current_ts,
            amm.vault_state.total_asset_value,
            incl_fees,
            figures,
            formulas,
        ) == Ok::<u64, VoltrAmmError>(fee_lp),
    ensures
        incl_fees + fee_lp > u64::MAX ==> quote::quoted(
            amm,
            params,
            Some(current_ts),
            figures,
            formulas,
        ) == Err::<Quote, VoltrAmmError>(VoltrAmmError::MathOverflow),
        incl_fees + fee_lp <= u64::MAX && params.input_mint == amm.vault_state.lp.mint
            && params.output_mint == amm.vault_state.asset.mint ==> quote::quoted(
            amm,
            params,
            Some(current_ts),
            figures,
            formulas,
        ) == quote::redeem_quote(
            amm,
            params,
            current_ts,
            (incl_fees + fee_lp) as u64,
            figures,
            formulas,
        ),
{
}

/// Where there is a waiting period, a redemption is refused for it, before anything else is looked
/// at. Where there is none, it is never refused for it, if no figure and no formula fails with that
/// error itself.
pub proof fn law_waiting_period_refuses_redemption<A>(
    amm: VoltrAmm<A>,
    params: QuoteParams,
    current_ts: u64,
    total_lp_supply: u64,
    figures: Figures<A>,
    formulas: Formulas,
)
    ensures
        ({
            let waits = amm.vault_state.vault_configuration.withdrawal_waiting_period != 0;
            let refused = quote::redeem_quote(
                amm,
                params,
                current_ts,
                total_lp_supply,
                figures,
                formulas,
            ) == Err::<Quote, VoltrAmmError>(VoltrAmmError::WithdrawalWaitingPeriodNotZero);
            &&& waits ==> refused
            &&& state::never_fails_with(
                figures,
                formulas,
                amm.vault_state,
                VoltrAmmError::WithdrawalWaitingPeriodNotZero,
            ) ==> (refused <==> waits)
        }),
{
}

/// A redemption is never quoted beyond what lies idle in the vault, and its fee is in the mint that
/// comes out. So an AMM that has not read its idle balance yet quotes none but those of nothing.
pub proof fn law_redemption_fits_idle_balance<A>(
    amm: VoltrAmm<A>,
    params: QuoteParams,
    current_ts: u64,
    total_lp_supply: u64,
    figures: Figures<A>,
    formulas: Formulas,
)
    ensures
        quote::redeem_quote(
            amm,
            params,
            current_ts,
            total_lp_supply,
            figures,
            formulas,
        ) matches Ok(q) ==> {
            &&& q.out_amount <= amm.asset_idle_balance
            &&& q.fee_mint == params.output_mint
            &&& amm::is_new(amm, amm.vault_key, amm.vault_state) ==> q.out_amount == 0
        },
{
}

/// More idle balance neither changes nor breaks the quote of a redemption.
pub proof fn law_more_idle_balance_keeps_quote<A>(
    amm: VoltrAmm<A>,
    params: QuoteParams,
    current_ts: u64,
    total_lp_supply: u64,
    figures: Figures<A>,
    formulas: Formulas,
    idle_balance: u64,
)
    requires
        idle_balance >= amm.asset_idle_balance,
    ensures
        ({
            let other = VoltrAmm { asset_idle_balance: idle_balance, ..amm };
            let before = quote::redeem_quote(
                amm,
                params,
                current_ts,
                total_lp_supply,
                figures,
                formulas,
            );
            let after = quote::redeem_quote(
                other,
                params,
                current_ts,
                total_lp_supply,
                figures,
                formulas,
            );
            before is Ok ==> after == before
        }),
        ({
            let other = VoltrAmm { asset_idle_balance: idle_balance, ..amm };
            let before = quote::quoted(amm, params, Some(current_ts), figures, formulas);
            let after = quote::quoted(other, params, Some(current_ts), figures, formulas);
            before is Ok ==> after == before
        }),
{
}

/// Dead weight and issuance fee play no part in a redemption: whatever they are, it is quoted the
/// same, if the figures of the vault are the same.
pub proof fn law_redemption_ignores_deposit_terms<A>(
    amm: VoltrAmm<A>,
    params: QuoteParams,
    unix_time: Option<u64>,
    figures: Figures<A>,
    formulas: Formulas,
    dead_weight: u64,
    issuance_fee: u16,
)
    requires
        params.input_mint == amm.vault_state.lp.mint,
        params.output_mint == amm.vault_state.asset.mint,
        state::same_figures(
            figures,
            amm.vault_state,
            with_deposit_terms(amm.vault_state, dead_weight, issuance_fee),
        ),
    ensures
        quote::quoted(
            VoltrAmm {
                vault_state: with_deposit_terms(amm.vault_state, dead_weight, issuance_fee),
                ..amm
            },
            params,
            unix_time,
            figures,
            formulas,
        ) == quote::quoted(amm, params, unix_time, figures, formulas),
{
}

/// A deposit into a vault without dead weight is quoted the dead weight less than it is priced
/// at, and is refused where it is priced below the dead weight.
pub proof fn law_first_deposit_leaves_dead_weight<A>(
    amm: VoltrAmm<A>,
    params: QuoteParams,
    incl_fees: u64,
    after_fee: u64,
    formulas: Formulas,
    lp: u64,
)
    requires
        amm.vault_state.dead_weight == 0,
        Ok::<u64, VoltrAmmError>(lp) == formulas(
            if incl_fees == 0 {
                Formula::InitLpToMint {
                    amount: params.amount,
                    asset_mint_decimals: amm.asset_mint_decimals,
                    lp_mint_decimals: amm.lp_mint_decimals,
                }
            } else {
                Formula::DepositLpToMint {
                    amount: params.amount,
                    total_lp_supply: after_fee,
                    total_asset_value: amm.vault_state.total_asset_value,
                    issuance_fee_bps: amm.vault_state.fee_configuration.issuance_fee,
                }
            },
        ),
    ensures
        quote::issue_quote(amm, params, incl_fees, after_fee, formulas) matches Ok(q)
            ==> q.out_amount + DEAD_WEIGHT == lp,
        lp < DEAD_WEIGHT ==> quote::issue_quote(amm, params, incl_fees, after_fee, formulas) == Err::<
            Quote,
            VoltrAmmError,
        >(VoltrAmmError::InvalidAmount),
{
}

/// No management fee is charged for time that has not passed since its last update.
pub proof fn law_no_fee_without_time<A>(
    vault: Vault<A>,
    current_ts: u64,
    total_asset_value: u64,
    total_lp_supply_incl_fees: u64,
    figures: Figures<A>,
    formulas: Formulas,
)
    requires
        current_ts <= vault.fee_update.last_management_fee_update_ts,
        figures(vault, Figure::TotalManagementFee) is Ok,
    ensures
        quote::management_fee_lp(
            vault,
            current_ts,
            total_asset_value,
            total_lp_supply_incl_fees,
            figures,
            formulas,
        ) == Ok::<u64, VoltrAmmError>(0),
{
}

/// Only the time since the last update of the management fee matters, not when that was: with the
/// update and the clock both later by the same span, the fee is the same, if the vault's fee in
/// basis points is.
pub proof fn law_only_elapsed_time_matters<A>(
    vault: Vault<A>,
    current_ts: u64,
    span: u64,
    total_asset_value: u64,
    total_lp_supply_incl_fees: u64,
    figures: Figures<A>,
    formulas: Formulas,
)
    requires
        vault.fee_update.last_management_fee_update_ts > 0,
        vault.fee_update.last_management_fee_update_ts + span <= u64::MAX,
        current_ts + span <= u64::MAX,
        figures(vault, Figure::TotalManagementFee) == figures(
            updated_later(vault, span),
            Figure::TotalManagementFee,
        ),
    ensures
        quote::management_fee_lp(
            updated_later(vault, span),
            (current_ts + span) as u64,
            total_asset_value,
            total_lp_supply_incl_fees,
            figures,
            formulas,
        ) == quote::management_fee_lp(
            vault,
            current_ts,
            total_asset_value,
            total_lp_supply_incl_fees,
            figures,
            formulas,
        ),
{
}

/// Where the clock cannot be read, a swap is quoted as at the last update of the vault.
pub proof fn law_clock_falls_back<A>(
    amm: VoltrAmm<A>,
    params: QuoteParams,
    figures: Figures<A>,
    formulas: Formulas,
)
    ensures
        quote::quoted(amm, params, None, figures, formulas) == quote::quoted(
            amm,
            params,
            Some(amm.vault_state.last_updated_ts),
            figures,
            formulas,
        ),
{
}

/// A quote is refused for its mints exactly where they are not the two of the vault, in one order
/// or the other. So a swap of the vault's own mints may fail, but never for its mints. Stated where
/// no figure and no formula fails with that error itself.
pub proof fn law_only_other_mints_are_refused<A>(
    amm: VoltrAmm<A>,
    params: QuoteParams,
    unix_time: Option<u64>,
    figures: Figures<A>,
    formulas: Formulas,
)
    requires
        state::never_fails_with(
            figures,
            formulas,
            amm.vault_state,
            VoltrAmmError::InvalidSourceMint,
        ),
    ensures
        ({
            let asset = amm.vault_state.asset.mint;
            let lp = amm.vault_state.lp.mint;
            let is_issue = params.input_mint == asset && params.output_mint == lp;
            let is_redeem = params.input_mint == lp && params.output_mint == asset;
            quote::quoted(amm, params, unix_time, figures, formulas) == Err::<Quote, VoltrAmmError>(
                VoltrAmmError::InvalidSourceMint,
            ) <==> !is_issue && !is_redeem
        }),
{
}

/// Quotes and swaps accept the same pairs of mints: where no accounts can be given for a swap,
/// both are refused for their mints, and whatever is quoted has accounts to swap with. Where no
/// figure and no formula fails with that error itself, a quote is refused for its mints exactly
/// where no accounts can be given.
pub proof fn law_quotes_and_swaps_agree<A>(
    amm: VoltrAmm<A>,
    quote_params: QuoteParams,
    swap_params: SwapParams,
    unix_time: Option<u64>,
    figures: Figures<A>,
    formulas: Formulas,
)
    requires
        quote_params.input_mint == swap_params.source_mint,
        quote_params.output_mint == swap_params.destination_mint,
    ensures
        amm::swap_metas(amm, swap_params) matches Err(e) ==> {
            &&& e == VoltrAmmError::InvalidSourceMint
            &&& quote::quoted(amm, quote_params, unix_time, figures, formulas) == Err::<
                Quote,
                VoltrAmmError,
            >(e)
        },
        quote::quoted(amm, quote_params, unix_time, figures, formulas) is Ok ==> amm::swap_metas(
            amm,
            swap_params,
        ) is Ok,
        state::never_fails_with(
            figures,
            formulas,
            amm.vault_state,
            VoltrAmmError::InvalidSourceMint,
        ) ==> (quote::quoted(amm, quote_params, unix_time, figures, formulas) == Err::<
            Quote,
            VoltrAmmError,
        >(VoltrAmmError::InvalidSourceMint) <==> amm::swap_metas(amm, swap_params) is Err),
{
}

/// The vault swaps exactly its two reserve mints, in both directions.
pub proof fn law_both_directions<A>(amm: VoltrAmm<A>)
    ensures
        ({
            let asset = amm.vault_state.asset.mint;
            let lp = amm.vault_state.lp.mint;
            &&& quote::direction(asset, lp, lp, asset) == Some(Direction::Redeem)
            &&& asset != lp ==> quote::direction(asset, lp, asset, lp) == Some(Direction::Issue)
            &&& forall|input: Pubkey, output: Pubkey| #[trigger]
                quote::direction(asset, lp, input, output) is Some <==> (input == asset && output
                    == lp) || (input == lp && output == asset)
        }),
{
}

// Accounts and instructions.

/// The only signer of a deposit is the user's transfer authority, who stands first.
pub proof fn law_deposit_signer(s: VoltrSwap, addresses: DepositAddresses)
    ensures
        swap::deposit_metas(s, addresses).len() == 13,
        forall|i: int|
            0 <= i < 13 ==> (#[trigger] swap::deposit_metas(s, addresses)[i].is_signer <==> i == 0),
        swap::deposit_metas(s, addresses)[0].pubkey == s.user_transfer_authority,
{
}

/// The only signer of a withdrawal is the user's transfer authority, the placeholder aside.
pub proof fn law_redeem_signer(s: VoltrRedeemSwap, addresses: RedeemAddresses)
    ensures
        swap::request_metas(s, addresses).len() == 10,
        swap::withdraw_metas(s, addresses).len() == 13,
        forall|i: int|
            0 <= i < 10 && #[trigger] swap::request_metas(s, addresses)[i].is_signer
                ==> swap::request_metas(s, addresses)[i].pubkey == s.user_transfer_authority,
        forall|i: int|
            0 <= i < 13 && #[trigger] swap::withdraw_metas(s, addresses)[i].is_signer
                ==> swap::withdraw_metas(s, addresses)[i].pubkey == s.user_transfer_authority,
{
}

/// At most one pair of parts splits metas at a separator.
pub proof fn law_split_is_unique(
    metas: Seq<AccountMeta>,
    separator: AccountMeta,
    head: Seq<AccountMeta>,
    tail: Seq<AccountMeta>,
    other_head: Seq<AccountMeta>,
    other_tail: Seq<AccountMeta>,
)
    requires
        swap::is_split(metas, separator, head, tail),
        swap::is_split(metas, separator, other_head, other_tail),
    ensures
        head == other_head,
        tail == other_tail,
{
    let n = head.len() as int;
    let m = other_head.len() as int;
    assert(metas[n] == separator);
    assert(metas[m] == separator);
    if n < m {
        assert(other_head[n] == metas[n]);
        assert(other_head.contains(separator));
    }
    if m < n {
        assert(head[m] == metas[m]);
        assert(head.contains(separator));
    }
    assert(head =~= metas.take(n));
    assert(other_head =~= metas.take(m));
    assert(tail =~= metas.skip(n + 1));
    assert(other_tail =~= metas.skip(m + 1));
}

/// With a placeholder that is no account of the request, the two instructions of a withdrawal
/// get exactly the accounts of the request and those of the withdrawal.
pub proof fn law_placeholder_separates(
    request: Instruction,
    withdraw: Instruction,
    s: VoltrRedeemSwap,
    addresses: RedeemAddresses,
    lp_amount: u64,
)
    requires
        swap::are_redeem_instructions(request, withdraw, s, addresses, lp_amount),
        !swap::request_metas(s, addresses).contains(s.placeholder),
    ensures
        request.accounts@ == swap::request_metas(s, addresses),
        withdraw.accounts@ == swap::withdraw_metas(s, addresses),
{
    law_split_is_unique(
        swap::redeem_metas(s, addresses),
        s.placeholder,
        request.accounts@,
        withdraw.accounts@,
        swap::request_metas(s, addresses),
        swap::withdraw_metas(s, addresses),
    );
}

/// A withdrawal names the receipt and the LP mint that `derive_receipt_pda` and
/// `derive_vault_lp_mint_pda` derive, and the associated token account of the two.
pub proof fn law_redeem_names_receipt(s: VoltrRedeemSwap, addresses: RedeemAddresses)
    requires
        address::redeem_addresses(s.vault_key, s.user_transfer_authority) == Some(addresses),
    ensures
        ({
            let metas = swap::request_metas(s, addresses);
            let receipt = metas[7].pubkey;
            let lp_mint = metas[4].pubkey;
            &&& Some(receipt) == address::receipt_address(s.vault_key, s.user_transfer_authority)
            &&& Some(lp_mint) == address::vault_lp_mint_address(s.vault_key)
            &&& Some(metas[6].pubkey) == address::associated_token_address(receipt, lp_mint)
        }),
        ({
            let metas = swap::withdraw_metas(s, addresses);
            let receipt = metas[9].pubkey;
            let lp_mint = metas[4].pubkey;
            &&& Some(receipt) == address::receipt_address(s.vault_key, s.user_transfer_authority)
            &&& Some(lp_mint) == address::vault_lp_mint_address(s.vault_key)
            &&& Some(metas[5].pubkey) == address::associated_token_address(receipt, lp_mint)
        }),
{
}

/// The accounts of a swap are those of its deposit or withdrawal, and the placeholder after
/// them.
pub proof fn law_swap_ends_with_placeholder<A>(
    amm: VoltrAmm<A>,
    params: SwapParams,
    metas: Seq<AccountMeta>,
)
    requires
        amm::swap_metas(amm, params) == Ok::<Seq<AccountMeta>, VoltrAmmError>(metas),
    ensures
        metas.last() == params.placeholder,
        amm::swap_direction(amm, params) == Some(Direction::Issue) ==> metas.drop_last()
            == swap::deposit_metas(
            amm::issue_swap(amm, params),
            address::deposit_addresses(amm.vault_key).unwrap(),
        ),
        amm::swap_direction(amm, params) == Some(Direction::Redeem) ==> metas.drop_last()
            == swap::redeem_metas(
            amm::redeem_swap(amm, params),
            address::redeem_addresses(amm.vault_key, params.token_transfer_authority).unwrap(),
        ),
{
    assert(metas.drop_last().push(metas.last()) =~= metas);
    if amm::swap_direction(amm, params) == Some(Direction::Issue) {
        assert(metas.drop_last() =~= swap::deposit_metas(
            amm::issue_swap(amm, params),
            address::deposit_addresses(amm.vault_key).unwrap(),
        ));
    } else {
        assert(metas.drop_last() =~= swap::redeem_metas(
            amm::redeem_swap(amm, params),
            address::redeem_addresses(amm.vault_key, params.token_transfer_authority).unwrap(),
        ));
    }
}

/// An encoded amount reads back, wherever it stands.
pub proof fn law_amount_reads_back(before: Seq<u8>, amount: u64, after: Seq<u8>)
    ensures
        encoding::le_value(before + encoding::le_bytes(amount) + after, before.len() as int) == amount,
{
    let data = before + encoding::le_bytes(amount) + after;
    let at = before.len() as int;
    assert(data[at + 0] == encoding::le_bytes(amount)[0]);
    assert(data[at + 1] == encoding::le_bytes(amount)[1]);
    assert(data[at + 2] == encoding::le_bytes(amount)[2]);
    assert(data[at + 3] == encoding::le_bytes(amount)[3]);
    assert(data[at + 4] == encoding::le_bytes(amount)[4]);
    assert(data[at + 5] == encoding::le_bytes(amount)[5]);
    assert(data[at + 6] == encoding::le_bytes(amount)[6]);
    assert(data[at + 7] == encoding::le_bytes(amount)[7]);
    let x = amount as int;
    assert(x / 0x1_0000 == x / 0x100 / 0x100);
    assert(x / 0x100_0000 == x / 0x1_0000 / 0x100);
    assert(x / 0x1_0000_0000 == x / 0x100_0000 / 0x100);
    assert(x / 0x100_0000_0000 == x / 0x1_0000_0000 / 0x100);
    assert(x / 0x1_0000_0000_0000 == x / 0x100_0000_0000 / 0x100);
    assert(x / 0x100_0000_0000_0000 == x / 0x1_0000_0000_0000 / 0x100);
}

/// The amount of a deposit reads back from its data.
pub proof fn law_deposit_amount_reads_back(discriminator: Seq<u8>, amount: u64)
    requires
        discriminator.len() == 8,
    ensures
        encoding::deposit_data(discriminator, amount).len() == 16,
        encoding::le_value(encoding::deposit_data(discriminator, amount), 8) == amount,
{
    law_amount_reads_back(discriminator, amount, Seq::empty());
    assert(encoding::deposit_data(discriminator, amount) =~= discriminator + encoding::le_bytes(
        amount,
    ) + Seq::<u8>::empty());
}

/// The amount of a withdrawal request reads back from its data.
pub proof fn law_request_amount_reads_back(discriminator: Seq<u8>, lp_amount: u64)
    requires
        discriminator.len() == 8,
    ensures
        encoding::request_withdraw_data(discriminator, lp_amount).len() == 18,
        encoding::le_value(encoding::request_withdraw_data(discriminator, lp_amount), 8)
            == lp_amount,
{
    law_amount_reads_back(discriminator, lp_amount, seq![1u8, 0u8]);
}

/// The data of a deposit is sixteen bytes, whose last eight are the amount.
pub proof fn law_deposit_carries_amount(
    deposit: Instruction,
    s: VoltrSwap,
    addresses: DepositAddresses,
    amount: u64,
)
    requires
        swap::is_deposit_instruction(deposit, s, addresses, amount),
    ensures
        deposit.data@.len() == 16,
        encoding::le_value(deposit.data@, 8) == amount,
{
    law_deposit_amount_reads_back(encoding::discriminator("deposit_vault"@), amount);
}

/// The data of a withdrawal request is eighteen bytes: after the discriminator the amount, that it
/// counts LP tokens, and that not everything is withdrawn. That of the withdrawal is the
/// discriminator alone.
pub proof fn law_request_carries_amount(
    request: Instruction,
    withdraw: Instruction,
    s: VoltrRedeemSwap,
    addresses: RedeemAddresses,
    lp_amount: u64,
)
    requires
        swap::are_redeem_instructions(request, withdraw, s, addresses, lp_amount),
    ensures
        request.data@.len() == 18,
        encoding::le_value(request.data@, 8) == lp_amount,
        request.data@[16] == 1,
        request.data@[17] == 0,
        withdraw.data@.len() == 8,
{
    law_request_amount_reads_back(encoding::discriminator("request_withdraw_vault"@), lp_amount);
}

// Copies.

/// A copy is listed as the AMM it was made from, swaps the same mints, needs the same accounts for
/// an update and lists the same accounts for a swap. It quotes every swap the same, if cloning
/// kept the accounting of the vault, or kept at least its figures.
pub proof fn law_copy_behaves_the_same<A: Clone>(
    amm: VoltrAmm<A>,
    copy: VoltrAmm<A>,
    quote_params: QuoteParams,
    swap_params: SwapParams,
    unix_time: Option<u64>,
    figures: Figures<A>,
    formulas: Formulas,
)
    requires
        amm::is_copy(amm, copy),
    ensures
        copy.label == amm.label,
        copy.program_id == amm.program_id,
        copy.vault_key == amm.vault_key,
        copy.vault_state.asset.mint == amm.vault_state.asset.mint,
        copy.vault_state.lp.mint == amm.vault_state.lp.mint,
        amm::accounts_to_update(copy) == amm::accounts_to_update(amm),
        amm::swap_addresses_exist(copy, swap_params) == amm::swap_addresses_exist(amm, swap_params),
        amm::swap_metas(copy, swap_params) == amm::swap_metas(amm, swap_params),
        copy.vault_state.accounting == amm.vault_state.accounting ==> copy == amm,
        copy.vault_state.accounting == amm.vault_state.accounting || state::same_figures(
            figures,
            amm.vault_state,
            copy.vault_state,
        ) ==> quote::quoted(copy, quote_params, unix_time, figures, formulas) == quote::quoted(
            amm,
            quote_params,
            unix_time,
            figures,
            formulas,
        ),
{
}

// Updates.

/// An update, whether it succeeds or not, keeps label, program and vault address.
pub proof fn law_update_keeps_identity<A>(
    amm: VoltrAmm<A>,
    accounts: Map<Pubkey, AccountView>,
    model: spec_fn(Seq<u8>) -> Result<Vault<A>, VoltrAmmError>,
)
    ensures
        amm::updated(amm, accounts, model).0.label == amm.label,
        amm::updated(amm, accounts, model).0.program_id == amm.program_id,
        amm::updated(amm, accounts, model).0.vault_key == amm.vault_key,
{
}

/// After an update that succeeded, everything is what the accounts say.
pub proof fn law_update_reads_accounts<A>(
    amm: VoltrAmm<A>,
    accounts: Map<Pubkey, AccountView>,
    model: spec_fn(Seq<u8>) -> Result<Vault<A>, VoltrAmmError>,
)
    requires
        amm::updated(amm, accounts, model).1 is Ok,
    ensures
        ({
            let new = amm::updated(amm, accounts, model).0;
            let vault = new.vault_state;
            &&& forall|i: int|
                0 <= i < 4 ==> accounts.dom().contains(#[trigger] amm::accounts_to_update(new)[i])
            &&& model(accounts[amm.vault_key].data) == Ok::<Vault<A>, VoltrAmmError>(vault)
            &&& token::mint_state(accounts[vault.lp.mint].data) matches Ok(mint) && mint.supply
                == new.lp_mint_supply && mint.decimals == new.lp_mint_decimals
            &&& new.asset_token_program == accounts[vault.asset.mint].owner
            &&& amm::decimals_of(new.asset_token_program, accounts[vault.asset.mint].data) == Ok::<
                u8,
                crate::errors::UnpackError,
            >(new.asset_mint_decimals)
            &&& amm::amount_of(new.asset_token_program, accounts[vault.asset.idle_ata].data)
                == Ok::<u64, crate::errors::UnpackError>(new.asset_idle_balance)
        }),
{
}

/// Updating again from the same accounts changes nothing.
pub proof fn law_update_is_idempotent<A>(
    amm: VoltrAmm<A>,
    accounts: Map<Pubkey, AccountView>,
    model: spec_fn(Seq<u8>) -> Result<Vault<A>, VoltrAmmError>,
)
    requires
        amm::updated(amm, accounts, model).1 is Ok,
    ensures
        amm::updated(amm::updated(amm, accounts, model).0, accounts, model) == amm::updated(
            amm,
            accounts,
            model,
        ),
{
}

/// An update reads no accounts but those of `get_accounts_to_update`, of the vault as it is
/// then: two maps that hold the same there update to the same.
pub proof fn law_update_reads_listed_accounts<A>(
    amm: VoltrAmm<A>,
    accounts: Map<Pubkey, AccountView>,
    others: Map<Pubkey, AccountView>,
    model: spec_fn(Seq<u8>) -> Result<Vault<A>, VoltrAmmError>,
)
    requires
        forall|i: int|
            0 <= i < 4 ==> {
                let key = #[trigger] amm::accounts_to_update(
                    amm::updated(amm, accounts, model).0,
                )[i];
                &&& accounts.dom().contains(key) <==> others.dom().contains(key)
                &&& accounts.dom().contains(key) ==> accounts[key] == others[key]
            },
    ensures
        amm::updated(amm, others, model) == amm::updated(amm, accounts, model),
{
    let new = amm::updated(amm, accounts, model).0;
    let listed = amm::accounts_to_update(new);
    assert(listed[0] == new.vault_key);
    assert(listed[1] == new.vault_state.lp.mint);
    assert(listed[2] == new.vault_state.asset.mint);
    assert(listed[3] == new.vault_state.asset.idle_ata);
}

} // verus!
