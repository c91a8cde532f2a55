//! What a quote comes to, in the figures of the vault and the formulas of the vault program.
use vstd::prelude::*;

use crate::amm::VoltrAmm;
use crate::constants::DEAD_WEIGHT;
use crate::errors::VoltrAmmError;
use crate::key::Pubkey;
use crate::quote;
use crate::quote::{Direction, Quote, QuoteParams};
use crate::state;
use crate::state::{
    FeeConfiguration, Figure, Figures, Formula, Formulas, Vault, VaultConfiguration,
};

verus! {

/// A fee in asset or LP tokens is what the swap would give more without it, and never negative.
pub open spec fn makes_up(fee: u64, out: u64, out_without_fee: u64) -> bool {
    &&& out_without_fee >= out ==> out + fee == out_without_fee
    &&& out_without_fee < out ==> fee == 0
}

/// A fraction that is given in basis points: four decimal places, or plain zero.
pub open spec fn is_fraction(fraction: quote::Decimal, bps: u16) -> bool {
    &&& fraction.mantissa == bps
    &&& fraction.scale == (if bps == 0 {
        0int
    } else {
        4int
    })
}

/// All LP tokens come out where the vault has its dead weight, and that much less where it has not.
pub open spec fn is_less_dead_weight(out: u64, lp: u64, dead_weight: u64) -> bool {
    &&& dead_weight > 0 ==> out == lp
    &&& dead_weight == 0 ==> out + DEAD_WEIGHT == lp
}

// The management fee.

/// The management fee of a vault that was never updated, holds nothing or takes no fee is none.
pub proof fn law_no_management_fee_to_take<A>(
    vault: Vault<A>,
    current_ts: u64,
    total_asset_value: u64,
    total_lp_supply_incl_fees: u64,
    figures: Figures<A>,
    formulas: Formulas,
    bps: u64,
)
    requires
        figures(vault, Figure::TotalManagementFee) == Ok::<u64, VoltrAmmError>(bps),
        vault.fee_update.last_management_fee_update_ts == 0 || total_asset_value == 0 || bps == 0,
    ensures
        quote::management_fee_lp(
            vault,
            current_ts,
            total_asset_value,
            total_lp_supply_incl_fees,
            figures,
            formulas,
        ) == Ok::<u64, VoltrAmmError>(0),
{
}

/// The management fee is taken for the seconds since its last update, on all assets and at the
/// vault's rate, and is paid in the LP tokens that stand for it. A fee of nothing or of everything
/// is not taken. What fails on the way fails the estimate.
pub proof fn law_management_fee_is_priced<A>(
    vault: Vault<A>,
    current_ts: u64,
    total_asset_value: u64,
    total_lp_supply_incl_fees: u64,
    figures: Figures<A>,
    formulas: Formulas,
    bps: u64,
)
    requires
        figures(vault, Figure::TotalManagementFee) == Ok::<u64, VoltrAmmError>(bps),
        0 < vault.fee_update.last_management_fee_update_ts < current_ts,
        total_asset_value > 0,
        bps > 0,
    ensures
        ({
            let fee_lp = quote::management_fee_lp(
                vault,
                current_ts,
                total_asset_value,
                total_lp_supply_incl_fees,
                figures,
                formulas,
            );
            match formulas(
                Formula::ManagementFeeAmountInAsset {
                    time_elapsed: (current_ts
                        - vault.fee_update.last_management_fee_update_ts) as u64,
                    total_asset_value,
                    management_fee_bps: bps,
                },
            ) {
                Err(e) => fee_lp == Err::<u64, VoltrAmmError>(e),
                Ok(fee_in_asset) => {
                    &&& 0 < fee_in_asset < total_asset_value ==> fee_lp == formulas(
                        Formula::FeeLpToMint {
                            fee_amount_in_asset: fee_in_asset,
                            total_lp_supply_incl_fees,
                            total_asset_value,
                        },
                    )
                    &&& fee_in_asset == 0 ==> fee_lp == Ok::<u64, VoltrAmmError>(0)
                    &&& fee_in_asset >= total_asset_value ==> fee_lp == Ok::<u64, VoltrAmmError>(0)
                },
            }
        }),
{
}

/// Where the vault's management fee cannot be read, it cannot be estimated.
pub proof fn law_unread_management_fee_fails<A>(
    vault: Vault<A>,
    current_ts: u64,
    total_asset_value: u64,
    total_lp_supply_incl_fees: u64,
    figures: Figures<A>,
    formulas: Formulas,
    error: VoltrAmmError,
)
    requires
        figures(vault, Figure::TotalManagementFee) == Err::<u64, VoltrAmmError>(error),
    ensures
        quote::management_fee_lp(
            vault,
            current_ts,
            total_asset_value,
            total_lp_supply_incl_fees,
            figures,
            formulas,
        ) == Err::<u64, VoltrAmmError>(error),
{
}

// Redemptions.

/// A redemption pays what the withdrawal formula gives for the LP tokens handed in, out of what is
/// unlocked at the time, at the given supply and at the vault's own redemption fee. Its fee is what
/// the same formula gives more at no fee, in the mint that comes out.
pub proof fn law_redemption_pays_formula<A>(
    amm: VoltrAmm<A>,
    params: QuoteParams,
    current_ts: u64,
    total_lp_supply: u64,
    figures: Figures<A>,
    formulas: Formulas,
    q: Quote,
)
    requires
        quote::redeem_quote(amm, params, current_ts, total_lp_supply, figures, formulas) == Ok::<
            Quote,
            VoltrAmmError,
        >(q),
    ensures
        q.in_amount == params.amount,
        q.fee_mint == params.output_mint,
        is_fraction(q.fee_pct, amm.vault_state.fee_configuration.redemption_fee),
        q.out_amount <= amm.asset_idle_balance,
        figures(amm.vault_state, Figure::UnlockedAssetValue { current_ts }) matches Ok(unlocked)
            && formulas(
            Formula::WithdrawAssetToRedeem {
                lp_amount: params.amount,
                total_lp_supply,
                total_unlocked_asset: unlocked,
                redemption_fee_bps: amm.vault_state.fee_configuration.redemption_fee,
            },
        ) == Ok::<u64, VoltrAmmError>(q.out_amount),
        amm.vault_state.fee_configuration.redemption_fee == 0 ==> q.fee_amount == 0,
        amm.vault_state.fee_configuration.redemption_fee > 0 ==> (figures(
            amm.vault_state,
            Figure::UnlockedAssetValue { current_ts },
        ) matches Ok(unlocked) && formulas(
            Formula::WithdrawAssetToRedeem {
                lp_amount: params.amount,
                total_lp_supply,
                total_unlocked_asset: unlocked,
                redemption_fee_bps: 0,
            },
        ) matches Ok(without_fee) && makes_up(q.fee_amount, q.out_amount, without_fee)),
{
}

/// A redemption is quoted, or refused for one reason: first the waiting period, then a figure or
/// formula that fails, then too little idle balance, and last the formula without the fee.
pub proof fn law_redemption_is_quoted_or_refused<A>(
    amm: VoltrAmm<A>,
    params: QuoteParams,
    current_ts: u64,
    total_lp_supply: u64,
    figures: Figures<A>,
    formulas: Formulas,
)
    ensures
        ({
            let made = quote::redeem_quote(
                amm,
                params,
                current_ts,
                total_lp_supply,
                figures,
                formulas,
            );
            let fee_bps = amm.vault_state.fee_configuration.redemption_fee;
            if amm.vault_state.vault_configuration.withdrawal_waiting_period > 0 {
                made == Err::<Quote, VoltrAmmError>(VoltrAmmError::WithdrawalWaitingPeriodNotZero)
            } else {
                match figures(amm.vault_state, Figure::UnlockedAssetValue { current_ts }) {
                    Err(e) => made == Err::<Quote, VoltrAmmError>(e),
                    Ok(unlocked) => match formulas(
                        Formula::WithdrawAssetToRedeem {
                            lp_amount: params.amount,
                            total_lp_supply,
                            total_unlocked_asset: unlocked,
                            redemption_fee_bps: fee_bps,
                        },
                    ) {
                        Err(e) => made == Err::<Quote, VoltrAmmError>(e),
                        Ok(out) => {
                            &&& out > amm.asset_idle_balance ==> made == Err::<
                                Quote,
                                VoltrAmmError,
                            >(VoltrAmmError::InsufficientIdleBalance)
                            &&& out <= amm.asset_idle_balance && fee_bps == 0 ==> made is Ok
                            &&& out <= amm.asset_idle_balance && fee_bps > 0 ==> match formulas(
                                Formula::WithdrawAssetToRedeem {
                                    lp_amount: params.amount,
                                    total_lp_supply,
                                    total_unlocked_asset: unlocked,
                                    redemption_fee_bps: 0,
                                },
                            ) {
                                Err(e) => made == Err::<Quote, VoltrAmmError>(e),
                                Ok(_) => made is Ok,
                            }
                        },
                    },
                }
            }
        }),
{
}

/// A vault with another redemption fee.
pub open spec fn with_redemption_fee<A>(vault: Vault<A>, redemption_fee: u16) -> Vault<A> {
    Vault {
        fee_configuration: FeeConfiguration { redemption_fee, ..vault.fee_configuration },
        ..vault
    }
}

/// What comes out of a redemption and its fee together are what comes out of the same vault without
/// a redemption fee, unless that is less; and who charges no fee shows none.
pub proof fn law_redemption_fee_is_what_a_feeless_vault_pays_more<A>(
    amm: VoltrAmm<A>,
    params: QuoteParams,
    current_ts: u64,
    total_lp_supply: u64,
    figures: Figures<A>,
    formulas: Formulas,
    q: Quote,
    feeless: Quote,
)
    requires
        amm.vault_state.fee_configuration.redemption_fee > 0,
        state::same_figures(
            figures,
            amm.vault_state,
            with_redemption_fee(amm.vault_state, 0),
        ),
        quote::redeem_quote(amm, params, current_ts, total_lp_supply, figures, formulas) == Ok::<
            Quote,
            VoltrAmmError,
        >(q),
        quote::redeem_quote(
            VoltrAmm { vault_state: with_redemption_fee(amm.vault_state, 0), ..amm },
            params,
            current_ts,
            total_lp_supply,
            figures,
            formulas,
        ) == Ok::<Quote, VoltrAmmError>(feeless),
    ensures
        makes_up(q.fee_amount, q.out_amount, feeless.out_amount),
        feeless.fee_amount == 0,
        feeless.fee_pct.mantissa == 0,
{
}

/// A redemption at the LP supply with fees, diluted by the management fee at the time of the clock
/// or, where that cannot be read, of the last update: what a whole quote from LP tokens to asset
/// pays.
pub proof fn law_quoted_redemption_pays_formula<A>(
    amm: VoltrAmm<A>,
    params: QuoteParams,
    unix_time: Option<u64>,
    figures: Figures<A>,
    formulas: Formulas,
    q: Quote,
    current_ts: u64,
)
    requires
        params.input_mint == amm.vault_state.lp.mint,
        params.output_mint == amm.vault_state.asset.mint,
        unix_time == Some(current_ts) || (unix_time is None && current_ts
            == amm.vault_state.last_updated_ts),
        quote::quoted(amm, params, unix_time, figures, formulas) == Ok::<Quote, VoltrAmmError>(q),
    ensures
        ({
            &&& figures(
                amm.vault_state,
                Figure::TotalLpSupplyInclFees { lp_mint_supply: amm.lp_mint_supply },
            ) matches Ok(incl_fees)
            &&& quote::management_fee_lp(
                amm.vault_state,
                current_ts,
                amm.vault_state.total_asset_value,
                incl_fees,
                figures,
                formulas,
            ) matches Ok(fee_lp)
            &&& incl_fees + fee_lp <= u64::MAX
            &&& figures(
                amm.vault_state,
                Figure::UnlockedAssetValue { current_ts },
            ) matches Ok(unlocked)
            &&& formulas(
                Formula::WithdrawAssetToRedeem {
                    lp_amount: params.amount,
                    total_lp_supply: (incl_fees + fee_lp) as u64,
                    total_unlocked_asset: unlocked,
                    redemption_fee_bps: amm.vault_state.fee_configuration.redemption_fee,
                },
            ) == Ok::<u64, VoltrAmmError>(q.out_amount)
        }),
        q.in_amount == params.amount,
        q.fee_mint == amm.vault_state.asset.mint,
        is_fraction(q.fee_pct, amm.vault_state.fee_configuration.redemption_fee),
        q.out_amount <= amm.asset_idle_balance,
        amm.vault_state.vault_configuration.withdrawal_waiting_period == 0,
{
}

// Deposits.

/// A deposit mints what the deposit formula gives for the amount, at the diluted supply, at what
/// all assets are worth and at the vault's own issuance fee; while there are no LP tokens, what the
/// formula for that gives for the amount and the decimals of the two mints. Where the vault has no
/// dead weight yet, that much less comes out.
pub proof fn law_deposit_mints_formula<A>(
    amm: VoltrAmm<A>,
    params: QuoteParams,
    incl_fees: u64,
    after_fee: u64,
    formulas: Formulas,
    q: Quote,
)
    requires
        quote::issue_quote(amm, params, incl_fees, after_fee, formulas) == Ok::<
            Quote,
            VoltrAmmError,
        >(q),
    ensures
        q.in_amount == params.amount,
        q.fee_mint == params.input_mint,
        is_fraction(q.fee_pct, amm.vault_state.fee_configuration.issuance_fee),
        incl_fees > 0 ==> (formulas(
            Formula::DepositLpToMint {
                amount: params.amount,
                total_lp_supply: after_fee,
                total_asset_value: amm.vault_state.total_asset_value,
                issuance_fee_bps: amm.vault_state.fee_configuration.issuance_fee,
            },
        ) matches Ok(lp) && is_less_dead_weight(q.out_amount, lp, amm.vault_state.dead_weight)),
        incl_fees == 0 ==> (formulas(
            Formula::InitLpToMint {
                amount: params.amount,
                asset_mint_decimals: amm.asset_mint_decimals,
                lp_mint_decimals: amm.lp_mint_decimals,
            },
        ) matches Ok(lp) && is_less_dead_weight(q.out_amount, lp, amm.vault_state.dead_weight)),
{
}

/// The fee of a deposit is what the deposit formula gives more at no fee. While there are no LP
/// tokens, and without an issuance fee, nothing is charged.
pub proof fn law_deposit_fee<A>(
    amm: VoltrAmm<A>,
    params: QuoteParams,
    incl_fees: u64,
    after_fee: u64,
    formulas: Formulas,
    q: Quote,
)
    requires
        quote::issue_quote(amm, params, incl_fees, after_fee, formulas) == Ok::<
            Quote,
            VoltrAmmError,
        >(q),
    ensures
        incl_fees == 0 ==> q.fee_amount == 0,
        amm.vault_state.fee_configuration.issuance_fee == 0 ==> q.fee_amount == 0,
        incl_fees > 0 && amm.vault_state.fee_configuration.issuance_fee > 0 ==> (formulas(
            Formula::DepositLpToMint {
                amount: params.amount,
                total_lp_supply: after_fee,
                total_asset_value: amm.vault_state.total_asset_value,
                issuance_fee_bps: 0,
            },
        ) matches Ok(without_fee) && makes_up(q.fee_amount, q.out_amount, without_fee)),
{
}

/// A deposit is quoted, or refused for one reason: first a formula that fails, then less than the
/// dead weight in a vault that has none, and last the formula without the fee.
pub proof fn law_deposit_is_quoted_or_refused<A>(
    amm: VoltrAmm<A>,
    params: QuoteParams,
    incl_fees: u64,
    after_fee: u64,
    formulas: Formulas,
)
    ensures
        ({
            let made = quote::issue_quote(amm, params, incl_fees, after_fee, formulas);
            let fee_bps = amm.vault_state.fee_configuration.issuance_fee;
            let priced = if incl_fees > 0 {
                formulas(
                    Formula::DepositLpToMint {
                        amount: params.amount,
                        total_lp_supply: after_fee,
                        total_asset_value: amm.vault_state.total_asset_value,
                        issuance_fee_bps: fee_bps,
                    },
                )
            } else {
                formulas(
                    Formula::InitLpToMint {
                        amount: params.amount,
                        asset_mint_decimals: amm.asset_mint_decimals,
                        lp_mint_decimals: amm.lp_mint_decimals,
                    },
                )
            };
            match priced {
                Err(e) => made == Err::<Quote, VoltrAmmError>(e),
                Ok(lp) => {
                    let enough = amm.vault_state.dead_weight > 0 || lp >= DEAD_WEIGHT;
                    &&& !enough ==> made == Err::<Quote, VoltrAmmError>(
                        VoltrAmmError::InvalidAmount,
                    )
                    &&& enough && (incl_fees == 0 || fee_bps == 0) ==> made is Ok
                    &&& enough && incl_fees > 0 && fee_bps > 0 ==> match formulas(
                        Formula::DepositLpToMint {
                            amount: params.amount,
                            total_lp_supply: after_fee,
                            total_asset_value: amm.vault_state.total_asset_value,
                            issuance_fee_bps: 0,
                        },
                    ) {
                        Err(e) => made == Err::<Quote, VoltrAmmError>(e),
                        Ok(_) => made is Ok,
                    }
                },
            }
        }),
{
}

/// A vault with another issuance fee.
pub open spec fn with_issuance_fee<A>(vault: Vault<A>, issuance_fee: u16) -> Vault<A> {
    Vault {
        fee_configuration: FeeConfiguration { issuance_fee, ..vault.fee_configuration },
        ..vault
    }
}

/// What comes out of a deposit and its fee together are what comes out of the same vault without an
/// issuance fee, unless that is less. A vault without dead weight counts the dead weight as fee.
pub proof fn law_issuance_fee_is_what_a_feeless_vault_mints_more<A>(
    amm: VoltrAmm<A>,
    params: QuoteParams,
    incl_fees: u64,
    after_fee: u64,
    formulas: Formulas,
    q: Quote,
    feeless: Quote,
)
    requires
        incl_fees > 0,
        amm.vault_state.fee_configuration.issuance_fee > 0,
        quote::issue_quote(amm, params, incl_fees, after_fee, formulas) == Ok::<
            Quote,
            VoltrAmmError,
        >(q),
        quote::issue_quote(
            VoltrAmm { vault_state: with_issuance_fee(amm.vault_state, 0), ..amm },
            params,
            incl_fees,
            after_fee,
            formulas,
        ) == Ok::<Quote, VoltrAmmError>(feeless),
    ensures
        feeless.fee_amount == 0,
        feeless.fee_pct.mantissa == 0,
        amm.vault_state.dead_weight > 0 ==> makes_up(
            q.fee_amount,
            q.out_amount,
            feeless.out_amount,
        ),
        amm.vault_state.dead_weight == 0 && feeless.out_amount + DEAD_WEIGHT >= q.out_amount
            ==> q.out_amount + q.fee_amount == feeless.out_amount + DEAD_WEIGHT,
{
}

/// A deposit at the LP supply with fees, diluted by the management fee at the time of the clock or,
/// where that cannot be read, of the last update: what a whole quote from asset to LP tokens mints.
pub proof fn law_quoted_deposit_mints_formula<A>(
    amm: VoltrAmm<A>,
    params: QuoteParams,
    unix_time: Option<u64>,
    figures: Figures<A>,
    formulas: Formulas,
    q: Quote,
    current_ts: u64,
)
    requires
        params.input_mint == amm.vault_state.asset.mint,
        params.output_mint == amm.vault_state.lp.mint,
        amm.vault_state.asset.mint != amm.vault_state.lp.mint,
        unix_time == Some(current_ts) || (unix_time is None && current_ts
            == amm.vault_state.last_updated_ts),
        quote::quoted(amm, params, unix_time, figures, formulas) == Ok::<Quote, VoltrAmmError>(q),
    ensures
        ({
            &&& figures(
                amm.vault_state,
                Figure::TotalLpSupplyInclFees { lp_mint_supply: amm.lp_mint_supply },
            ) matches Ok(incl_fees)
            &&& quote::management_fee_lp(
                amm.vault_state,
                current_ts,
                amm.vault_state.total_asset_value,
                incl_fees,
                figures,
                formulas,
            ) matches Ok(fee_lp)
            &&& incl_fees + fee_lp <= u64::MAX
            &&& formulas(
                if incl_fees > 0 {
                    Formula::DepositLpToMint {
                        amount: params.amount,
                        total_lp_supply: (incl_fees + fee_lp) as u64,
                        total_asset_value: amm.vault_state.total_asset_value,
                        issuance_fee_bps: amm.vault_state.fee_configuration.issuance_fee,
                    }
                } else {
                    Formula::InitLpToMint {
                        amount: params.amount,
                        asset_mint_decimals: amm.asset_mint_decimals,
                        lp_mint_decimals: amm.lp_mint_decimals,
                    }
                },
            ) matches Ok(lp)
            &&& is_less_dead_weight(q.out_amount, lp, amm.vault_state.dead_weight)
        }),
        q.in_amount == params.amount,
        q.fee_mint == amm.vault_state.asset.mint,
        is_fraction(q.fee_pct, amm.vault_state.fee_configuration.issuance_fee),
{
}

/// An AMM with other terms of redemption: fee, waiting period and idle balance.
pub open spec fn with_redemption_terms<A>(
    amm: VoltrAmm<A>,
    redemption_fee: u16,
    withdrawal_waiting_period: u64,
    asset_idle_balance: u64,
) -> VoltrAmm<A> {
    VoltrAmm {
        vault_state: Vault {
            vault_configuration: VaultConfiguration { withdrawal_waiting_period },
            fee_configuration: FeeConfiguration {
                redemption_fee,
                ..amm.vault_state.fee_configuration
            },
            ..amm.vault_state
        },
        asset_idle_balance,
        ..amm
    }
}

/// Redemption fee, waiting period and idle balance play no part in a deposit: whatever they are, it
/// is quoted the same, if the figures of the vault are the same.
pub proof fn law_deposit_ignores_redemption_terms<A>(
    amm: VoltrAmm<A>,
    params: QuoteParams,
    unix_time: Option<u64>,
    figures: Figures<A>,
    formulas: Formulas,
    redemption_fee: u16,
    waiting_period: u64,
    idle_balance: u64,
)
    requires
        params.input_mint == amm.vault_state.asset.mint,
        params.output_mint == amm.vault_state.lp.mint,
        amm.vault_state.asset.mint != amm.vault_state.lp.mint,
        state::same_figures(
            figures,
            amm.vault_state,
            with_redemption_terms(amm, redemption_fee, waiting_period, idle_balance).vault_state,
        ),
    ensures
        quote::quoted(
            with_redemption_terms(amm, redemption_fee, waiting_period, idle_balance),
            params,
            unix_time,
            figures,
            formulas,
        ) == quote::quoted(amm, params, unix_time, figures, formulas),
{
}

// Quotes as a whole.

/// Between its own mints, a vault's quote fails where its LP supply cannot be read, where the
/// management fee cannot be estimated, or where the two together do not fit; otherwise it is the
/// quote of the redemption or of the deposit at that supply. Redeeming comes first where the two
/// mints are one.
pub proof fn law_quote_hands_over<A>(
    amm: VoltrAmm<A>,
    params: QuoteParams,
    current_ts: u64,
    figures: Figures<A>,
    formulas: Formulas,
)
    requires
        (params.input_mint == amm.vault_state.lp.mint && params.output_mint
            == amm.vault_state.asset.mint) || (params.input_mint == amm.vault_state.asset.mint
            && params.output_mint == amm.vault_state.lp.mint),
    ensures
        ({
            let made = quote::quoted(amm, params, Some(current_ts), figures, formulas);
            match figures(
                amm.vault_state,
                Figure::TotalLpSupplyInclFees { lp_mint_supply: amm.lp_mint_supply },
            ) {
                Err(e) => made == Err::<Quote, VoltrAmmError>(e),
                Ok(incl_fees) => match quote::management_fee_lp(
                    amm.vault_state,
                    current_ts,
                    amm.vault_state.total_asset_value,
                    incl_fees,
                    figures,
                    formulas,
                ) {
                    Err(e) => made == Err::<Quote, VoltrAmmError>(e),
                    Ok(fee_lp) => {
                        let fits = incl_fees + fee_lp <= u64::MAX;
                        let is_redeem = params.input_mint == amm.vault_state.lp.mint
                            && params.output_mint == amm.vault_state.asset.mint;
                        &&& !fits ==> made == Err::<Quote, VoltrAmmError>(
                            VoltrAmmError::MathOverflow,
                        )
                        &&& fits && is_redeem ==> made == quote::redeem_quote(
                            amm,
                            params,
                            current_ts,
                            (incl_fees + fee_lp) as u64,
                            figures,
                            formulas,
                        )
                        &&& fits && !is_redeem ==> made == quote::issue_quote(
                            amm,
                            params,
                            incl_fees,
                            (incl_fees + fee_lp) as u64,
                            formulas,
                        )
                    },
                },
            }
        }),
{
}

/// Between other mints nothing is quoted.
pub proof fn law_other_mints_are_refused<A>(
    amm: VoltrAmm<A>,
    params: QuoteParams,
    unix_time: Option<u64>,
    figures: Figures<A>,
    formulas: Formulas,
)
    requires
        !(params.input_mint == amm.vault_state.lp.mint && params.output_mint
            == amm.vault_state.asset.mint),
        !(params.input_mint == amm.vault_state.asset.mint && params.output_mint
            == amm.vault_state.lp.mint),
    ensures
        quote::quoted(amm, params, unix_time, figures, formulas) == Err::<Quote, VoltrAmmError>(
            VoltrAmmError::InvalidSourceMint,
        ),
{
}

/// The direction of a swap is to redeem from LP mint to asset mint, to issue the other way round,
/// and there is none between other mints.
pub proof fn law_direction(asset: Pubkey, lp: Pubkey, input: Pubkey, output: Pubkey)
    ensures
        quote::direction(asset, lp, input, output) == Some(Direction::Redeem) <==> (input == lp
            && output == asset),
        quote::direction(asset, lp, input, output) == Some(Direction::Issue) <==> (input == asset
            && output == lp && asset != lp),
{
}

/// Only the amount and the two mints of a request, the vault, its LP supply, the decimals of the
/// mints and the idle balance play a part in a quote: two AMMs that agree on these quote the same.
pub proof fn law_quote_ignores_the_rest<A>(
    amm: VoltrAmm<A>,
    other: VoltrAmm<A>,
    params: QuoteParams,
    unix_time: Option<u64>,
    figures: Figures<A>,
    formulas: Formulas,
)
    requires
        amm.vault_state == other.vault_state,
        amm.lp_mint_supply == other.lp_mint_supply,
        amm.lp_mint_decimals == other.lp_mint_decimals,
        amm.asset_mint_decimals == other.asset_mint_decimals,
        amm.asset_idle_balance == other.asset_idle_balance,
    ensures
        quote::quoted(amm, params, unix_time, figures, formulas) == quote::quoted(
            other,
            params,
            unix_time,
            figures,
            formulas,
        ),
{
}

/// A reader whose every answer is what a function says reads as that function; an evaluator
/// likewise.
pub proof fn law_answers_make_a_function<
    A,
    R: Fn(&Vault<A>, Figure) -> Result<u64, VoltrAmmError>,
    C: Fn(Formula) -> Result<u64, VoltrAmmError>,
>(read: R, calc: C, figures: Figures<A>, formulas: Formulas)
    ensures
        (forall|vault: &Vault<A>, figure: Figure, value: Result<u64, VoltrAmmError>| #[trigger]
            call_ensures(read, (vault, figure), value) ==> value == figures(*vault, figure))
            ==> state::reads_as(read, figures),
        (forall|formula: Formula, value: Result<u64, VoltrAmmError>| #[trigger]
            call_ensures(calc, (formula,), value) ==> value == formulas(formula))
            ==> state::calcs_as(calc, formulas),
        (forall|vault: &Vault<A>, figure: Figure| #[trigger] call_requires(read, (vault, figure)))
            ==> state::reads_all(read),
        (forall|formula: Formula| #[trigger] call_requires(calc, (formula,))) ==> state::calcs_all(
            calc,
        ),
{
}

} // verus!
