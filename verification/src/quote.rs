//! Quotes.
use vstd::prelude::*;

use crate::amm::VoltrAmm;
use crate::constants::DEAD_WEIGHT;
use crate::errors::VoltrAmmError;
use crate::key::{same_key, Pubkey};
use crate::state;
use crate::state::{Figure, Figures, Formula, Formulas, Vault};

verus! {

/// What is to be quoted: how much goes in, of which mint, and which mint comes out.
#[derive(Clone, Copy, Debug)]
pub struct QuoteParams {
    pub amount: u64,
    pub input_mint: Pubkey,
    pub output_mint: Pubkey,
}

/// A decimal number: the mantissa divided by ten to the power of the scale.
#[derive(Clone, Copy, Debug, PartialEq, Eq)]
pub struct Decimal {
    pub mantissa: i128,
    pub scale: u32,
}

/// A quote.
#[derive(Clone, Copy, Debug, PartialEq, Eq)]
pub struct Quote {
    pub in_amount: u64,
    pub out_amount: u64,
    pub fee_amount: u64,
    pub fee_mint: Pubkey,
    pub fee_pct: Decimal,
}

/// Calls `rust_decimal::Decimal::new`, and takes the result apart with `mantissa` and `scale`.
/// Claims that the number has the mantissa and the scale that were asked for. The call panics on
/// a scale above 28.
#[verifier::external_body]
fn new_decimal(num: i64, scale: u32) -> (decimal: Decimal)
    requires
        scale <= 28,
    ensures
        decimal.mantissa == num,
        decimal.scale == scale,
{
    let decimal = rust_decimal::Decimal::new(num, scale);
    Decimal { mantissa: decimal.mantissa(), scale: decimal.scale() }
}

/// A fee in basis points, as a fraction of one.
pub open spec fn bps_fraction(bps: u16) -> Decimal {
    if bps > 0 {
        Decimal { mantissa: bps as i128, scale: 4 }
    } else {
        Decimal { mantissa: 0, scale: 0 }
    }
}

/// The direction of a swap.
#[derive(Clone, Copy, Debug, PartialEq, Eq)]
pub enum Direction {
    /// Asset in, LP tokens out.
    Issue,
    /// LP tokens in, asset out.
    Redeem,
}

/// The direction from one mint to another, if the vault swaps the two.
pub open spec fn direction(asset_mint: Pubkey, lp_mint: Pubkey, input: Pubkey, output: Pubkey) -> Option<
    Direction,
> {
    if input == lp_mint && output == asset_mint {
        Some(Direction::Redeem)
    } else if input == asset_mint && output == lp_mint {
        Some(Direction::Issue)
    } else {
        None
    }
}

/// Finds the direction from one mint to another.
pub fn find_direction<A>(vault: &Vault<A>, input: &Pubkey, output: &Pubkey) -> (found: Option<
    Direction,
>)
    ensures
        found == direction(vault.asset.mint, vault.lp.mint, *input, *output),
{
    if same_key(input, &vault.lp.mint) && same_key(output, &vault.asset.mint) {
        Some(Direction::Redeem)
    } else if same_key(input, &vault.asset.mint) && same_key(output, &vault.lp.mint) {
        Some(Direction::Issue)
    } else {
        None
    }
}

/// A difference, or zero where it would be negative.
pub open spec fn excess(a: u64, b: u64) -> u64 {
    if a > b {
        (a - b) as u64
    } else {
        0
    }
}

/// The LP tokens that the management fee since its last update would mint: none before the
/// first update, without assets, without a fee or without time passed, and none where the fee
/// comes to nothing or to all assets.
pub open spec fn management_fee_lp<A>(
    vault: Vault<A>,
    current_ts: u64,
    total_asset_value: u64,
    total_lp_supply_incl_fees: u64,
    figures: Figures<A>,
    formulas: Formulas,
) -> Result<u64, VoltrAmmError> {
    let last_ts = vault.fee_update.last_management_fee_update_ts;
    match figures(vault, Figure::TotalManagementFee) {
        Err(e) => Err(e),
        Ok(management_fee_bps) => if last_ts == 0 || total_asset_value == 0 || management_fee_bps
            == 0 || current_ts <= last_ts {
            Ok(0)
        } else {
            match formulas(
                Formula::ManagementFeeAmountInAsset {
                    time_elapsed: (current_ts - last_ts) as u64,
                    total_asset_value,
                    management_fee_bps,
                },
            ) {
                Err(e) => Err(e),
                Ok(fee_amount_in_asset) => if fee_amount_in_asset == 0 || fee_amount_in_asset
                    >= total_asset_value {
                    Ok(0)
                } else {
                    formulas(
                        Formula::FeeLpToMint {
                            fee_amount_in_asset,
                            total_lp_supply_incl_fees,
                            total_asset_value,
                        },
                    )
                },
            }
        },
    }
}

/// The fee amount of a quote: what the swap would give more without its fee.
pub open spec fn fee_amount(
    fee_bps: u16,
    out_amount: u64,
    out_without_fee: Result<u64, VoltrAmmError>,
) -> Result<u64, VoltrAmmError> {
    if fee_bps == 0 {
        Ok(0)
    } else {
        match out_without_fee {
            Err(e) => Err(e),
            Ok(without_fee) => Ok(excess(without_fee, out_amount)),
        }
    }
}

/// The quote for redeeming LP tokens: only without a waiting period, and only for as much asset
/// as the vault holds idle.
pub open spec fn redeem_quote<A>(
    amm: VoltrAmm<A>,
    params: QuoteParams,
    current_ts: u64,
    total_lp_supply: u64,
    figures: Figures<A>,
    formulas: Formulas,
) -> Result<Quote, VoltrAmmError> {
    let vault = amm.vault_state;
    let fee_bps = vault.fee_configuration.redemption_fee;
    if vault.vault_configuration.withdrawal_waiting_period != 0 {
        Err(VoltrAmmError::WithdrawalWaitingPeriodNotZero)
    } else {
        match figures(vault, Figure::UnlockedAssetValue { current_ts }) {
            Err(e) => Err(e),
            Ok(total_unlocked_asset) => {
                let redeemed = |bps: u16|
                    formulas(
                        Formula::WithdrawAssetToRedeem {
                            lp_amount: params.amount,
                            total_lp_supply,
                            total_unlocked_asset,
                            redemption_fee_bps: bps,
                        },
                    );
                match redeemed(fee_bps) {
                    Err(e) => Err(e),
                    Ok(out_amount) => if amm.asset_idle_balance < out_amount {
                        Err(VoltrAmmError::InsufficientIdleBalance)
                    } else {
                        match fee_amount(fee_bps, out_amount, redeemed(0)) {
                            Err(e) => Err(e),
                            Ok(fee_amount) => Ok(
                                Quote {
                                    in_amount: params.amount,
                                    out_amount,
                                    fee_amount,
                                    fee_mint: params.output_mint,
                                    fee_pct: bps_fraction(fee_bps),
                                },
                            ),
                        }
                    },
                }
            },
        }
    }
}

/// The quote for issuing LP tokens. While there are none, a deposit is priced from the decimals
/// of the two mints. A vault that has no dead weight yet keeps it back from what is minted.
pub open spec fn issue_quote<A>(
    amm: VoltrAmm<A>,
    params: QuoteParams,
    total_lp_supply_incl_fees: u64,
    total_lp_supply_after_mgmt_fee: u64,
    formulas: Formulas,
) -> Result<Quote, VoltrAmmError> {
    let vault = amm.vault_state;
    let fee_bps = vault.fee_configuration.issuance_fee;
    let is_first = total_lp_supply_incl_fees == 0;
    let minted = |bps: u16|
        formulas(
            Formula::DepositLpToMint {
                amount: params.amount,
                total_lp_supply: total_lp_supply_after_mgmt_fee,
                total_asset_value: vault.total_asset_value,
                issuance_fee_bps: bps,
            },
        );
    let before_dead_weight = if is_first {
        formulas(
            Formula::InitLpToMint {
                amount: params.amount,
                asset_mint_decimals: amm.asset_mint_decimals,
                lp_mint_decimals: amm.lp_mint_decimals,
            },
        )
    } else {
        minted(fee_bps)
    };
    match before_dead_weight {
        Err(e) => Err(e),
        Ok(lp) => if vault.dead_weight == 0 && lp < DEAD_WEIGHT {
            Err(VoltrAmmError::InvalidAmount)
        } else {
            let out_amount = if vault.dead_weight == 0 {
                (lp - DEAD_WEIGHT) as u64
            } else {
                lp
            };
            let without_fee = if is_first {
                Ok(out_amount)
            } else {
                minted(0)
            };
            match fee_amount(fee_bps, out_amount, without_fee) {
                Err(e) => Err(e),
                Ok(fee_amount) => Ok(
                    Quote {
                        in_amount: params.amount,
                        out_amount,
                        fee_amount,
                        fee_mint: params.input_mint,
                        fee_pct: bps_fraction(fee_bps),
                    },
                ),
            }
        },
    }
}

/// The quote for a swap, at a time. Where the clock cannot be read, the time is that of the
/// vault's last update.
pub open spec fn quoted<A>(
    amm: VoltrAmm<A>,
    params: QuoteParams,
    unix_time: Option<u64>,
    figures: Figures<A>,
    formulas: Formulas,
) -> Result<Quote, VoltrAmmError> {
    let vault = amm.vault_state;
    let current_ts = match unix_time {
        Some(ts) => ts,
        None => vault.last_updated_ts,
    };
    match direction(vault.asset.mint, vault.lp.mint, params.input_mint, params.output_mint) {
        None => Err(VoltrAmmError::InvalidSourceMint),
        Some(direction) => match figures(
            vault,
            Figure::TotalLpSupplyInclFees { lp_mint_supply: amm.lp_mint_supply },
        ) {
            Err(e) => Err(e),
            Ok(incl_fees) => match management_fee_lp(
                vault,
                current_ts,
                vault.total_asset_value,
                incl_fees,
                figures,
                formulas,
            ) {
                Err(e) => Err(e),
                Ok(fee_lp) => if incl_fees + fee_lp > u64::MAX {
                    Err(VoltrAmmError::MathOverflow)
                } else {
                    let after_fee = (incl_fees + fee_lp) as u64;
                    match direction {
                        Direction::Redeem => redeem_quote(
                            amm,
                            params,
                            current_ts,
                            after_fee,
                            figures,
                            formulas,
                        ),
                        Direction::Issue => issue_quote(
                            amm,
                            params,
                            incl_fees,
                            after_fee,
                            formulas,
                        ),
                    }
                },
            },
        },
    }
}

/// What every redemption quote meets, however the vault prices.
pub open spec fn fits_redeem<A>(amm: VoltrAmm<A>, params: QuoteParams, quote: Quote) -> bool {
    let fee_bps = amm.vault_state.fee_configuration.redemption_fee;
    &&& amm.vault_state.vault_configuration.withdrawal_waiting_period == 0
    &&& quote.in_amount == params.amount
    &&& quote.out_amount <= amm.asset_idle_balance
    &&& fee_bps == 0 ==> quote.fee_amount == 0
    &&& quote.fee_mint == params.output_mint
    &&& quote.fee_pct == bps_fraction(fee_bps)
}

/// What every issuance quote meets, however the vault prices.
pub open spec fn fits_issue<A>(amm: VoltrAmm<A>, params: QuoteParams, quote: Quote) -> bool {
    let fee_bps = amm.vault_state.fee_configuration.issuance_fee;
    &&& quote.in_amount == params.amount
    &&& fee_bps == 0 ==> quote.fee_amount == 0
    &&& quote.fee_mint == params.input_mint
    &&& quote.fee_pct == bps_fraction(fee_bps)
}

/// What every quote meets, however the vault prices.
pub open spec fn fits<A>(amm: VoltrAmm<A>, params: QuoteParams, quote: Quote) -> bool {
    match direction(
        amm.vault_state.asset.mint,
        amm.vault_state.lp.mint,
        params.input_mint,
        params.output_mint,
    ) {
        None => false,
        Some(Direction::Redeem) => fits_redeem(amm, params, quote),
        Some(Direction::Issue) => fits_issue(amm, params, quote),
    }
}

/// Where a redemption is refused with an error for a reason other than a figure or a formula that
/// fails.
pub open spec fn refuses_redeem<A>(amm: VoltrAmm<A>, error: VoltrAmmError) -> bool {
    let waits = amm.vault_state.vault_configuration.withdrawal_waiting_period != 0;
    match error {
        VoltrAmmError::WithdrawalWaitingPeriodNotZero => waits,
        VoltrAmmError::InsufficientIdleBalance => !waits,
        _ => false,
    }
}

/// Where an issuance is refused with an error for a reason other than a formula that fails.
pub open spec fn refuses_issue<A>(amm: VoltrAmm<A>, error: VoltrAmmError) -> bool {
    error is InvalidAmount && amm.vault_state.dead_weight == 0
}

/// Where a swap is refused with an error for a reason other than a figure or a formula that
/// fails.
pub open spec fn refuses<A>(amm: VoltrAmm<A>, params: QuoteParams, error: VoltrAmmError) -> bool {
    match direction(
        amm.vault_state.asset.mint,
        amm.vault_state.lp.mint,
        params.input_mint,
        params.output_mint,
    ) {
        None => error is InvalidSourceMint,
        Some(Direction::Redeem) => error is MathOverflow || refuses_redeem(amm, error),
        Some(Direction::Issue) => error is MathOverflow || refuses_issue(amm, error),
    }
}

/// The fraction of a fee in basis points.
fn fee_fraction(bps: u16) -> (fraction: Decimal)
    ensures
        fraction == bps_fraction(bps),
{
    if bps > 0 {
        new_decimal(bps as i64, 4)
    } else {
        Decimal { mantissa: 0, scale: 0 }
    }
}

impl<A> VoltrAmm<A> {
    /// Estimates the LP tokens that the management fee since its last update would mint.
    pub fn estimate_management_fee_lp<
        R: Fn(&Vault<A>, Figure) -> Result<u64, VoltrAmmError>,
        C: Fn(Formula) -> Result<u64, VoltrAmmError>,
    >(
        &self,
        current_ts: u64,
        total_asset_value: u64,
        total_lp_supply_incl_fees: u64,
        read: &R,
        calc: &C,
    ) -> (fee_lp: Result<u64, VoltrAmmError>)
        requires
            state::reads_all(*read),
            state::calcs_all(*calc),
        ensures
            forall|figures: Figures<A>, formulas: Formulas|
                (#[trigger] state::reads_as(*read, figures) && #[trigger] state::calcs_as(
                    *calc,
                    formulas,
                )) ==> fee_lp == management_fee_lp(
                    self.vault_state,
                    current_ts,
                    total_asset_value,
                    total_lp_supply_incl_fees,
                    figures,
                    formulas,
                ),
            fee_lp matches Err(e) ==> state::read_may_fail(
                *read,
                self.vault_state,
                e,
            ) || state::calc_may_fail(*calc, e),
    {
        let management_fee_bps: u64 = match read(&self.vault_state, Figure::TotalManagementFee) {
            Ok(bps) => bps,
            Err(e) => return Err(e),
        };
        let last_ts: u64 = self.vault_state.fee_update.last_management_fee_update_ts;
        if last_ts == 0 || total_asset_value == 0 || management_fee_bps == 0 {
            return Ok(0);
        }
        let time_elapsed: u64 = current_ts.saturating_sub(last_ts);
        if time_elapsed == 0 {
            return Ok(0);
        }
        let fee_amount_in_asset: u64 = match calc(
            Formula::ManagementFeeAmountInAsset {
                time_elapsed,
                total_asset_value,
                management_fee_bps,
            },
        ) {
            Ok(fee) => fee,
            Err(e) => return Err(e),
        };
        if fee_amount_in_asset == 0 || fee_amount_in_asset >= total_asset_value {
            return Ok(0);
        }
        calc(
            Formula::FeeLpToMint {
                fee_amount_in_asset,
                total_lp_supply_incl_fees,
                total_asset_value,
            },
        )
    }

    /// Quotes a redemption. Of the assets only what is unlocked counts.
    pub fn quote_redeem<
        R: Fn(&Vault<A>, Figure) -> Result<u64, VoltrAmmError>,
        C: Fn(Formula) -> Result<u64, VoltrAmmError>,
    >(
        &self,
        quote_params: &QuoteParams,
        current_ts: u64,
        _total_asset_value: u64,
        total_lp_supply_after_mgmt_fee: u64,
        read: &R,
        calc: &C,
    ) -> (quote: Result<Quote, VoltrAmmError>)
        requires
            state::reads_all(*read),
            state::calcs_all(*calc),
        ensures
            forall|figures: Figures<A>, formulas: Formulas|
                (#[trigger] state::reads_as(*read, figures) && #[trigger] state::calcs_as(
                    *calc,
                    formulas,
                )) ==> quote == redeem_quote(
                    *self,
                    *quote_params,
                    current_ts,
                    total_lp_supply_after_mgmt_fee,
                    figures,
                    formulas,
                ),
            quote matches Ok(q) ==> fits_redeem(*self, *quote_params, q),
            self.vault_state.vault_configuration.withdrawal_waiting_period != 0 ==> quote == Err::<
                Quote,
                VoltrAmmError,
            >(VoltrAmmError::WithdrawalWaitingPeriodNotZero),
            quote matches Err(e) ==> refuses_redeem(*self, e) || state::read_may_fail(
                *read,
                self.vault_state,
                e,
            ) || state::calc_may_fail(*calc, e),
    {
        if self.vault_state.vault_configuration.withdrawal_waiting_period != 0 {
            return Err(VoltrAmmError::WithdrawalWaitingPeriodNotZero);
        }
        let amount: u64 = quote_params.amount;
        let redemption_fee_bps: u16 = self.vault_state.fee_configuration.redemption_fee;
        let total_unlocked_asset: u64 = match read(
            &self.vault_state,
            Figure::UnlockedAssetValue { current_ts },
        ) {
            Ok(value) => value,
            Err(e) => return Err(e),
        };
        let asset_to_redeem: u64 = match calc(
            Formula::WithdrawAssetToRedeem {
                lp_amount: amount,
                total_lp_supply: total_lp_supply_after_mgmt_fee,
                total_unlocked_asset,
                redemption_fee_bps,
            },
        ) {
            Ok(asset) => asset,
            Err(e) => return Err(e),
        };
        if self.asset_idle_balance < asset_to_redeem {
            return Err(VoltrAmmError::InsufficientIdleBalance);
        }
        let fee_amount: u64 = if redemption_fee_bps > 0 {
            let asset_without_fee: u64 = match calc(
                Formula::WithdrawAssetToRedeem {
                    lp_amount: amount,
                    total_lp_supply: total_lp_supply_after_mgmt_fee,
                    total_unlocked_asset,
                    redemption_fee_bps: 0,
                },
            ) {
                Ok(asset) => asset,
                Err(e) => return Err(e),
            };
            asset_without_fee.saturating_sub(asset_to_redeem)
        } else {
            0
        };
        Ok(
            Quote {
                in_amount: amount,
                out_amount: asset_to_redeem,
                fee_amount,
                fee_mint: quote_params.output_mint,
                fee_pct: fee_fraction(redemption_fee_bps),
            },
        )
    }

    fn quote_issue<C: Fn(Formula) -> Result<u64, VoltrAmmError>>(
        &self,
        quote_params: &QuoteParams,
        total_lp_supply_incl_fees: u64,
        total_lp_supply_after_mgmt_fee: u64,
        calc: &C,
    ) -> (quote: Result<Quote, VoltrAmmError>)
        requires
            state::calcs_all(*calc),
        ensures
            forall|formulas: Formulas| #[trigger]
                state::calcs_as(*calc, formulas) ==> quote == issue_quote(
                    *self,
                    *quote_params,
                    total_lp_supply_incl_fees,
                    total_lp_supply_after_mgmt_fee,
                    formulas,
                ),
            quote matches Ok(q) ==> fits_issue(*self, *quote_params, q),
            quote matches Err(e) ==> refuses_issue(*self, e) || state::calc_may_fail(*calc, e),
    {
        let amount: u64 = quote_params.amount;
        let total_asset_value: u64 = self.vault_state.get_total_asset_value();
        let issuance_fee_bps: u16 = self.vault_state.fee_configuration.issuance_fee;
        let first_formula = if total_lp_supply_incl_fees == 0 {
            Formula::InitLpToMint {
                amount,
                asset_mint_decimals: self.asset_mint_decimals,
                lp_mint_decimals: self.lp_mint_decimals,
            }
        } else {
            Formula::DepositLpToMint {
                amount,
                total_lp_supply: total_lp_supply_after_mgmt_fee,
                total_asset_value,
                issuance_fee_bps,
            }
        };
        let lp_to_mint_before_dead_weight: u64 = match calc(first_formula) {
            Ok(lp) => lp,
            Err(e) => return Err(e),
        };
        let lp_to_mint: u64 = if self.vault_state.dead_weight == 0 {
            if lp_to_mint_before_dead_weight < DEAD_WEIGHT {
                return Err(VoltrAmmError::InvalidAmount);
            }
            lp_to_mint_before_dead_weight - DEAD_WEIGHT
        } else {
            lp_to_mint_before_dead_weight
        };
        let fee_amount: u64 = if issuance_fee_bps > 0 {
            let lp_without_fee: u64 = if total_lp_supply_incl_fees == 0 {
                lp_to_mint
            } else {
                match calc(
                    Formula::DepositLpToMint {
                        amount,
                        total_lp_supply: total_lp_supply_after_mgmt_fee,
                        total_asset_value,
                        issuance_fee_bps: 0,
                    },
                ) {
                    Ok(lp) => lp,
                    Err(e) => return Err(e),
                }
            };
            lp_without_fee.saturating_sub(lp_to_mint)
        } else {
            0
        };
        Ok(
            Quote {
                in_amount: amount,
                out_amount: lp_to_mint,
                fee_amount,
                fee_mint: quote_params.input_mint,
                fee_pct: fee_fraction(issuance_fee_bps),
            },
        )
    }

    /// Quotes a swap. `unix_time` is the clock, in seconds, if it could be read; `read` reads the
    /// figures of a vault and `calc` evaluates the formulas of the vault program.
    pub fn quote<
        R: Fn(&Vault<A>, Figure) -> Result<u64, VoltrAmmError>,
        C: Fn(Formula) -> Result<u64, VoltrAmmError>,
    >(
        &self,
        quote_params: &QuoteParams,
        unix_time: Option<u64>,
        read: &R,
        calc: &C,
    ) -> (quote: Result<Quote, VoltrAmmError>)
        requires
            state::reads_all(*read),
            state::calcs_all(*calc),
        ensures
            forall|figures: Figures<A>, formulas: Formulas|
                (#[trigger] state::reads_as(*read, figures) && #[trigger] state::calcs_as(
                    *calc,
                    formulas,
                )) ==> quote == quoted(
                    *self,
                    *quote_params,
                    unix_time,
                    figures,
                    formulas,
                ),
            direction(
                self.vault_state.asset.mint,
                self.vault_state.lp.mint,
                quote_params.input_mint,
                quote_params.output_mint,
            ) is None ==> quote == Err::<Quote, VoltrAmmError>(VoltrAmmError::InvalidSourceMint),
            quote matches Ok(q) ==> fits(*self, *quote_params, q),
            quote matches Err(e) ==> refuses(*self, *quote_params, e) || state::read_may_fail(
                *read,
                self.vault_state,
                e,
            ) || state::calc_may_fail(*calc, e),
    {
        let found = find_direction(
            &self.vault_state,
            &quote_params.input_mint,
            &quote_params.output_mint,
        );
        let direction = match found {
            None => return Err(VoltrAmmError::InvalidSourceMint),
            Some(direction) => direction,
        };
        let total_asset_value: u64 = self.vault_state.get_total_asset_value();
        let total_lp_supply_incl_fees: u64 = match read(
            &self.vault_state,
            Figure::TotalLpSupplyInclFees { lp_mint_supply: self.lp_mint_supply },
        ) {
            Ok(supply) => supply,
            Err(e) => return Err(e),
        };
        let current_ts: u64 = match unix_time {
            Some(ts) => ts,
            None => self.vault_state.last_updated_ts,
        };
        let mgmt_fee_lp: u64 = match self.estimate_management_fee_lp(
            current_ts,
            total_asset_value,
            total_lp_supply_incl_fees,
            read,
            calc,
        ) {
            Ok(fee_lp) => fee_lp,
            Err(e) => return Err(e),
        };
        let total_lp_supply_after_mgmt_fee: u64 = match total_lp_supply_incl_fees.checked_add(
            mgmt_fee_lp,
        ) {
            Some(supply) => supply,
            None => return Err(VoltrAmmError::MathOverflow),
        };
        match direction {
            Direction::Redeem => self.quote_redeem(
                quote_params,
                current_ts,
                total_asset_value,
                total_lp_supply_after_mgmt_fee,
                read,
                calc,
            ),
            Direction::Issue => self.quote_issue(
                quote_params,
                total_lp_supply_incl_fees,
                total_lp_supply_after_mgmt_fee,
                calc,
            ),
        }
    }
}

} // verus!
