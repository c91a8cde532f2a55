//! The state of a vault, and the figures and formulas that the vault program prices with.
use vstd::prelude::*;

use crate::errors::VoltrAmmError;
use crate::key::Pubkey;

verus! {

/// The asset of a vault.
#[derive(Clone, Copy, Debug)]
pub struct VaultAsset {
    pub mint: Pubkey,
    pub idle_ata: Pubkey,
}

/// The LP token of a vault.
#[derive(Clone, Copy, Debug)]
pub struct VaultLp {
    pub mint: Pubkey,
}

/// Settings of a vault.
#[derive(Clone, Copy, Debug)]
pub struct VaultConfiguration {
    pub withdrawal_waiting_period: u64,
}

/// Fees of a vault, in basis points.
#[derive(Clone, Copy, Debug)]
pub struct FeeConfiguration {
    pub redemption_fee: u16,
    pub issuance_fee: u16,
}

/// When fees were last taken.
#[derive(Clone, Copy, Debug)]
pub struct FeeUpdate {
    pub last_management_fee_update_ts: u64,
}

/// A vault account: what swapping reads of it, and as `accounting` whatever else its figures
/// need.
#[derive(Clone, Copy, Debug)]
pub struct Vault<A> {
    pub asset: VaultAsset,
    pub lp: VaultLp,
    pub vault_configuration: VaultConfiguration,
    pub fee_configuration: FeeConfiguration,
    pub fee_update: FeeUpdate,
    pub dead_weight: u64,
    pub last_updated_ts: u64,
    pub total_asset_value: u64,
    pub accounting: A,
}

impl<A> Vault<A> {
    /// What all assets of the vault are worth.
    pub fn get_total_asset_value(&self) -> (value: u64)
        ensures
            value == self.total_asset_value,
    {
        self.total_asset_value
    }
}

/// A figure that is read off a vault. Reading one gives a number or fails.
#[derive(Clone, Copy, Debug, PartialEq, Eq)]
pub enum Figure {
    /// The LP supply, fees included.
    TotalLpSupplyInclFees { lp_mint_supply: u64 },
    /// The total management fee, in basis points.
    TotalManagementFee,
    /// The unlocked asset value at a time.
    UnlockedAssetValue { current_ts: u64 },
}

/// A formula of the vault program, applied to numbers. Evaluating one gives a number or fails.
#[derive(Clone, Copy, Debug, PartialEq, Eq)]
pub enum Formula {
    /// The management fee for a span of seconds, in asset.
    ManagementFeeAmountInAsset {
        time_elapsed: u64,
        total_asset_value: u64,
        management_fee_bps: u64,
    },
    /// The LP tokens that stand for a fee in asset.
    FeeLpToMint { fee_amount_in_asset: u64, total_lp_supply_incl_fees: u64, total_asset_value: u64 },
    /// The asset that LP tokens redeem for.
    WithdrawAssetToRedeem {
        lp_amount: u64,
        total_lp_supply: u64,
        total_unlocked_asset: u64,
        redemption_fee_bps: u16,
    },
    /// The LP tokens for a deposit while there are none yet.
    InitLpToMint { amount: u64, asset_mint_decimals: u8, lp_mint_decimals: u8 },
    /// The LP tokens for a deposit while there are some.
    DepositLpToMint {
        amount: u64,
        total_lp_supply: u64,
        total_asset_value: u64,
        issuance_fee_bps: u16,
    },
}

/// What the figures of vaults are.
pub type Figures<A> = spec_fn(Vault<A>, Figure) -> Result<u64, VoltrAmmError>;

/// What formulas come to.
pub type Formulas = spec_fn(Formula) -> Result<u64, VoltrAmmError>;

/// Whether `read` can be asked for every figure of every vault.
pub open spec fn reads_all<A, R: Fn(&Vault<A>, Figure) -> Result<u64, VoltrAmmError>>(
    read: R,
) -> bool {
    forall|vault: &Vault<A>, figure: Figure| call_requires(read, (vault, figure))
}

/// Whether `calc` can be asked for every formula.
pub open spec fn calcs_all<C: Fn(Formula) -> Result<u64, VoltrAmmError>>(calc: C) -> bool {
    forall|formula: Formula| call_requires(calc, (formula,))
}

/// Whether `read` gives the figures that the function `figures` says.
pub open spec fn reads_as<A, R: Fn(&Vault<A>, Figure) -> Result<u64, VoltrAmmError>>(
    read: R,
    figures: Figures<A>,
) -> bool {
    forall|vault: &Vault<A>, figure: Figure, value: Result<u64, VoltrAmmError>| #[trigger]
        call_ensures(read, (vault, figure), value) ==> value == figures(*vault, figure)
}

/// Whether `calc` gives what the function `formulas` says.
pub open spec fn calcs_as<C: Fn(Formula) -> Result<u64, VoltrAmmError>>(
    calc: C,
    formulas: Formulas,
) -> bool {
    forall|formula: Formula, value: Result<u64, VoltrAmmError>| #[trigger]
        call_ensures(calc, (formula,), value) ==> value == formulas(formula)
}

/// Whether reading a figure of a vault may fail with an error.
pub open spec fn read_may_fail<A, R: Fn(&Vault<A>, Figure) -> Result<u64, VoltrAmmError>>(
    read: R,
    vault: Vault<A>,
    error: VoltrAmmError,
) -> bool {
    exists|figure: Figure| #[trigger] call_ensures(read, (&vault, figure), Err(error))
}

/// Whether evaluating a formula may fail with an error.
pub open spec fn calc_may_fail<C: Fn(Formula) -> Result<u64, VoltrAmmError>>(
    calc: C,
    error: VoltrAmmError,
) -> bool {
    exists|formula: Formula| #[trigger] call_ensures(calc, (formula,), Err(error))
}

/// Whether no figure of a vault and no formula fails with an error.
pub open spec fn never_fails_with<A>(
    figures: Figures<A>,
    formulas: Formulas,
    vault: Vault<A>,
    error: VoltrAmmError,
) -> bool {
    &&& forall|figure: Figure| #[trigger] figures(vault, figure) != Err::<u64, VoltrAmmError>(error)
    &&& forall|formula: Formula| #[trigger] formulas(formula) != Err::<u64, VoltrAmmError>(error)
}

/// Whether two vaults have the same figures.
pub open spec fn same_figures<A>(figures: Figures<A>, vault: Vault<A>, other: Vault<A>) -> bool {
    forall|figure: Figure| #[trigger] figures(vault, figure) == figures(other, figure)
}

/// Whether `load` can be asked to read all bytes.
pub open spec fn loads_all<A, L: Fn(&[u8]) -> Result<Vault<A>, VoltrAmmError>>(load: L) -> bool {
    forall|data: &[u8]| call_requires(load, (data,))
}

/// Whether `load` reads bytes as the function `model` says.
pub open spec fn loads_as<A, L: Fn(&[u8]) -> Result<Vault<A>, VoltrAmmError>>(
    load: L,
    model: spec_fn(Seq<u8>) -> Result<Vault<A>, VoltrAmmError>,
) -> bool {
    forall|data: &[u8], vault: Result<Vault<A>, VoltrAmmError>| #[trigger]
        call_ensures(load, (data,), vault) ==> vault == model(data@)
}

} // verus!
