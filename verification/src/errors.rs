//! What can go wrong.
use vstd::prelude::*;

use crate::key::Pubkey;

verus! {

/// Why the bytes of a token program's account could not be read.
#[derive(Clone, Copy, Debug, PartialEq, Eq)]
pub enum UnpackError {
    /// The bytes do not have the layout of the account.
    InvalidAccountData,
    /// The account was never initialized.
    UninitializedAccount,
}

/// Errors of the AMM.
#[derive(Clone, Debug, PartialEq, Eq)]
pub enum VoltrAmmError {
    /// The mints traded are not the vault's asset and LP mint.
    InvalidSourceMint,
    /// Redeeming needs a vault without a withdrawal waiting period.
    WithdrawalWaitingPeriodNotZero,
    /// The vault holds too little idle asset for the redemption.
    InsufficientIdleBalance,
    /// The LP supply does not fit 64 bits.
    MathOverflow,
    /// A first deposit is smaller than the dead weight.
    InvalidAmount,
    /// The account at this address was not handed in.
    AccountNotFound(Pubkey),
    /// The account of the asset mint was not handed in.
    AssetMintNotFound,
    /// No account meta equals the placeholder.
    PlaceholderNotFound,
    /// A mint or a token account could not be read.
    Unpack(UnpackError),
    /// The vault account could not be read, or one of its formulas failed.
    Vault(String),
}

} // verus!
