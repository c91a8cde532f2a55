//! Mints and token accounts of the SPL token program and of token-2022.
use solana_sdk::program_error::ProgramError;
use solana_sdk::program_pack::Pack;
use spl_token_2022::extension::StateWithExtensionsOwned;
use vstd::prelude::*;

use crate::encoding;
use crate::errors::UnpackError;

verus! {

/// Supply and decimals of a mint.
#[derive(Clone, Copy, Debug, PartialEq, Eq)]
pub struct MintState {
    pub supply: u64,
    pub decimals: u8,
}

/// Whether the four bytes at an offset tag an optional field: 0 or 1, least significant first.
pub open spec fn option_tag(data: Seq<u8>, at: int) -> bool {
    data[at] <= 1 && data[at + 1] == 0 && data[at + 2] == 0 && data[at + 3] == 0
}

/// A mint of 82 bytes: the optional mint authority, the supply, the decimals, whether it is
/// initialized, and the optional freeze authority.
pub open spec fn mint_state(data: Seq<u8>) -> Result<MintState, UnpackError> {
    if data.len() != 82 || !option_tag(data, 0) || data[45] > 1 || !option_tag(data, 46) {
        Err(UnpackError::InvalidAccountData)
    } else if data[45] == 0 {
        Err(UnpackError::UninitializedAccount)
    } else {
        Ok(MintState { supply: encoding::le_value(data, 36) as u64, decimals: data[44] })
    }
}

/// The amount in a token account of 165 bytes: mint, owner, amount, optional delegate, state,
/// optional native reserve, delegated amount, and optional close authority.
pub open spec fn token_amount(data: Seq<u8>) -> Result<u64, UnpackError> {
    if data.len() != 165 || !option_tag(data, 72) || data[108] > 2 || !option_tag(data, 109)
        || !option_tag(data, 129) {
        Err(UnpackError::InvalidAccountData)
    } else if data[108] == 0 {
        Err(UnpackError::UninitializedAccount)
    } else {
        Ok(encoding::le_value(data, 64) as u64)
    }
}

/// Whether what follows the first `base_len` bytes can hold extensions: nothing at all, or zeros
/// up to byte 165, the account type there, and at least one byte more.
pub open spec fn extensions_fit(data: Seq<u8>, base_len: int, account_type: u8) -> bool {
    data.len() == base_len || {
        &&& data.len() > 166
        &&& forall|i: int| base_len <= i < 165 ==> data[i] == 0
        &&& data[165] == account_type
    }
}

/// A token-2022 mint: the 82 bytes of a mint, with or without extensions. 355 bytes are those of
/// a multisig.
pub open spec fn mint_2022_state(data: Seq<u8>) -> Result<MintState, UnpackError> {
    if data.len() == 355 || data.len() < 82 {
        Err(UnpackError::InvalidAccountData)
    } else {
        match mint_state(data.take(82)) {
            Err(e) => Err(e),
            Ok(mint) => if extensions_fit(data, 82, 1) {
                Ok(mint)
            } else {
                Err(UnpackError::InvalidAccountData)
            },
        }
    }
}

/// The amount in a token-2022 account: the 165 bytes of a token account, with or without
/// extensions. 355 bytes are those of a multisig.
pub open spec fn token_2022_amount(data: Seq<u8>) -> Result<u64, UnpackError> {
    if data.len() == 355 || data.len() < 165 {
        Err(UnpackError::InvalidAccountData)
    } else {
        match token_amount(data.take(165)) {
            Err(e) => Err(e),
            Ok(amount) => if extensions_fit(data, 165, 2) {
                Ok(amount)
            } else {
                Err(UnpackError::InvalidAccountData)
            },
        }
    }
}

/// Calls `spl_token::state::Mint::unpack`. Claims that it reads supply and decimals at their
/// places, and fails on bytes that are no initialized mint.
#[verifier::external_body]
pub(crate) fn unpack_mint(data: &[u8]) -> (mint: Result<MintState, UnpackError>)
    ensures
        mint == mint_state(data@),
{
    match spl_token::state::Mint::unpack(data) {
        Ok(mint) => Ok(MintState { supply: mint.supply, decimals: mint.decimals }),
        Err(ProgramError::UninitializedAccount) => Err(UnpackError::UninitializedAccount),
        Err(_) => Err(UnpackError::InvalidAccountData),
    }
}

/// Calls `StateWithExtensionsOwned::<Mint>::unpack` of `spl_token_2022`. Claims that it reads
/// the base mint, and fails where that is no initialized mint or where what follows it cannot
/// hold extensions of a mint.
#[verifier::external_body]
pub(crate) fn unpack_mint_2022(data: &[u8]) -> (mint: Result<MintState, UnpackError>)
    ensures
        mint == mint_2022_state(data@),
{
    match StateWithExtensionsOwned::<spl_token_2022::state::Mint>::unpack(data.to_vec()) {
        Ok(mint) => Ok(MintState { supply: mint.base.supply, decimals: mint.base.decimals }),
        Err(ProgramError::UninitializedAccount) => Err(UnpackError::UninitializedAccount),
        Err(_) => Err(UnpackError::InvalidAccountData),
    }
}

/// Calls `spl_token::state::Account::unpack`. Claims that it reads the amount at its place, and
/// fails on bytes that are no initialized token account.
#[verifier::external_body]
pub(crate) fn unpack_token_account(data: &[u8]) -> (amount: Result<u64, UnpackError>)
    ensures
        amount == token_amount(data@),
{
    match spl_token::state::Account::unpack(data) {
        Ok(account) => Ok(account.amount),
        Err(ProgramError::UninitializedAccount) => Err(UnpackError::UninitializedAccount),
        Err(_) => Err(UnpackError::InvalidAccountData),
    }
}

/// Calls `StateWithExtensionsOwned::<Account>::unpack` of `spl_token_2022`. Claims that it reads
/// the amount of the base account, and fails where that is no initialized token account or where
/// what follows it cannot hold extensions of an account.
#[verifier::external_body]
pub(crate) fn unpack_token_account_2022(data: &[u8]) -> (amount: Result<u64, UnpackError>)
    ensures
        amount == token_2022_amount(data@),
{
    match StateWithExtensionsOwned::<spl_token_2022::state::Account>::unpack(data.to_vec()) {
        Ok(account) => Ok(account.base.amount),
        Err(ProgramError::UninitializedAccount) => Err(UnpackError::UninitializedAccount),
        Err(_) => Err(UnpackError::InvalidAccountData),
    }
}

} // verus!
