//! The accounts and instructions of a deposit and of a withdrawal.
use vstd::prelude::*;

use crate::address;
use crate::address::{DepositAddresses, RedeemAddresses};
use crate::constants::{SYSTEM_PROGRAM, TOKEN_PROGRAM, VOLTR_VAULT_PROGRAM};
use crate::encoding;
use crate::errors::VoltrAmmError;
use crate::instruction;
use crate::instruction::{AccountMeta, Instruction};
use crate::key::Pubkey;

verus! {

/// A deposit of asset for LP tokens.
#[derive(Clone, Copy, Debug)]
pub struct VoltrSwap {
    pub vault_key: Pubkey,
    pub vault_asset_mint: Pubkey,
    pub vault_asset_idle_ata: Pubkey,
    pub vault_lp_mint: Pubkey,
    pub user_source: Pubkey,
    pub user_destination: Pubkey,
    pub user_transfer_authority: Pubkey,
    pub asset_token_program: Pubkey,
}

/// A withdrawal of asset for LP tokens. The placeholder separates the accounts of the request
/// from those of the withdrawal.
#[derive(Clone, Copy, Debug)]
pub struct VoltrRedeemSwap {
    pub vault_key: Pubkey,
    pub vault_asset_mint: Pubkey,
    pub vault_asset_idle_ata: Pubkey,
    pub vault_lp_mint: Pubkey,
    pub user_lp_ata: Pubkey,
    pub user_asset_ata: Pubkey,
    pub user_transfer_authority: Pubkey,
    pub asset_token_program: Pubkey,
    pub placeholder: AccountMeta,
}

/// The accounts of `deposit_vault`.
pub open spec fn deposit_metas(swap: VoltrSwap, addresses: DepositAddresses) -> Seq<AccountMeta> {
    seq![
        instruction::readonly(swap.user_transfer_authority, true),
        instruction::readonly(addresses.protocol, false),
        instruction::writable(swap.vault_key, false),
        instruction::readonly(swap.vault_asset_mint, false),
        instruction::writable(addresses.vault_lp_mint, false),
        instruction::writable(swap.user_source, false),
        instruction::writable(swap.vault_asset_idle_ata, false),
        instruction::readonly(addresses.vault_asset_idle_auth, false),
        instruction::writable(swap.user_destination, false),
        instruction::readonly(addresses.vault_lp_mint_auth, false),
        instruction::readonly(swap.asset_token_program, false),
        instruction::readonly(TOKEN_PROGRAM, false),
        instruction::readonly(SYSTEM_PROGRAM, false),
    ]
}

/// The accounts of `request_withdraw_vault`.
pub open spec fn request_metas(swap: VoltrRedeemSwap, addresses: RedeemAddresses) -> Seq<
    AccountMeta,
> {
    seq![
        instruction::writable(swap.user_transfer_authority, true),
        instruction::readonly(swap.user_transfer_authority, true),
        instruction::readonly(addresses.protocol, false),
        instruction::readonly(swap.vault_key, false),
        instruction::readonly(addresses.vault_lp_mint, false),
        instruction::writable(swap.user_lp_ata, false),
        instruction::writable(addresses.receipt_lp_ata, false),
        instruction::writable(addresses.receipt, false),
        instruction::readonly(TOKEN_PROGRAM, false),
        instruction::readonly(SYSTEM_PROGRAM, false),
    ]
}

/// The accounts of `withdraw_vault`.
pub open spec fn withdraw_metas(swap: VoltrRedeemSwap, addresses: RedeemAddresses) -> Seq<
    AccountMeta,
> {
    seq![
        instruction::writable(swap.user_transfer_authority, true),
        instruction::readonly(addresses.protocol, false),
        instruction::writable(swap.vault_key, false),
        instruction::readonly(swap.vault_asset_mint, false),
        instruction::writable(addresses.vault_lp_mint, false),
        instruction::writable(addresses.receipt_lp_ata, false),
        instruction::writable(swap.vault_asset_idle_ata, false),
        instruction::writable(addresses.vault_asset_idle_auth, false),
        instruction::writable(swap.user_asset_ata, false),
        instruction::writable(addresses.receipt, false),
        instruction::readonly(swap.asset_token_program, false),
        instruction::readonly(TOKEN_PROGRAM, false),
        instruction::readonly(SYSTEM_PROGRAM, false),
    ]
}

/// The accounts of a withdrawal: of the request, the placeholder, and of the withdrawal.
pub open spec fn redeem_metas(swap: VoltrRedeemSwap, addresses: RedeemAddresses) -> Seq<
    AccountMeta,
> {
    request_metas(swap, addresses).push(swap.placeholder) + withdraw_metas(swap, addresses)
}

/// The call of `deposit_vault` that makes a deposit.
pub open spec fn is_deposit_instruction(
    deposit: Instruction,
    swap: VoltrSwap,
    addresses: DepositAddresses,
    amount: u64,
) -> bool {
    &&& deposit.program_id == VOLTR_VAULT_PROGRAM
    &&& deposit.accounts@ == deposit_metas(swap, addresses)
    &&& deposit.data@ == encoding::deposit_data(
        encoding::discriminator("deposit_vault"@),
        amount,
    )
    &&& deposit.data@.len() == 16
}

/// The calls of `request_withdraw_vault` and of `withdraw_vault` that make a withdrawal: the
/// accounts of the two are what stands before and after the first placeholder.
pub open spec fn are_redeem_instructions(
    request: Instruction,
    withdraw: Instruction,
    swap: VoltrRedeemSwap,
    addresses: RedeemAddresses,
    lp_amount: u64,
) -> bool {
    &&& request.program_id == VOLTR_VAULT_PROGRAM
    &&& request.data@ == encoding::request_withdraw_data(
        encoding::discriminator("request_withdraw_vault"@),
        lp_amount,
    )
    &&& request.data@.len() == 18
    &&& withdraw.program_id == VOLTR_VAULT_PROGRAM
    &&& withdraw.data@ == encoding::discriminator("withdraw_vault"@)
    &&& withdraw.data@.len() == 8
    &&& is_split(
        redeem_metas(swap, addresses),
        swap.placeholder,
        request.accounts@,
        withdraw.accounts@,
    )
}

/// Whether `head` and `tail` are what stands before and after the first `separator`.
pub open spec fn is_split(
    metas: Seq<AccountMeta>,
    separator: AccountMeta,
    head: Seq<AccountMeta>,
    tail: Seq<AccountMeta>,
) -> bool {
    &&& metas == head.push(separator) + tail
    &&& !head.contains(separator)
}

fn copy_range(metas: &Vec<AccountMeta>, from: usize, to: usize) -> (part: Vec<AccountMeta>)
    requires
        from <= to <= metas@.len(),
    ensures
        part@ == metas@.subrange(from as int, to as int),
{
    let mut part: Vec<AccountMeta> = Vec::with_capacity(to - from);
    let mut i: usize = from;
    while i < to
        invariant
            from <= i <= to <= metas@.len(),
            part@ == metas@.subrange(from as int, i as int),
        decreases to - i,
    {
        part.push(metas[i]);
        i = i + 1;
        assert(metas@.subrange(from as int, i as int) =~= metas@.subrange(from as int, i - 1).push(
            metas@[i - 1],
        ));
    }
    part
}

/// Splits metas at the first that equals the placeholder, which belongs to neither part.
pub fn split_at_placeholder(metas: &Vec<AccountMeta>, placeholder: &AccountMeta) -> (parts: Result<
    (Vec<AccountMeta>, Vec<AccountMeta>),
    VoltrAmmError,
>)
    ensures
        parts matches Ok((head, tail)) ==> is_split(metas@, *placeholder, head@, tail@),
        parts matches Err(e) ==> e == VoltrAmmError::PlaceholderNotFound,
        parts is Ok <==> metas@.contains(*placeholder),
{
    let mut i: usize = 0;
    while i < metas.len()
        invariant
            i <= metas@.len(),
            forall|j: int| 0 <= j < i ==> metas@[j] != *placeholder,
        decreases metas@.len() - i,
    {
        if metas[i].same(placeholder) {
            let head = copy_range(metas, 0, i);
            let tail = copy_range(metas, i + 1, metas.len());
            assert(metas@ =~= head@.push(*placeholder) + tail@);
            return Ok((head, tail));
        }
        i = i + 1;
    }
    Err(VoltrAmmError::PlaceholderNotFound)
}

impl VoltrSwap {
    /// The accounts of the deposit, given its derived addresses.
    pub fn account_metas_with(&self, addresses: &DepositAddresses) -> (metas: Vec<AccountMeta>)
        ensures
            metas@ == deposit_metas(*self, *addresses),
    {
        let metas: Vec<AccountMeta> = vec![
            AccountMeta::new_readonly(self.user_transfer_authority, true),
            AccountMeta::new_readonly(addresses.protocol, false),
            AccountMeta::new(self.vault_key, false),
            AccountMeta::new_readonly(self.vault_asset_mint, false),
            AccountMeta::new(addresses.vault_lp_mint, false),
            AccountMeta::new(self.user_source, false),
            AccountMeta::new(self.vault_asset_idle_ata, false),
            AccountMeta::new_readonly(addresses.vault_asset_idle_auth, false),
            AccountMeta::new(self.user_destination, false),
            AccountMeta::new_readonly(addresses.vault_lp_mint_auth, false),
            AccountMeta::new_readonly(self.asset_token_program, false),
            AccountMeta::new_readonly(TOKEN_PROGRAM, false),
            AccountMeta::new_readonly(SYSTEM_PROGRAM, false),
        ];
        assert(metas@ =~= deposit_metas(*self, *addresses));
        metas
    }

    /// The accounts of the deposit.
    pub fn account_metas(&self) -> (metas: Vec<AccountMeta>)
        requires
            address::deposit_addresses(self.vault_key) is Some,
        ensures
            metas@ == deposit_metas(*self, address::deposit_addresses(self.vault_key).unwrap()),
    {
        let addresses = address::find_deposit_addresses(&self.vault_key).unwrap();
        self.account_metas_with(&addresses)
    }

    /// The instruction that makes the deposit.
    pub fn into_instruction(self, deposit_amount: u64) -> (instruction: Result<
        Instruction,
        VoltrAmmError,
    >)
        requires
            address::deposit_addresses(self.vault_key) is Some,
        ensures
            instruction matches Ok(i) && is_deposit_instruction(
                i,
                self,
                address::deposit_addresses(self.vault_key).unwrap(),
                deposit_amount,
            ),
    {
        let metas = self.account_metas();
        let data = encoding::encode_deposit(
            &encoding::anchor_discriminator("deposit_vault"),
            deposit_amount,
        );
        Ok(Instruction { program_id: VOLTR_VAULT_PROGRAM, accounts: metas, data })
    }

    /// `into_instruction`, or `None` where a derived address does not exist.
    pub fn try_into_instruction(self, deposit_amount: u64) -> (instruction: Option<
        Result<Instruction, VoltrAmmError>,
    >)
        ensures
            instruction is Some <==> address::deposit_addresses(self.vault_key) is Some,
            instruction matches Some(made) ==> made matches Ok(i) && is_deposit_instruction(
                i,
                self,
                address::deposit_addresses(self.vault_key).unwrap(),
                deposit_amount,
            ),
    {
        if address::find_deposit_addresses(&self.vault_key).is_some() {
            Some(self.into_instruction(deposit_amount))
        } else {
            None
        }
    }
}

impl VoltrRedeemSwap {
    /// The accounts of the withdrawal, given its derived addresses.
    pub fn account_metas_with(&self, addresses: &RedeemAddresses) -> (metas: Vec<AccountMeta>)
        ensures
            metas@ == redeem_metas(*self, *addresses),
    {
        let metas: Vec<AccountMeta> = vec![
            AccountMeta::new(self.user_transfer_authority, true),
            AccountMeta::new_readonly(self.user_transfer_authority, true),
            AccountMeta::new_readonly(addresses.protocol, false),
            AccountMeta::new_readonly(self.vault_key, false),
            AccountMeta::new_readonly(addresses.vault_lp_mint, false),
            AccountMeta::new(self.user_lp_ata, false),
            AccountMeta::new(addresses.receipt_lp_ata, false),
            AccountMeta::new(addresses.receipt, false),
            AccountMeta::new_readonly(TOKEN_PROGRAM, false),
            AccountMeta::new_readonly(SYSTEM_PROGRAM, false),
            self.placeholder,
            AccountMeta::new(self.user_transfer_authority, true),
            AccountMeta::new_readonly(addresses.protocol, false),
            AccountMeta::new(self.vault_key, false),
            AccountMeta::new_readonly(self.vault_asset_mint, false),
            AccountMeta::new(addresses.vault_lp_mint, false),
            AccountMeta::new(addresses.receipt_lp_ata, false),
            AccountMeta::new(self.vault_asset_idle_ata, false),
            AccountMeta::new(addresses.vault_asset_idle_auth, false),
            AccountMeta::new(self.user_asset_ata, false),
            AccountMeta::new(addresses.receipt, false),
            AccountMeta::new_readonly(self.asset_token_program, false),
            AccountMeta::new_readonly(TOKEN_PROGRAM, false),
            AccountMeta::new_readonly(SYSTEM_PROGRAM, false),
        ];
        assert(metas@ =~= redeem_metas(*self, *addresses));
        metas
    }

    /// The accounts of the withdrawal.
    pub fn account_metas(&self) -> (metas: Vec<AccountMeta>)
        requires
            address::redeem_addresses(self.vault_key, self.user_transfer_authority) is Some,
        ensures
            metas@ == redeem_metas(
                *self,
                address::redeem_addresses(self.vault_key, self.user_transfer_authority).unwrap(),
            ),
    {
        let addresses = address::find_redeem_addresses(
            &self.vault_key,
            &self.user_transfer_authority,
        ).unwrap();
        self.account_metas_with(&addresses)
    }

    /// The instructions that make the withdrawal: `request_withdraw_vault`, then
    /// `withdraw_vault`. Before them the caller creates the receipt's LP account, the associated
    /// token account of `derive_receipt_pda` and `derive_vault_lp_mint_pda`.
    pub fn into_instructions(self, lp_amount: u64) -> (instructions: Result<
        [Instruction; 2],
        VoltrAmmError,
    >)
        requires
            address::redeem_addresses(self.vault_key, self.user_transfer_authority) is Some,
        ensures
            instructions matches Ok(pair) && are_redeem_instructions(
                pair@[0],
                pair@[1],
                self,
                address::redeem_addresses(self.vault_key, self.user_transfer_authority).unwrap(),
                lp_amount,
            ),
    {
        let metas = self.account_metas();
        assert(metas@[10] == self.placeholder);
        match split_at_placeholder(&metas, &self.placeholder) {
            Err(e) => Err(e),
            Ok((request_accounts, withdraw_accounts)) => {
                let request_withdraw_ix = Instruction {
                    program_id: VOLTR_VAULT_PROGRAM,
                    accounts: request_accounts,
                    data: encoding::encode_request_withdraw(
                        &encoding::anchor_discriminator("request_withdraw_vault"),
                        lp_amount,
                    ),
                };
                let withdraw_ix = Instruction {
                    program_id: VOLTR_VAULT_PROGRAM,
                    accounts: withdraw_accounts,
                    data: encoding::encode_withdraw(
                        &encoding::anchor_discriminator("withdraw_vault"),
                    ),
                };
                Ok([request_withdraw_ix, withdraw_ix])
            },
        }
    }

    /// `into_instructions`, or `None` where a derived address does not exist.
    pub fn try_into_instructions(self, lp_amount: u64) -> (instructions: Option<
        Result<[Instruction; 2], VoltrAmmError>,
    >)
        ensures
            instructions is Some <==> address::redeem_addresses(
                self.vault_key,
                self.user_transfer_authority,
            ) is Some,
            instructions matches Some(made) ==> made matches Ok(pair) && are_redeem_instructions(
                pair@[0],
                pair@[1],
                self,
                address::redeem_addresses(self.vault_key, self.user_transfer_authority).unwrap(),
                lp_amount,
            ),
    {
        if address::find_redeem_addresses(
            &self.vault_key,
            &self.user_transfer_authority,
        ).is_some() {
            Some(self.into_instructions(lp_amount))
        } else {
            None
        }
    }
}

} // verus!
