//! Addresses, seeds and limits of the Voltr vault program.
use vstd::prelude::*;

use crate::key::Pubkey;

verus! {

/// The vault program, `vVoLTRjQmtFpiYoegx285Ze4gsLJ8ZxgFKVcuvmG1a8`.
pub const VOLTR_VAULT_PROGRAM: Pubkey = [
    13, 180, 88, 140, 0, 40, 46, 57, 6, 188, 144, 247, 144, 212, 112, 104,
    17, 232, 204, 36, 178, 156, 202, 153, 27, 77, 112, 219, 58, 165, 141, 57,
];

/// The SPL token program, `TokenkegQfeZyiNwAJbNbGKPFXCWuBvf9Ss623VQ5DA`.
pub const TOKEN_PROGRAM: Pubkey = [
    6, 221, 246, 225, 215, 101, 161, 147, 217, 203, 225, 70, 206, 235, 121, 172,
    28, 180, 133, 237, 95, 91, 55, 145, 58, 140, 245, 133, 126, 255, 0, 169,
];

/// The token-2022 program, `TokenzQdBNbLqP5VEhdkAS6EPFLC1PHnBqCXEpPxuEb`.
pub const TOKEN_22_PROGRAM: Pubkey = [
    6, 221, 246, 225, 238, 117, 143, 222, 24, 66, 93, 188, 228, 108, 205, 218,
    182, 26, 252, 77, 131, 185, 13, 39, 254, 189, 249, 40, 216, 161, 139, 252,
];

/// The associated token account program, `ATokenGPvbdGVxr1b2hvZbsiqW5xWH25efTNsLJA8knL`.
pub const ATA_PROGRAM: Pubkey = [
    140, 151, 37, 143, 78, 36, 137, 241, 187, 61, 16, 41, 20, 142, 13, 131,
    11, 90, 19, 153, 218, 255, 16, 132, 4, 142, 123, 216, 219, 233, 248, 89,
];

/// The system program, `11111111111111111111111111111111`.
pub const SYSTEM_PROGRAM: Pubkey = [
    0, 0, 0, 0, 0, 0, 0, 0, 0, 0, 0, 0, 0, 0, 0, 0,
    0, 0, 0, 0, 0, 0, 0, 0, 0, 0, 0, 0, 0, 0, 0, 0,
];

/// The bytes of `protocol`.
pub const PROTOCOL_SEED: [u8; 8] = [112, 114, 111, 116, 111, 99, 111, 108];

/// The bytes of `vault_lp_mint`.
pub const VAULT_LP_MINT_SEED: [u8; 13] = [
    118, 97, 117, 108, 116, 95, 108, 112, 95, 109, 105, 110, 116,
];

/// The bytes of `vault_lp_mint_auth`.
pub const VAULT_LP_MINT_AUTH_SEED: [u8; 18] = [
    118, 97, 117, 108, 116, 95, 108, 112, 95, 109, 105, 110, 116, 95, 97, 117, 116, 104,
];

/// The bytes of `vault_asset_idle_auth`.
pub const VAULT_ASSET_IDLE_AUTH_SEED: [u8; 21] = [
    118, 97, 117, 108, 116, 95, 97, 115, 115, 101, 116, 95, 105, 100, 108, 101, 95, 97, 117, 116,
    104,
];

/// The bytes of `request_withdraw_vault_receipt`.
pub const REQUEST_WITHDRAW_VAULT_RECEIPT_SEED: [u8; 30] = [
    114, 101, 113, 117, 101, 115, 116, 95, 119, 105, 116, 104, 100, 114, 97, 119, 95, 118, 97, 117,
    108, 116, 95, 114, 101, 99, 101, 105, 112, 116,
];

/// The whole, in basis points.
pub const MAX_FEE_BPS: u16 = 10_000;

/// Seconds in a year of 365 days.
pub const ONE_YEAR_U64: u64 = 365 * 24 * 60 * 60;

/// LP tokens that the first deposit into a vault leaves behind.
pub const DEAD_WEIGHT: u64 = 1_000;

/// The label under which the AMM is listed.
pub const AMM_LABEL: &'static str = "VoltrAmm";

} // verus!
