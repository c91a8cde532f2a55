//! Quotes and instructions for swapping between the asset of a Voltr vault and its LP token.
//!
//! A [`VoltrAmm`] holds what swapping needs to know of one vault. It is brought up to date from
//! accounts, quotes deposits and redemptions, and lists the accounts of a swap. [`VoltrSwap`] and
//! [`VoltrRedeemSwap`] turn a deposit and a redemption into instructions of the vault program.
//!
//! How the vault account is laid out, what its figures are and what the formulas of the vault
//! program compute is left to the caller, who hands in a reader of vault accounts, a reader of
//! each [`state::Figure`] and an evaluator of each [`state::Formula`]. Contracts hold for all of
//! these.
pub mod accounts;
pub mod address;
pub mod amm;
pub mod constants;
pub mod encoding;
pub mod errors;
pub mod instruction;
pub mod key;
pub mod laws;
pub mod quote;
pub mod state;
pub mod swap;
pub mod token;

pub use crate::address::{derive_receipt_pda, derive_vault_lp_mint_pda};
pub use crate::amm::VoltrAmm;
pub use crate::swap::{VoltrRedeemSwap, VoltrSwap};
