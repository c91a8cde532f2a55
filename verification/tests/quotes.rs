use solana_sdk::program_option::COption;
use solana_sdk::program_pack::Pack;
use solana_sdk::pubkey::Pubkey;
use voltr_amm::accounts::{Account, AccountMap};
use voltr_amm::constants::{AMM_LABEL, TOKEN_PROGRAM, VOLTR_VAULT_PROGRAM};
use voltr_amm::errors::VoltrAmmError;
use voltr_amm::quote::{Decimal, Quote, QuoteParams};
use voltr_amm::state::{
    FeeConfiguration, FeeUpdate, Figure, Formula, Vault, VaultAsset, VaultConfiguration, VaultLp,
};
use voltr_amm::VoltrAmm;

const ASSET: [u8; 32] = [1; 32];
const LP: [u8; 32] = [2; 32];
const NOW: u64 = 1_700_000_000;

/// What the test figures read of a vault.
#[derive(Clone, Copy, Debug)]
struct Books {
    owed_fees_lp: u64,
    management_fee_bps: u64,
    locked: u64,
}

fn share(amount: u64, numerator: u64, denominator: u64, fee_bps: u16) -> Result<u64, VoltrAmmError> {
    if denominator == 0 {
        return Err(VoltrAmmError::Vault("division by zero".to_string()));
    }
    let kept = 10_000 - fee_bps as u128;
    Ok((amount as u128 * numerator as u128 * kept / denominator as u128 / 10_000) as u64)
}

fn read(vault: &Vault<Books>, figure: Figure) -> Result<u64, VoltrAmmError> {
    match figure {
        Figure::TotalLpSupplyInclFees { lp_mint_supply } => {
            Ok(lp_mint_supply + vault.accounting.owed_fees_lp)
        }
        Figure::TotalManagementFee => Ok(vault.accounting.management_fee_bps),
        Figure::UnlockedAssetValue { current_ts } => {
            assert!(current_ts >= vault.last_updated_ts);
            Ok(vault.total_asset_value - vault.accounting.locked)
        }
    }
}

fn calc(formula: Formula) -> Result<u64, VoltrAmmError> {
    match formula {
        Formula::ManagementFeeAmountInAsset { time_elapsed, total_asset_value, management_fee_bps } => {
            Ok(total_asset_value * management_fee_bps / 10_000 * time_elapsed / 31_536_000)
        }
        Formula::FeeLpToMint { fee_amount_in_asset, total_lp_supply_incl_fees, total_asset_value } => {
            share(fee_amount_in_asset, total_lp_supply_incl_fees, total_asset_value - fee_amount_in_asset, 0)
        }
        Formula::WithdrawAssetToRedeem {
            lp_amount, total_lp_supply, total_unlocked_asset, redemption_fee_bps,
        } => share(lp_amount, total_unlocked_asset, total_lp_supply, redemption_fee_bps),
        Formula::InitLpToMint { amount, asset_mint_decimals, lp_mint_decimals } => {
            Ok(amount * 10u64.pow((lp_mint_decimals - asset_mint_decimals) as u32))
        }
        Formula::DepositLpToMint { amount, total_lp_supply, total_asset_value, issuance_fee_bps } => {
            share(amount, total_lp_supply, total_asset_value, issuance_fee_bps)
        }
    }
}

fn vault() -> Vault<Books> {
    Vault {
        asset: VaultAsset { mint: ASSET, idle_ata: [3; 32] },
        lp: VaultLp { mint: LP },
        vault_configuration: VaultConfiguration { withdrawal_waiting_period: 0 },
        fee_configuration: FeeConfiguration { redemption_fee: 100, issuance_fee: 100 },
        fee_update: FeeUpdate { last_management_fee_update_ts: NOW },
        dead_weight: 1_000,
        last_updated_ts: NOW,
        total_asset_value: 1_000_000_000,
        accounting: Books { owed_fees_lp: 0, management_fee_bps: 200, locked: 0 },
    }
}

fn amm() -> VoltrAmm<Books> {
    let mut amm = VoltrAmm::new([4; 32], vault());
    amm.lp_mint_supply = 2_000_000_000;
    amm.asset_mint_decimals = 6;
    amm.asset_idle_balance = 900_000_000;
    amm
}

/// Reads the one vault account there is.
fn load(data: &[u8]) -> Result<Vault<Books>, VoltrAmmError> {
    if data == [86; 8] {
        Ok(vault())
    } else {
        Err(VoltrAmmError::Vault("not a vault".to_string()))
    }
}

fn mint(supply: u64, decimals: u8) -> Vec<u8> {
    let mint = spl_token::state::Mint {
        mint_authority: COption::None,
        supply,
        decimals,
        is_initialized: true,
        freeze_authority: COption::None,
    };
    let mut data = vec![0; 82];
    spl_token::state::Mint::pack(mint, &mut data).unwrap();
    data
}

fn token_account(amount: u64) -> Vec<u8> {
    let account = spl_token::state::Account {
        mint: Pubkey::new_from_array(ASSET),
        owner: Pubkey::new_from_array([8; 32]),
        amount,
        delegate: COption::None,
        state: spl_token::state::AccountState::Initialized,
        is_native: COption::None,
        delegated_amount: 0,
        close_authority: COption::None,
    };
    let mut data = vec![0; 165];
    spl_token::state::Account::pack(account, &mut data).unwrap();
    data
}

fn account_map() -> AccountMap {
    let mut map = AccountMap::new();
    map.insert([4; 32], Account { owner: VOLTR_VAULT_PROGRAM, data: vec![86; 8] });
    map.insert(LP, Account { owner: TOKEN_PROGRAM, data: mint(2_000_000_000, 9) });
    map.insert(ASSET, Account { owner: TOKEN_PROGRAM, data: mint(5_000_000_000, 6) });
    map.insert([3; 32], Account { owner: TOKEN_PROGRAM, data: token_account(900_000_000) });
    map
}

/// The AMM as it is after an update from accounts.
fn loaded_amm() -> VoltrAmm<Books> {
    let account_map = account_map();
    let vault_key = [4; 32];
    let vault_state = load(&account_map.get(&vault_key).unwrap().data).unwrap();
    let mut voltr_amm = VoltrAmm::new(vault_key, vault_state);
    voltr_amm.update(&account_map, &load).unwrap();
    voltr_amm
}

fn issue(amount: u64) -> QuoteParams {
    QuoteParams { amount, input_mint: ASSET, output_mint: LP }
}

fn redeem(amount: u64) -> QuoteParams {
    QuoteParams { amount, input_mint: LP, output_mint: ASSET }
}

const ONE_PERCENT: Decimal = Decimal { mantissa: 100, scale: 4 };

#[test]
fn new_amm_has_read_nothing() {
    let amm = VoltrAmm::new([4; 32], vault());
    assert_eq!(amm.label, AMM_LABEL);
    assert_eq!(amm.label(), "VoltrAmm");
    assert_eq!(amm.program_id(), VOLTR_VAULT_PROGRAM);
    assert_eq!(amm.key(), [4; 32]);
    assert_eq!(amm.lp_mint_supply, 0);
    assert_eq!(amm.lp_mint_decimals, 9);
    assert_eq!(amm.asset_mint_decimals, 0);
    assert_eq!(amm.asset_token_program, TOKEN_PROGRAM);
    assert_eq!(amm.asset_idle_balance, 0);
    assert_eq!(amm.get_reserve_mints(), vec![ASSET, LP]);
    assert_eq!(amm.get_accounts_to_update(), vec![[4; 32], LP, ASSET, [3; 32]]);
    assert!(!amm.supports_exact_out());
}

#[test]
fn update_gives_the_same_amm() {
    assert_eq!(format!("{:?}", loaded_amm()), format!("{:?}", amm()));
}

#[test]
fn test_quote_deposit() {
    let voltr_amm = loaded_amm();
    let amount = 1_000_000;
    let quote_result = voltr_amm.quote(&issue(amount), Some(NOW), &read, &calc).unwrap();
    assert_eq!(amount, quote_result.in_amount);
    assert!(quote_result.out_amount > 0, "Expected non-zero LP output");

    let redeem_result = voltr_amm.quote(&redeem(1_000), Some(NOW), &read, &calc);
    if let Err(e) = redeem_result {
        assert_ne!(e, VoltrAmmError::InvalidSourceMint);
    }
}

#[test]
fn test_quote_withdraw() {
    let voltr_amm = loaded_amm();
    let lp_amount = 50_000_000;
    let quote_result = voltr_amm.quote(&redeem(lp_amount), Some(NOW), &read, &calc).unwrap();
    assert_eq!(lp_amount, quote_result.in_amount);
    assert!(quote_result.out_amount > 0, "Expected non-zero asset output");

    let redemption_fee_bps = voltr_amm.vault_state.fee_configuration.redemption_fee;
    if redemption_fee_bps > 0 {
        assert!(quote_result.fee_amount > 0, "Expected non-zero fee");
    }

    let deposit_result = voltr_amm.quote(&issue(1_000_000), Some(NOW), &read, &calc).unwrap();
    assert!(deposit_result.out_amount > 0, "Deposit quote should still work");
}

#[test]
fn issue_quote_is_exact() {
    let quote = amm().quote(&issue(1_000_000), Some(NOW), &read, &calc).unwrap();
    assert_eq!(
        quote,
        Quote {
            in_amount: 1_000_000,
            out_amount: 1_980_000,
            fee_amount: 20_000,
            fee_mint: ASSET,
            fee_pct: ONE_PERCENT,
        }
    );
}

#[test]
fn redeem_quote_is_exact() {
    let quote = amm().quote(&redeem(50_000_000), Some(NOW), &read, &calc).unwrap();
    assert_eq!(
        quote,
        Quote {
            in_amount: 50_000_000,
            out_amount: 24_750_000,
            fee_amount: 250_000,
            fee_mint: ASSET,
            fee_pct: ONE_PERCENT,
        }
    );
}

#[test]
fn fee_fraction_is_that_of_the_decimal_crate() {
    let quote = amm().quote(&redeem(1), Some(NOW), &read, &calc).unwrap();
    let pct = rust_decimal::Decimal::new(100, 4);
    assert_eq!(quote.fee_pct.mantissa, pct.mantissa());
    assert_eq!(quote.fee_pct.scale, pct.scale());
    assert_eq!(pct.to_string(), "0.0100");
}

#[test]
fn without_fee_nothing_is_charged() {
    let mut amm = amm();
    amm.vault_state.fee_configuration = FeeConfiguration { redemption_fee: 0, issuance_fee: 0 };
    let none = Decimal { mantissa: 0, scale: 0 };
    let issued = amm.quote(&issue(1_000_000), Some(NOW), &read, &calc).unwrap();
    assert_eq!((issued.out_amount, issued.fee_amount, issued.fee_pct), (2_000_000, 0, none));
    let redeemed = amm.quote(&redeem(2_000_000), Some(NOW), &read, &calc).unwrap();
    assert_eq!((redeemed.out_amount, redeemed.fee_amount, redeemed.fee_pct), (1_000_000, 0, none));
    assert_eq!(rust_decimal::Decimal::ZERO.mantissa(), none.mantissa);
    assert_eq!(rust_decimal::Decimal::ZERO.scale(), none.scale);
}

#[test]
fn other_mints_are_refused() {
    for (input_mint, output_mint) in [(ASSET, ASSET), (LP, LP), ([9; 32], LP), (ASSET, [9; 32])] {
        let params = QuoteParams { amount: 1, input_mint, output_mint };
        assert_eq!(amm().quote(&params, Some(NOW), &read, &calc), Err(VoltrAmmError::InvalidSourceMint));
    }
}

#[test]
fn equal_mints_are_redeemed() {
    let mut amm = amm();
    amm.vault_state.lp.mint = ASSET;
    let params = QuoteParams { amount: 50_000_000, input_mint: ASSET, output_mint: ASSET };
    assert_eq!(amm.quote(&params, Some(NOW), &read, &calc).unwrap().out_amount, 24_750_000);
}

#[test]
fn management_fee_dilutes() {
    let year_later = NOW + 31_536_000;
    // 2% of the assets: 20_000_000, for 20_000_000 * 2_000_000_000 / 980_000_000 LP tokens.
    let supply = 2_000_000_000 + 40_816_326;
    let quote = amm().quote(&redeem(50_000_000), Some(year_later), &read, &calc).unwrap();
    assert_eq!(quote.out_amount, share(50_000_000, 1_000_000_000, supply, 100).unwrap());
    assert_eq!(quote.out_amount, 24_255_000);
    let quote = amm().quote(&issue(1_000_000), Some(year_later), &read, &calc).unwrap();
    assert_eq!(quote.out_amount, share(1_000_000, supply, 1_000_000_000, 100).unwrap());
}

#[test]
fn management_fee_is_left_out() {
    let year_later = Some(NOW + 31_536_000);
    let plain = amm().quote(&redeem(50_000_000), Some(NOW), &read, &calc);

    let mut never_updated = amm();
    never_updated.vault_state.fee_update.last_management_fee_update_ts = 0;
    assert_eq!(never_updated.quote(&redeem(50_000_000), year_later, &read, &calc), plain);

    let mut no_fee = amm();
    no_fee.vault_state.accounting.management_fee_bps = 0;
    assert_eq!(no_fee.quote(&redeem(50_000_000), year_later, &read, &calc), plain);

    let mut updated_later = amm();
    updated_later.vault_state.fee_update.last_management_fee_update_ts = NOW + 40_000_000;
    assert_eq!(updated_later.quote(&redeem(50_000_000), year_later, &read, &calc), plain);

    let mut all_of_it = amm();
    all_of_it.vault_state.accounting.management_fee_bps = 10_000;
    assert_eq!(all_of_it.quote(&redeem(50_000_000), year_later, &read, &calc), plain);

    let mut a_second = amm();
    a_second.vault_state.accounting.management_fee_bps = 1;
    a_second.vault_state.total_asset_value = 1_000_000;
    assert_eq!(
        a_second.quote(&redeem(1_000), Some(NOW + 1), &read, &calc),
        a_second.quote(&redeem(1_000), Some(NOW), &read, &calc)
    );
}

#[test]
fn unread_clock_falls_back_to_last_update() {
    let mut amm = amm();
    amm.vault_state.last_updated_ts = NOW + 31_536_000;
    assert_eq!(
        amm.quote(&redeem(50_000_000), None, &read, &calc),
        amm.quote(&redeem(50_000_000), Some(NOW + 31_536_000), &read, &calc)
    );
    assert_eq!(amm.quote(&redeem(50_000_000), None, &read, &calc).unwrap().out_amount, 24_255_000);
}

#[test]
fn owed_fees_count_as_supply() {
    let mut amm = amm();
    amm.vault_state.accounting.owed_fees_lp = 2_000_000_000;
    let quote = amm.quote(&redeem(50_000_000), Some(NOW), &read, &calc).unwrap();
    assert_eq!(quote.out_amount, 12_375_000);
}

#[test]
fn locked_profit_is_not_redeemed() {
    let mut amm = amm();
    amm.vault_state.accounting.locked = 500_000_000;
    let quote = amm.quote(&redeem(50_000_000), Some(NOW), &read, &calc).unwrap();
    assert_eq!(quote.out_amount, 12_375_000);
}

#[test]
fn waiting_period_forbids_redeeming() {
    let mut amm = amm();
    amm.vault_state.vault_configuration.withdrawal_waiting_period = 1;
    assert_eq!(
        amm.quote(&redeem(1), Some(NOW), &read, &calc),
        Err(VoltrAmmError::WithdrawalWaitingPeriodNotZero)
    );
    assert!(amm.quote(&issue(1_000_000), Some(NOW), &read, &calc).is_ok());
}

#[test]
fn idle_balance_bounds_redeeming() {
    let mut amm = amm();
    amm.asset_idle_balance = 24_750_000;
    assert!(amm.quote(&redeem(50_000_000), Some(NOW), &read, &calc).is_ok());
    amm.asset_idle_balance = 24_749_999;
    assert_eq!(
        amm.quote(&redeem(50_000_000), Some(NOW), &read, &calc),
        Err(VoltrAmmError::InsufficientIdleBalance)
    );
}

#[test]
fn first_deposit_leaves_dead_weight() {
    let mut amm = amm();
    amm.lp_mint_supply = 0;
    amm.vault_state.total_asset_value = 0;
    amm.vault_state.dead_weight = 0;
    let quote = amm.quote(&issue(1_000_000), Some(NOW), &read, &calc).unwrap();
    assert_eq!(quote.out_amount, 1_000_000_000 - 1_000);
    assert_eq!(quote.fee_amount, 0);
    assert_eq!(quote.fee_pct, ONE_PERCENT);
    assert_eq!(amm.quote(&issue(1), Some(NOW), &read, &calc).unwrap().out_amount, 0);
    assert_eq!(amm.quote(&issue(0), Some(NOW), &read, &calc), Err(VoltrAmmError::InvalidAmount));
}

#[test]
fn missing_dead_weight_counts_toward_the_fee() {
    let mut amm = amm();
    amm.vault_state.dead_weight = 0;
    let quote = amm.quote(&issue(1_000_000), Some(NOW), &read, &calc).unwrap();
    assert_eq!((quote.out_amount, quote.fee_amount), (1_979_000, 21_000));
    assert_eq!(amm.quote(&issue(100), Some(NOW), &read, &calc), Err(VoltrAmmError::InvalidAmount));
}

#[test]
fn supply_that_does_not_fit_overflows() {
    let full = |vault: &Vault<Books>, figure: Figure| match figure {
        Figure::TotalLpSupplyInclFees { .. } => Ok(u64::MAX),
        other => read(vault, other),
    };
    let one_more = |formula: Formula| match formula {
        Formula::FeeLpToMint { .. } => Ok(1),
        other => calc(other),
    };
    assert_eq!(
        amm().quote(&redeem(1), Some(NOW + 31_536_000), &full, &one_more),
        Err(VoltrAmmError::MathOverflow)
    );
    assert_eq!(
        amm().quote(&issue(1), Some(NOW + 31_536_000), &full, &one_more),
        Err(VoltrAmmError::MathOverflow)
    );
    assert!(amm().quote(&redeem(1), Some(NOW), &full, &one_more).is_ok());
}

#[test]
fn failing_figures_and_formulas_fail_the_quote() {
    let error = VoltrAmmError::Vault("broken".to_string());
    let year_later = Some(NOW + 31_536_000);
    for broken in 0..8 {
        let failing_read = |vault: &Vault<Books>, figure: Figure| {
            let place = match figure {
                Figure::TotalLpSupplyInclFees { .. } => 0,
                Figure::TotalManagementFee => 1,
                Figure::UnlockedAssetValue { .. } => 4,
            };
            if place == broken { Err(error.clone()) } else { read(vault, figure) }
        };
        let failing_calc = |formula: Formula| {
            let place = match formula {
                Formula::ManagementFeeAmountInAsset { .. } => 2,
                Formula::FeeLpToMint { .. } => 3,
                Formula::WithdrawAssetToRedeem { redemption_fee_bps: 0, .. } => 5,
                Formula::WithdrawAssetToRedeem { .. } => 6,
                _ => 7,
            };
            if place == broken { Err(error.clone()) } else { calc(formula) }
        };
        let redeemed = amm().quote(&redeem(50_000_000), year_later, &failing_read, &failing_calc);
        let issued = amm().quote(&issue(1_000_000), year_later, &failing_read, &failing_calc);
        if broken == 7 {
            assert!(redeemed.is_ok());
        } else {
            assert_eq!(redeemed, Err(error.clone()));
        }
        if broken >= 4 && broken < 7 {
            assert!(issued.is_ok());
        } else {
            assert_eq!(issued, Err(error.clone()));
        }
    }
}

#[test]
fn figures_and_formulas_get_the_vault_and_the_amounts() {
    let read_figures = std::cell::RefCell::new(Vec::new());
    let asked = std::cell::RefCell::new(Vec::new());
    let recording_read = |vault: &Vault<Books>, figure: Figure| {
        assert_eq!(vault.asset.mint, ASSET);
        read_figures.borrow_mut().push(figure);
        read(vault, figure)
    };
    let recording_calc = |formula: Formula| {
        asked.borrow_mut().push(formula);
        calc(formula)
    };
    amm()
        .quote(&redeem(50_000_000), Some(NOW + 31_536_000), &recording_read, &recording_calc)
        .unwrap();
    assert_eq!(
        *read_figures.borrow(),
        vec![
            Figure::TotalLpSupplyInclFees { lp_mint_supply: 2_000_000_000 },
            Figure::TotalManagementFee,
            Figure::UnlockedAssetValue { current_ts: NOW + 31_536_000 },
        ]
    );
    assert_eq!(
        *asked.borrow(),
        vec![
            Formula::ManagementFeeAmountInAsset {
                time_elapsed: 31_536_000,
                total_asset_value: 1_000_000_000,
                management_fee_bps: 200,
            },
            Formula::FeeLpToMint {
                fee_amount_in_asset: 20_000_000,
                total_lp_supply_incl_fees: 2_000_000_000,
                total_asset_value: 1_000_000_000,
            },
            Formula::WithdrawAssetToRedeem {
                lp_amount: 50_000_000,
                total_lp_supply: 2_040_816_326,
                total_unlocked_asset: 1_000_000_000,
                redemption_fee_bps: 100,
            },
            Formula::WithdrawAssetToRedeem {
                lp_amount: 50_000_000,
                total_lp_supply: 2_040_816_326,
                total_unlocked_asset: 1_000_000_000,
                redemption_fee_bps: 0,
            },
        ]
    );
}

#[test]
fn waiting_period_comes_before_all_else() {
    let mut amm = amm();
    amm.asset_idle_balance = 0;
    amm.vault_state.vault_configuration.withdrawal_waiting_period = 1;
    let broken = |_vault: &Vault<Books>, _figure: Figure| Err(VoltrAmmError::MathOverflow);
    assert_eq!(
        amm.quote_redeem(&redeem(50_000_000), NOW, 1_000_000_000, 2_000_000_000, &broken, &calc),
        Err(VoltrAmmError::WithdrawalWaitingPeriodNotZero)
    );
    amm.vault_state.vault_configuration.withdrawal_waiting_period = 0;
    assert_eq!(
        amm.quote_redeem(&redeem(50_000_000), NOW, 1_000_000_000, 2_000_000_000, &broken, &calc),
        Err(VoltrAmmError::MathOverflow)
    );
    assert_eq!(
        amm.quote_redeem(&redeem(50_000_000), NOW, 1_000_000_000, 2_000_000_000, &read, &calc),
        Err(VoltrAmmError::InsufficientIdleBalance)
    );
}

#[test]
fn redemption_is_quoted_at_diluted_supply() {
    let year_later = NOW + 31_536_000;
    let amm = amm();
    let fee_lp = amm
        .estimate_management_fee_lp(year_later, 1_000_000_000, 2_000_000_000, &read, &calc)
        .unwrap();
    assert_eq!(fee_lp, 40_816_326);
    let params = redeem(50_000_000);
    // The total asset value plays no part.
    let quoted = amm.quote_redeem(&params, year_later, 7, 2_040_816_326, &read, &calc);
    assert_eq!(quoted, amm.quote(&params, Some(year_later), &read, &calc));
    assert_eq!(quoted.unwrap().out_amount, 24_255_000);
}

#[test]
fn only_elapsed_time_matters() {
    let first = amm();
    let mut later = amm();
    later.vault_state.fee_update.last_management_fee_update_ts = NOW + 500;
    for elapsed in [0, 1, 86_400, 31_536_000] {
        assert_eq!(
            first.estimate_management_fee_lp(NOW + elapsed, 1_000_000_000, 2_000_000_000, &read, &calc),
            later.estimate_management_fee_lp(NOW + 500 + elapsed, 1_000_000_000, 2_000_000_000, &read, &calc)
        );
    }
}

#[test]
fn redemption_ignores_deposit_terms() {
    let mut other = amm();
    other.vault_state.dead_weight = 0;
    other.vault_state.fee_configuration.issuance_fee = 9_999;
    assert_eq!(
        other.quote(&redeem(50_000_000), Some(NOW), &read, &calc),
        amm().quote(&redeem(50_000_000), Some(NOW), &read, &calc)
    );
}

#[test]
fn more_idle_balance_keeps_the_quote() {
    let mut other = amm();
    other.asset_idle_balance = u64::MAX;
    assert_eq!(
        other.quote(&redeem(50_000_000), Some(NOW), &read, &calc),
        amm().quote(&redeem(50_000_000), Some(NOW), &read, &calc)
    );
}

#[test]
fn unread_idle_balance_quotes_nothing() {
    let fresh = VoltrAmm::new([4; 32], vault());
    assert_eq!(
        fresh.quote_redeem(&redeem(50_000_000), NOW, 1_000_000_000, 2_000_000_000, &read, &calc),
        Err(VoltrAmmError::InsufficientIdleBalance)
    );
    let nothing = fresh.quote_redeem(&redeem(0), NOW, 1_000_000_000, 2_000_000_000, &read, &calc);
    assert_eq!(nothing.unwrap().out_amount, 0);
}

#[test]
fn own_mints_are_not_refused_for_their_mints() {
    let broken = |_formula: Formula| Err(VoltrAmmError::MathOverflow);
    for params in [issue(1), redeem(1)] {
        assert_eq!(
            amm().quote(&params, Some(NOW), &read, &broken),
            Err(VoltrAmmError::MathOverflow)
        );
    }
}

#[test]
fn copy_quotes_as_the_amm_it_was_made_from() {
    let first = loaded_amm();
    let copy = first.clone();
    for params in [issue(1_000_000), redeem(50_000_000), redeem(u64::MAX / 1_000_000_000)] {
        for time in [None, Some(NOW), Some(NOW + 31_536_000)] {
            assert_eq!(
                copy.quote(&params, time, &read, &calc),
                first.quote(&params, time, &read, &calc)
            );
        }
    }
}

#[test]
fn clone_is_equal() {
    let first = amm();
    let copy = first.clone();
    assert_eq!(format!("{:?}", copy), format!("{:?}", first));
}
