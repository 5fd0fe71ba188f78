use pumpstake::error::PumpstakeErrors;
use pumpstake::instructions::create_bet_amm::{InitalizeAmm, InitalizeAmmBumps};
use pumpstake::instructions::create_coin::CreateCoin;
use pumpstake::instructions::transfer_to_raydium_pool::TransferTokensToCreator;
use pumpstake::solana::Pubkey;
use pumpstake::state::{InitTokenParams, PredictionMarket, PredictionMarketParams};

fn key(b: u8) -> Pubkey {
    Pubkey::new_from_array([b; 32])
}

fn graduated_market() -> PredictionMarket {
    PredictionMarket {
        market_id: 7,
        bump: 254,
        owner: key(1),
        market_options: vec![],
        start_time: 0,
        end_time: 10,
        is_active: false,
        winner: Some(0),
        total_mc: 20_000_000_000,
        data: PredictionMarketParams {
            market_type: 0,
            ticker: "TCK".to_string(),
            name: "Name".to_string(),
            image: "https://image".to_string(),
            description: String::new(),
            twitter: String::new(),
            website: String::new(),
            telegram: String::new(),
        },
        total_tokens: 80_000_000_000_000,
        graduate: Some(true),
        claimed_winner_liquidity: 0,
        distributed_rewards: 0,
        winner_present: true,
        virtual_sol_reserve: 0,
    }
}

fn reserve_of(market: &Pubkey, mint: &Pubkey, program: &Pubkey) -> Pubkey {
    let ata = anchor_spl::associated_token::get_associated_token_address_with_program_id(
        &anchor_lang::prelude::Pubkey::new_from_array(market.to_bytes()),
        &anchor_lang::prelude::Pubkey::new_from_array(mint.to_bytes()),
        &anchor_lang::prelude::Pubkey::new_from_array(program.to_bytes()),
    );
    Pubkey::new_from_array(ata.to_bytes())
}

fn coin_accounts() -> CreateCoin {
    let market_key = key(9);
    let mint = key(8);
    let program = key(3);
    CreateCoin {
        signer: key(5),
        market_key,
        market: graduated_market(),
        mint,
        metadata: key(7),
        revenue: key(4),
        token_reserve: reserve_of(&market_key, &mint, &program),
        token_program: program,
    }
}

#[test]
fn create_coin_without_winner_is_refused() {
    let mut ctx = coin_accounts();
    ctx.market.winner_present = false;
    assert_eq!(pumpstake::pumpstake::create_coin(&mut ctx).unwrap().unwrap_err(), PumpstakeErrors::RefundOnly);
}

#[test]
fn create_coin_of_a_market_that_did_not_graduate_is_refused() {
    let mut ctx = coin_accounts();
    ctx.market.graduate = Some(false);
    assert_eq!(pumpstake::pumpstake::create_coin(&mut ctx).unwrap().unwrap_err(), PumpstakeErrors::TokenCreationNotAllowed);
}

#[test]
fn create_coin_of_an_active_market_is_refused() {
    let mut ctx = coin_accounts();
    ctx.market.is_active = true;
    assert_eq!(pumpstake::pumpstake::create_coin(&mut ctx).unwrap().unwrap_err(), PumpstakeErrors::MarketActive);
}

#[test]
fn create_coin_into_another_account_is_refused() {
    let mut ctx = coin_accounts();
    ctx.token_reserve = ctx.market_key;
    assert_eq!(pumpstake::pumpstake::create_coin(&mut ctx).unwrap().unwrap_err(), PumpstakeErrors::IncorrectAtaPassed);
}

#[test]
fn create_coin_sets_up_the_mint_and_the_supply() {
    let mut ctx = coin_accounts();
    let (setup, reserve) = pumpstake::pumpstake::create_coin(&mut ctx).unwrap().unwrap();
    assert_eq!(setup.account_len, 278);
    assert_eq!(setup.mint_authority.to_bytes(), [8; 32]);
    assert!(setup.freeze_authority.is_none());
    assert_eq!(setup.decimals, 6);
    assert_eq!(setup.transfer_fee_basis_points, 200);
    assert_eq!(setup.maximum_fee, u64::MAX);
    assert_eq!(setup.transfer_fee_config_authority.to_bytes(), [4; 32]);
    assert_eq!(setup.withdraw_withheld_authority.to_bytes(), [4; 32]);
    assert_eq!(reserve.amount, 1_000_000_000_000_000);
    assert_eq!(reserve.decimals, 6);
    assert_eq!(reserve.name, "Name");
    assert_eq!(reserve.symbol, "TCK");
    assert_eq!(reserve.uri, "https://image");
}

#[test]
fn transfer_to_creator_hands_over_everything() {
    let mut ctx = TransferTokensToCreator {
        signer: key(5),
        market_creator: key(1),
        market: graduated_market(),
        mint: key(8),
        market_vault_lamports: 20_000_890_880,
        token_reserve_amount: 940_000_000_000_000,
    };
    let data = pumpstake::pumpstake::transfer_tokens_to_creator(&mut ctx).unwrap();
    assert_eq!(data.wsol_amount, 20_000_890_880);
    assert_eq!(data.token_amount, 940_000_000_000_000);
    assert_eq!(data.mint.to_bytes(), [8; 32]);
    assert_eq!(data.market_owner.to_bytes(), [1; 32]);
    ctx.market.winner_present = false;
    assert_eq!(pumpstake::pumpstake::transfer_tokens_to_creator(&mut ctx).unwrap_err(), PumpstakeErrors::RefundOnly);
}

fn amm_accounts(decimals: u8) -> InitalizeAmm {
    InitalizeAmm { signer: key(5), market: graduated_market(), mint: key(8), mint_decimals: decimals, amm: None }
}

fn token_params(sol_cap: u64, mint_cap: u64) -> InitTokenParams {
    InitTokenParams {
        name: "Name".to_string(),
        seed: 11,
        symbol: "TCK".to_string(),
        uri: "Qm123".to_string(),
        sol_cap,
        mint_cap,
        decimals: 6,
    }
}

#[test]
fn amm_metadata_uri_is_under_the_gateway() {
    let mut ctx = amm_accounts(6);
    let bumps = InitalizeAmmBumps { mint: 1, amm: 2, sol_reserve: 3 };
    let m = ctx.create_mint(&token_params(1, 1), &bumps);
    assert_eq!(m.uri, "https://green-cheap-galliform-997.mypinata.cloud/ipfs/Qm123");
    assert_eq!(m.name, "Name");
    assert_eq!(m.symbol, "TCK");
    assert_eq!(m.seller_fee_basis_points, 0);
    assert!(!m.has_creators && !m.has_collection && !m.has_uses);
    assert!(!m.is_mutable);
    assert!(m.update_authority_is_signer);
}

#[test]
fn amm_reserve_supply_follows_the_decimals() {
    let bumps = InitalizeAmmBumps { mint: 1, amm: 2, sol_reserve: 3 };
    assert_eq!(amm_accounts(6).mint_to_reserve(&bumps), 1_000_000_000_000_000);
    assert_eq!(amm_accounts(0).mint_to_reserve(&bumps), 1_000_000_000);
    assert_eq!(amm_accounts(9).mint_to_reserve(&bumps), 1_000_000_000_000_000_000);
}

#[test]
fn amm_state_holds_the_caps_in_base_units() {
    let mut ctx = amm_accounts(6);
    let bumps = InitalizeAmmBumps { mint: 1, amm: 2, sol_reserve: 3 };
    ctx.init_amm_state(&token_params(85, 800_000_000), &bumps);
    let amm = ctx.amm.unwrap();
    assert_eq!(amm.sol_cap, 85_000_000_000);
    assert_eq!(amm.mint_cap, 800_000_000_000_000);
    assert_eq!(amm.cp_ratio, 68_000_000_000);
    assert_eq!(amm.uri, "Qm123");
    assert_eq!(amm.seed, 11);
    assert_eq!((amm.mint_bump, amm.amm_bump, amm.sol_reserve_bump), (1, 2, 3));
    assert_eq!(amm.creator.to_bytes(), [5; 32]);
}

#[test]
fn amm_ratio_is_zero_where_it_overflows() {
    let mut ctx = amm_accounts(0);
    let bumps = InitalizeAmmBumps { mint: 1, amm: 2, sol_reserve: 3 };
    ctx.init_amm_state(&token_params(10_000_000_000, 10_000_000_000), &bumps);
    assert_eq!(ctx.amm.unwrap().cp_ratio, 0);
}

#[test]
fn mint_account_length_is_that_of_spl_token_2022() {
    let len = anchor_spl::token_2022::spl_token_2022::extension::ExtensionType::try_calculate_account_len::<anchor_spl::token_2022::spl_token_2022::state::Mint>(&[
        anchor_spl::token_2022::spl_token_2022::extension::ExtensionType::TransferFeeConfig,
    ])
    .unwrap();
    assert_eq!(len, 278);
}
