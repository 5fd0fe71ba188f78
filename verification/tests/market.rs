use pumpstake::error::PumpstakeErrors;
use pumpstake::instructions::claim_reward::ClaimReward;
use pumpstake::instructions::claim_token_reward::{ClaimTokenReward, ClaimTokensReceipt};
use pumpstake::instructions::create_prediction_market::{
    CreatePredictionMarket, CreatePredictionMarketBumps,
};
use pumpstake::instructions::refund::Refund;
use pumpstake::instructions::resolve_market::ResolveMarket;
use pumpstake::instructions::stake::{revenue_wallet, Stake};
use pumpstake::solana::Pubkey;
use pumpstake::state::{Bet, BettingOption, PredictionMarket, PredictionMarketParams};

const REVENUE_BYTES: [u8; 32] = [
    234, 86, 108, 134, 74, 148, 235, 58, 241, 51, 145, 65, 104, 99, 219, 235, 61, 136, 143, 92, 74,
    199, 92, 250, 205, 157, 113, 36, 55, 99, 202, 29,
];

fn key(b: u8) -> Pubkey {
    Pubkey::new_from_array([b; 32])
}

fn params() -> PredictionMarketParams {
    PredictionMarketParams {
        market_type: 1,
        ticker: "WIN".to_string(),
        name: "Who wins".to_string(),
        image: "img".to_string(),
        description: "a market".to_string(),
        twitter: String::new(),
        website: String::new(),
        telegram: String::new(),
    }
}

fn option(id: u8, liquidity: u64) -> BettingOption {
    BettingOption {
        option_id: id,
        name: format!("option {}", id),
        image: String::new(),
        description: String::new(),
        liquidity,
    }
}

fn market(options: Vec<BettingOption>, total_mc: u64) -> PredictionMarket {
    PredictionMarket {
        market_id: 7,
        bump: 254,
        owner: key(1),
        market_options: options,
        start_time: 1_000_000,
        end_time: 2_000_000,
        is_active: true,
        winner: None,
        total_mc,
        data: params(),
        total_tokens: 1_000_000_000_000_000,
        graduate: None,
        claimed_winner_liquidity: 0,
        distributed_rewards: 0,
        winner_present: false,
        virtual_sol_reserve: 25_000_000_000,
    }
}

/// A market that ended without graduating, option 0 winning.
fn settled_market() -> PredictionMarket {
    let mut m = market(vec![option(0, 600), option(1, 400)], 1000);
    m.is_active = false;
    m.winner = Some(0);
    m.graduate = Some(false);
    m.winner_present = true;
    m
}

fn bet(owner: Pubkey, option: u8, amount: u64) -> Bet {
    Bet {
        bet_id: 3,
        market_id: 7,
        placed_at: 1_500,
        bettor: owner,
        amount,
        option,
        market: key(9),
        claimed: false,
    }
}

fn stake_accounts(m: PredictionMarket) -> Stake {
    Stake { signer: key(5), market_key: key(9), market: m, bet: None, revenue: Pubkey::new_from_array(REVENUE_BYTES) }
}

// seconds that are after the end (2_000_000 ms) once counted in milliseconds
const AFTER_END: i64 = 2_000;

#[test]
fn revenue_wallet_decodes_to_its_key() {
    let k = revenue_wallet().unwrap();
    assert_eq!(k.to_bytes(), REVENUE_BYTES);
}

#[test]
fn error_messages() {
    assert_eq!(PumpstakeErrors::MarketExpired.message(), "Market already expired. Cannot place bet");
    assert_eq!(PumpstakeErrors::RefundOnly.message(), "Cannot proceed. Please refund all the amounts");
    assert_eq!(PumpstakeErrors::IncorrectAtaPassed.message(), "Incorrect ATA passed while creating coin");
}

#[test]
fn create_market_with_too_many_options_is_refused() {
    let mut ctx = CreatePredictionMarket { signer: key(1), market: None };
    let bumps = CreatePredictionMarketBumps { market: 250, market_vault: 251 };
    let r = pumpstake::pumpstake::create_prediction_market(&mut ctx, &bumps, 7, 11, 60_000, params(), vec![], 1_700_000_000);
    assert_eq!(r, Err(PumpstakeErrors::MaxOptionsExceeded));
    assert!(ctx.market.is_none());
}

#[test]
fn create_market_starts_now_in_milliseconds() {
    let mut ctx = CreatePredictionMarket { signer: key(1), market: None };
    let bumps = CreatePredictionMarketBumps { market: 250, market_vault: 251 };
    let r = pumpstake::pumpstake::create_prediction_market(
        &mut ctx,
        &bumps,
        7,
        2,
        60_000,
        params(),
        vec![option(0, 0), option(1, 0)],
        1_700_000_000,
    );
    assert_eq!(r, Ok(()));
    let m = ctx.market.unwrap();
    assert_eq!(m.market_id, 7);
    assert_eq!(m.bump, 250);
    assert_eq!(m.owner.to_bytes(), [1; 32]);
    assert_eq!(m.start_time, 1_700_000_000_000);
    assert_eq!(m.end_time, 1_700_000_060_000);
    assert!(m.is_active);
    assert_eq!(m.total_mc, 0);
    assert_eq!(m.total_tokens, 80_000_000_000_000);
    assert_eq!(m.virtual_sol_reserve, 312_500_000_000);
    assert_eq!(m.winner, None);
    assert_eq!(m.graduate, None);
    assert!(!m.winner_present);
    assert_eq!(m.market_options.len(), 2);
}

#[test]
fn stake_with_wrong_revenue_wallet_is_refused() {
    let mut ctx = stake_accounts(market(vec![option(0, 0)], 0));
    ctx.revenue = key(4);
    let r = pumpstake::pumpstake::stake(&mut ctx, 3, 0, 1000, 1_500).unwrap();
    assert_eq!(r.unwrap_err(), PumpstakeErrors::IncorrectRevenueWallet);
    assert!(ctx.bet.is_none());
}

#[test]
fn stake_after_the_end_is_refused() {
    let mut ctx = stake_accounts(market(vec![option(0, 0)], 0));
    let r = pumpstake::pumpstake::stake(&mut ctx, 3, 0, 1000, 2_000_000).unwrap();
    assert_eq!(r.unwrap_err(), PumpstakeErrors::MarketExpired);
    assert!(ctx.bet.is_none());
}

#[test]
fn stake_at_the_end_in_milliseconds_is_refused() {
    // end_time is 2_000_000 ms; 1_999 s is before it, 2_000 s is not
    let mut ctx = stake_accounts(market(vec![option(0, 0)], 0));
    let r = pumpstake::pumpstake::stake(&mut ctx, 3, 0, 1000, 2_000).unwrap();
    assert_eq!(r.unwrap_err(), PumpstakeErrors::MarketExpired);
    let r = pumpstake::pumpstake::stake(&mut ctx, 3, 0, 1000, 1_999).unwrap();
    assert!(r.is_ok());
}

#[test]
fn stake_takes_two_percent_and_books_the_rest() {
    let mut ctx = stake_accounts(market(vec![option(0, 100), option(1, 50), option(1, 7)], 157));
    let receipt = pumpstake::pumpstake::stake(&mut ctx, 3, 1, 1000, 1_500).unwrap().unwrap();
    assert_eq!(receipt.revenue_amount, 20);
    assert_eq!(receipt.vault_amount, 980);
    assert_eq!(receipt.event.amount, 980);
    assert_eq!(receipt.event.option, 1);
    assert_eq!(receipt.event.bet_id, 3);
    assert_eq!(receipt.event.placed_at, 1_500);
    assert!(!receipt.event.claimed);
    // the first option with the id gets the stake
    assert_eq!(ctx.market.market_options[1].liquidity, 1030);
    assert_eq!(ctx.market.market_options[2].liquidity, 7);
    assert_eq!(ctx.market.total_mc, 1137);
    let b = ctx.bet.unwrap();
    assert_eq!(b.amount, 980);
    assert_eq!(b.bettor.to_bytes(), [5; 32]);
    assert_eq!(b.market.to_bytes(), [9; 32]);
    assert_eq!(b.market_id, 7);
    assert!(!b.claimed);
}

#[test]
fn stakes_keep_the_total_equal_to_the_options() {
    let mut ctx = stake_accounts(market(vec![option(0, 0), option(1, 0)], 0));
    for (i, amount) in [(0u8, 1_000u64), (1, 333), (0, 49), (1, 1_000_000)] {
        let r = pumpstake::pumpstake::stake(&mut ctx, 1, i, amount, 1_500).unwrap().unwrap();
        assert_eq!(r.vault_amount + r.revenue_amount, amount);
        let sum: u64 = ctx.market.market_options.iter().map(|o| o.liquidity).sum();
        assert_eq!(sum, ctx.market.total_mc);
    }
}

#[test]
fn resolve_before_the_end_is_refused() {
    let mut ctx = ResolveMarket { signer: key(1), market: market(vec![], 0) };
    assert_eq!(pumpstake::pumpstake::resolve_market(&mut ctx, 0, 1_999), Err(PumpstakeErrors::MarketActive));
    assert!(ctx.market.is_active);
}

#[test]
fn resolve_below_ten_sol_does_not_graduate() {
    let mut ctx = ResolveMarket { signer: key(1), market: market(vec![], 9_999_999_999) };
    assert_eq!(pumpstake::pumpstake::resolve_market(&mut ctx, 1, AFTER_END), Ok(()));
    assert_eq!(ctx.market.graduate, Some(false));
    assert_eq!(ctx.market.winner, Some(1));
    assert!(!ctx.market.is_active);
    assert!(!ctx.market.winner_present);
}

#[test]
fn resolve_at_ten_sol_graduates() {
    let mut ctx = ResolveMarket { signer: key(1), market: market(vec![], 10_000_000_000) };
    assert_eq!(pumpstake::pumpstake::resolve_market(&mut ctx, 0, AFTER_END), Ok(()));
    assert_eq!(ctx.market.graduate, Some(true));
}

#[test]
fn refund_checks() {
    let mut m = market(vec![], 0);
    m.winner_present = true;
    let mut ctx = Refund { signer: key(5), market: m, bet: bet(key(5), 0, 100), reciever: key(5) };
    assert_eq!(pumpstake::pumpstake::refund(&mut ctx, AFTER_END), Err(PumpstakeErrors::CannotRefund));
    ctx.market.winner_present = false;
    assert_eq!(pumpstake::pumpstake::refund(&mut ctx, 1_000), Err(PumpstakeErrors::MarketActive));
    assert_eq!(pumpstake::pumpstake::refund(&mut ctx, AFTER_END), Err(PumpstakeErrors::MarketActive));
    ctx.market.is_active = false;
    ctx.reciever = key(6);
    assert_eq!(pumpstake::pumpstake::refund(&mut ctx, AFTER_END), Err(PumpstakeErrors::IncorrectReceivor));
    assert!(!ctx.bet.claimed);
}

#[test]
fn refund_returns_the_whole_stake() {
    let mut m = market(vec![], 0);
    m.is_active = false;
    let mut ctx = Refund { signer: key(5), market: m, bet: bet(key(5), 0, 100), reciever: key(5) };
    assert_eq!(pumpstake::pumpstake::refund(&mut ctx, AFTER_END), Ok(100));
    assert!(ctx.bet.claimed);
}

#[test]
fn claim_without_winner_is_refused() {
    let mut m = settled_market();
    m.winner_present = false;
    let mut ctx = ClaimReward { signer: key(5), market: m, bet: bet(key(5), 0, 300), reciever: key(5) };
    assert_eq!(pumpstake::pumpstake::claim(&mut ctx, AFTER_END), Err(PumpstakeErrors::RefundOnly));
}

#[test]
fn claim_checks() {
    let mut ctx = ClaimReward { signer: key(5), market: settled_market(), bet: bet(key(5), 0, 300), reciever: key(5) };
    assert_eq!(pumpstake::pumpstake::claim(&mut ctx, 1_000), Err(PumpstakeErrors::MarketActive));
    ctx.market.is_active = true;
    assert_eq!(pumpstake::pumpstake::claim(&mut ctx, AFTER_END), Err(PumpstakeErrors::MarketActive));
    ctx.market.is_active = false;
    ctx.reciever = key(6);
    assert_eq!(pumpstake::pumpstake::claim(&mut ctx, AFTER_END), Err(PumpstakeErrors::IncorrectReceivor));
    ctx.reciever = key(5);
    ctx.market.graduate = Some(true);
    assert_eq!(pumpstake::pumpstake::claim(&mut ctx, AFTER_END), Err(PumpstakeErrors::SufficientLiquidityToGraduate));
    ctx.bet.claimed = true;
    assert_eq!(pumpstake::pumpstake::claim(&mut ctx, AFTER_END), Err(PumpstakeErrors::RewardAlreadyClaimed));
}

#[test]
fn winner_claim_gets_stake_and_share_once() {
    // losers staked 400: the pool is 200; this bet holds half the winning stakes
    let mut ctx = ClaimReward { signer: key(5), market: settled_market(), bet: bet(key(5), 0, 300), reciever: key(5) };
    assert_eq!(pumpstake::pumpstake::claim(&mut ctx, AFTER_END), Ok(400));
    assert_eq!(ctx.market.claimed_winner_liquidity, 300);
    assert_eq!(ctx.market.distributed_rewards, 100);
    assert!(ctx.bet.claimed);
    assert_eq!(pumpstake::pumpstake::claim(&mut ctx, AFTER_END), Err(PumpstakeErrors::RewardAlreadyClaimed));
    assert_eq!(ctx.market.distributed_rewards, 100);
}

#[test]
fn winners_together_get_no_more_than_the_pool() {
    let mut m = settled_market();
    let mut paid = 0u64;
    for amount in [100u64, 200, 299, 1] {
        let mut ctx = ClaimReward { signer: key(5), market: m, bet: bet(key(5), 0, amount), reciever: key(5) };
        let payout = pumpstake::pumpstake::claim(&mut ctx, AFTER_END).unwrap();
        paid += payout - amount;
        m = ctx.market;
        assert!(m.distributed_rewards <= 200);
        assert!(m.claimed_winner_liquidity <= 600);
    }
    assert_eq!(paid, m.distributed_rewards);
    assert!(paid <= 200);
}

#[test]
fn loser_claim_gets_half_the_stake() {
    let mut ctx = ClaimReward { signer: key(5), market: settled_market(), bet: bet(key(5), 1, 101), reciever: key(5) };
    assert_eq!(pumpstake::pumpstake::claim(&mut ctx, AFTER_END), Ok(50));
    assert_eq!(ctx.market.distributed_rewards, 0);
    assert_eq!(ctx.market.claimed_winner_liquidity, 0);
    assert!(ctx.bet.claimed);
}

fn token_claim(b: Bet) -> ClaimTokenReward {
    let mut m = settled_market();
    m.graduate = Some(true);
    ClaimTokenReward { signer: key(5), market_creator: key(1), market: m, bet: b, receiver: key(5), mint: key(8) }
}

#[test]
fn token_claim_checks() {
    let mut ctx = token_claim(bet(key(5), 0, 300));
    ctx.market.winner_present = false;
    assert_eq!(pumpstake::pumpstake::claim2(&mut ctx), Err(PumpstakeErrors::RefundOnly));
    ctx.market.winner_present = true;
    ctx.market.winner = None;
    assert_eq!(pumpstake::pumpstake::claim2(&mut ctx), Err(PumpstakeErrors::MarketActive));
    ctx.market.winner = Some(0);
    ctx.bet.claimed = true;
    assert_eq!(pumpstake::pumpstake::claim2(&mut ctx), Err(PumpstakeErrors::RewardAlreadyClaimed));
    ctx.bet.claimed = false;
    ctx.receiver = key(6);
    assert_eq!(pumpstake::pumpstake::claim2(&mut ctx), Err(PumpstakeErrors::IncorrectReceivor));
    assert_eq!(ctx.market.distributed_rewards, 0);
    assert!(!ctx.bet.claimed);
}

#[test]
fn winner_token_claim() {
    let mut ctx = token_claim(bet(key(5), 0, 300));
    let r = pumpstake::pumpstake::claim2(&mut ctx).unwrap();
    assert_eq!(r, ClaimTokensReceipt { sol_reward: Some(100), sol_refund: 0, tokens: 12_000_000 });
    assert_eq!(ctx.market.total_tokens, 1_000_000_000_000_000 - 12_000_000);
    assert_eq!(ctx.market.virtual_sol_reserve, 25_000_000_300);
    assert_eq!(ctx.market.claimed_winner_liquidity, 300);
    assert_eq!(ctx.market.distributed_rewards, 100);
    assert_eq!(ctx.market.market_options[0].liquidity, 600);
    assert!(ctx.bet.claimed);
    assert_eq!(pumpstake::pumpstake::claim2(&mut ctx), Err(PumpstakeErrors::RewardAlreadyClaimed));
}

#[test]
fn loser_token_claim() {
    let mut ctx = token_claim(bet(key(5), 1, 100));
    let r = pumpstake::pumpstake::claim2(&mut ctx).unwrap();
    assert_eq!(r, ClaimTokensReceipt { sol_reward: None, sol_refund: 0, tokens: 1_000_000 });
    assert_eq!(ctx.market.total_tokens, 1_000_000_000_000_000 - 1_000_000);
    assert_eq!(ctx.market.virtual_sol_reserve, 25_000_000_050);
    assert_eq!(ctx.market.market_options[1].liquidity, 300);
    assert_eq!(ctx.market.distributed_rewards, 0);
    assert!(ctx.bet.claimed);
}

#[test]
fn capped_token_claim_refunds_sol() {
    let mut m = market(vec![option(0, 1_000_000_000), option(1, 0)], 1_000_000_000);
    m.is_active = false;
    m.winner = Some(0);
    m.graduate = Some(true);
    m.winner_present = true;
    let mut ctx = ClaimTokenReward {
        signer: key(5),
        market_creator: key(1),
        market: m,
        bet: bet(key(5), 0, 1_000_000_000),
        receiver: key(5),
        mint: key(8),
    };
    let r = pumpstake::pumpstake::claim2(&mut ctx).unwrap();
    assert_eq!(r, ClaimTokensReceipt { sol_reward: Some(0), sol_refund: 226_804_124, tokens: 30_000_000_000_000 });
    assert_eq!(ctx.market.virtual_sol_reserve, 25_000_000_000 + 1_000_000_000 - 226_804_124);
    assert_eq!(ctx.market.total_tokens, 1_000_000_000_000_000 - 30_000_000_000_000);
}

#[test]
fn sol_claims_pay_out_at_most_the_stakes() {
    // winners 0 hold 600, losers 1 hold 400; every bet is claimed
    let mut m = settled_market();
    let mut paid = 0u64;
    for (option, amount) in [(1u8, 399u64), (0, 100), (0, 500), (1, 1)] {
        let mut ctx = ClaimReward { signer: key(5), market: m, bet: bet(key(5), option, amount), reciever: key(5) };
        paid += pumpstake::pumpstake::claim(&mut ctx, AFTER_END).unwrap();
        m = ctx.market;
    }
    assert!(paid <= 1000);
    assert_eq!(paid, 199 + (100 + 33) + (500 + 167));
}

#[test]
fn losing_token_claims_leave_the_reward_pool_alone() {
    let mut ctx = token_claim(bet(key(5), 1, 100));
    pumpstake::pumpstake::claim2(&mut ctx).unwrap();
    assert_eq!(ctx.market.market_options[0].liquidity, 600);
    assert_eq!(ctx.market.total_mc, 1000);
    assert_eq!(ctx.market.distributed_rewards, 0);
}
