//! The program's entry points, one per instruction.
use vstd::prelude::*;

use crate::error::PumpstakeErrors;
use crate::events::TokenDataForRaydium;
use crate::instructions::claim_reward::{ClaimReward, claim_reward_defined, claim_reward_post};
use crate::instructions::claim_token_reward::{
    ClaimTokenReward, ClaimTokensReceipt, claim_tokens_defined, claim_tokens_post,
};
use crate::instructions::create_coin::{
    CreateCoin, MintSetup, ReserveMint, create_mint_refusal, mint_setup, mint_to_reserve_refusal,
    reserve_mint_matches, reserve_underivable,
};
use crate::instructions::create_prediction_market::{
    CreatePredictionMarket, CreatePredictionMarketBumps, create_market_fits, new_market,
};
use crate::instructions::refund::{Refund, refund_post};
use crate::instructions::resolve_market::{ResolveMarket, resolve_winner_post};
use crate::instructions::stake::{
    Stake, StakeReceipt, place_bet_post, revenue_wallet, revenue_wallet_key, stake_fits,
};
use crate::instructions::transfer_to_raydium_pool::{TransferTokensToCreator, raydium_data};
use crate::clock::millis;
use crate::clock::millis_fit;
use crate::state::{BettingOption, MAX_OPTIONS, PredictionMarketParams};

verus! {

/// Opens a prediction market; see `CreatePredictionMarket::create_prediction_market`.
pub fn create_prediction_market(
    ctx: &mut CreatePredictionMarket,
    bumps: &CreatePredictionMarketBumps,
    seed: u64,
    total_options: u8,
    duration: i64,
    details: PredictionMarketParams,
    option_details: Vec<BettingOption>,
    unix_timestamp: i64,
) -> (r: Result<(), PumpstakeErrors>)
    requires
        total_options <= MAX_OPTIONS ==> create_market_fits(duration, unix_timestamp),
    ensures
        total_options > MAX_OPTIONS ==> r == Err::<(), PumpstakeErrors>(PumpstakeErrors::MaxOptionsExceeded)
            && *final(ctx) == *old(ctx),
        total_options <= MAX_OPTIONS ==> {
            &&& r == Ok::<(), PumpstakeErrors>(())
            &&& final(ctx).market == Some(
                new_market(
                    seed,
                    bumps.market,
                    old(ctx).signer,
                    option_details,
                    millis(unix_timestamp),
                    millis(unix_timestamp) + duration,
                    details,
                ),
            )
            &&& final(ctx).signer == old(ctx).signer
        },
{
    ctx.create_prediction_market(seed, total_options, duration, details, option_details, bumps, unix_timestamp)
}

/// Places a stake; see `Stake::place_bet`. `None` where the revenue wallet's
/// address does not decode, and then nothing changes. The clock's
/// milliseconds must fit in an `i64`, and a stake before the market's end
/// must fit (`stake_fits`), whichever wallet is passed.
pub fn stake(ctx: &mut Stake, bet_id: u64, option: u8, amount: u64, unix_timestamp: i64) -> (r: Option<
    Result<StakeReceipt, PumpstakeErrors>,
>)
    requires
        millis_fit(unix_timestamp),
        millis(unix_timestamp) < old(ctx).market.end_time ==> stake_fits(old(ctx).market, option, amount),
    ensures
        r is None <==> revenue_wallet_key() is None,
        r is None ==> *final(ctx) == *old(ctx),
        r matches Some(res) ==> place_bet_post(*old(ctx), bet_id, option, amount, unix_timestamp, *final(ctx), res),
{
    match revenue_wallet() {
        None => None,
        Some(_) => Some(ctx.place_bet(bet_id, option, amount, unix_timestamp)),
    }
}

/// Resolves an ended market; see `ResolveMarket::resolve_winner`.
pub fn resolve_market(ctx: &mut ResolveMarket, option: u8, unix_timestamp: i64) -> (r: Result<(), PumpstakeErrors>)
    requires
        millis_fit(unix_timestamp),
    ensures
        resolve_winner_post(*old(ctx), option, unix_timestamp, *final(ctx), r),
{
    ctx.resolve_winner(option, unix_timestamp)
}

/// Creates a graduated market's token: refused with `RefundOnly` while the
/// market has no winner; then `CreateCoin::create_mint` and
/// `CreateCoin::mint_to_reserve`, the first refusal being returned. `None`
/// where the checks pass but the reserve's address cannot be derived.
pub fn create_coin(ctx: &mut CreateCoin) -> (r: Option<Result<(MintSetup, ReserveMint), PumpstakeErrors>>)
    requires
        old(ctx).market.winner_present ==> old(ctx).market.graduate is Some,
    ensures
        *final(ctx) == *old(ctx),
        !old(ctx).market.winner_present ==> r is Some && r->Some_0 is Err && r->Some_0->Err_0
            == PumpstakeErrors::RefundOnly,
        old(ctx).market.winner_present ==> match create_mint_refusal(*old(ctx)) {
            Some(e) => r is Some && r->Some_0 is Err && r->Some_0->Err_0 == e,
            None => if reserve_underivable(*old(ctx)) {
                r is None
            } else {
                &&& r is Some
                &&& match mint_to_reserve_refusal(*old(ctx)) {
                    Some(e) => r->Some_0 is Err && r->Some_0->Err_0 == e,
                    None => r->Some_0 is Ok && r->Some_0->Ok_0.0 == mint_setup(*old(ctx))
                        && reserve_mint_matches(*old(ctx), r->Some_0->Ok_0.1),
                }
            },
        },
{
    if !ctx.market.winner_present {
        return Some(Err(PumpstakeErrors::RefundOnly));
    }
    let setup = match ctx.create_mint() {
        Ok(setup) => setup,
        Err(e) => {
            return Some(Err(e));
        },
    };
    let reserve = match ctx.mint_to_reserve() {
        None => {
            return None;
        },
        Some(Ok(reserve)) => reserve,
        Some(Err(e)) => {
            return Some(Err(e));
        },
    };
    Some(Ok((setup, reserve)))
}

/// Claims a bet of a market that did not graduate: refused with
/// `RefundOnly` while the market has no winner; then `ClaimReward::claim_reward`.
pub fn claim(ctx: &mut ClaimReward, unix_timestamp: i64) -> (r: Result<u64, PumpstakeErrors>)
    requires
        old(ctx).market.winner_present ==> claim_reward_defined(*old(ctx), unix_timestamp),
    ensures
        !old(ctx).market.winner_present ==> r == Err::<u64, PumpstakeErrors>(PumpstakeErrors::RefundOnly)
            && *final(ctx) == *old(ctx),
        old(ctx).market.winner_present ==> claim_reward_post(*old(ctx), unix_timestamp, *final(ctx), r),
{
    if !ctx.market.winner_present {
        return Err(PumpstakeErrors::RefundOnly);
    }
    ctx.claim_reward(unix_timestamp)
}

/// Claims a bet of a graduated market in tokens: refused with `RefundOnly`
/// while the market has no winner; then `ClaimTokenReward::claim_tokens`.
pub fn claim2(ctx: &mut ClaimTokenReward) -> (r: Result<ClaimTokensReceipt, PumpstakeErrors>)
    requires
        old(ctx).market.winner_present ==> claim_tokens_defined(*old(ctx)),
    ensures
        !old(ctx).market.winner_present ==> r == Err::<ClaimTokensReceipt, PumpstakeErrors>(
            PumpstakeErrors::RefundOnly,
        ) && *final(ctx) == *old(ctx),
        old(ctx).market.winner_present ==> claim_tokens_post(*old(ctx), *final(ctx), r),
{
    if !ctx.market.winner_present {
        return Err(PumpstakeErrors::RefundOnly);
    }
    ctx.claim_tokens()
}

/// Refunds a bet; see `Refund::refund`.
pub fn refund(ctx: &mut Refund, unix_timestamp: i64) -> (r: Result<u64, PumpstakeErrors>)
    requires
        !old(ctx).market.winner_present ==> millis_fit(unix_timestamp),
    ensures
        refund_post(*old(ctx), unix_timestamp, *final(ctx), r),
{
    ctx.refund(unix_timestamp)
}

/// Hands a graduated market's SOL and tokens to its creator: refused with
/// `RefundOnly` while the market has no winner; then
/// `TransferTokensToCreator::transfer_tokens_to_creator_ata`.
pub fn transfer_tokens_to_creator(ctx: &mut TransferTokensToCreator) -> (r: Result<TokenDataForRaydium, PumpstakeErrors>)
    ensures
        *final(ctx) == *old(ctx),
        !old(ctx).market.winner_present ==> r == Err::<TokenDataForRaydium, PumpstakeErrors>(
            PumpstakeErrors::RefundOnly,
        ),
        old(ctx).market.winner_present ==> r == Ok::<TokenDataForRaydium, PumpstakeErrors>(
            raydium_data(*old(ctx)),
        ),
{
    if !ctx.market.winner_present {
        return Err(PumpstakeErrors::RefundOnly);
    }
    Ok(ctx.transfer_tokens_to_creator_ata())
}

} // verus!
