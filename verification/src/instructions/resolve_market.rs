use vstd::prelude::*;

use crate::clock::{millis, millis_fit, to_millis};
use crate::error::PumpstakeErrors;
use crate::solana::{Pubkey, lamports_per_sol};
use crate::instructions::claim_reward::{ClaimReward, claim_reward_refusal};
use crate::instructions::create_coin::{CreateCoin, create_mint_refusal};
use crate::state::PredictionMarket;

verus! {

/// The accounts that resolving a market reads and writes.
pub struct ResolveMarket {
    pub signer: Pubkey,
    pub market: PredictionMarket,
}

/// The stakes a market must gather to graduate: 10 SOL.
pub open spec fn graduation_threshold() -> int {
    10_000_000_000int
}

/// The whole effect of `resolve_winner` from `old` to `new`, with result
/// `r`: once the market has ended it becomes inactive with `option` as its
/// winner, and graduates exactly when its stakes reach the threshold.
pub open spec fn resolve_winner_post(
    old: ResolveMarket,
    option: u8,
    unix_timestamp: i64,
    new: ResolveMarket,
    r: Result<(), PumpstakeErrors>,
) -> bool {
    if !(old.market.end_time <= millis(unix_timestamp)) {
        r == Err::<(), PumpstakeErrors>(PumpstakeErrors::MarketActive) && new == old
    } else {
        &&& r == Ok::<(), PumpstakeErrors>(())
        &&& new.market == (PredictionMarket {
            graduate: Some(old.market.total_mc >= graduation_threshold()),
            is_active: false,
            winner: Some(option),
            ..old.market
        })
        &&& new.signer == old.signer
    }
}

impl ResolveMarket {
    /// Closes an ended market with `option` as its winner, and decides
    /// whether it graduates.
    pub fn resolve_winner(&mut self, option: u8, unix_timestamp: i64) -> (r: Result<(), PumpstakeErrors>)
        requires
            millis_fit(unix_timestamp),
        ensures
            resolve_winner_post(*old(self), option, unix_timestamp, *final(self), r),
    {
        let timestamp = to_millis(unix_timestamp);
        if !(self.market.end_time <= timestamp) {
            return Err(PumpstakeErrors::MarketActive);
        }
        if self.market.total_mc < 10 * lamports_per_sol() {
            self.market.graduate = Some(false);
        } else {
            // create amm and graduate to raydium
            self.market.graduate = Some(true);
        }
        self.market.is_active = false;
        self.market.winner = Some(option);
        Ok(())
    }
}

/// Resolution routes a market's payouts: once it is resolved, a market that
/// gathered the threshold pays no SOL claims, and one that did not gets no
/// token.
pub proof fn lemma_graduation_routes_payouts(
    old: ResolveMarket,
    option: u8,
    unix_timestamp: i64,
    new: ResolveMarket,
    r: Result<(), PumpstakeErrors>,
    claim: ClaimReward,
    claim_timestamp: i64,
    coin: CreateCoin,
)
    requires
        resolve_winner_post(old, option, unix_timestamp, new, r),
        r is Ok,
        claim.market == new.market,
        coin.market == new.market,
    ensures
        old.market.total_mc >= graduation_threshold() ==> claim_reward_refusal(claim, claim_timestamp) is Some,
        old.market.total_mc < graduation_threshold() ==> create_mint_refusal(coin) is Some,
{
}

} // verus!
