//! How the losing side's stakes are shared among the winners.
use vstd::prelude::*;
use vstd::arithmetic::div_mod::{lemma_div_is_ordered, lemma_fundamental_div_mod};
use vstd::arithmetic::mul::{lemma_mul_inequality, lemma_mul_is_commutative};

use crate::state::{PredictionMarket, find_option, has_option, option_liquidity};

verus! {

/// The fixed-point scale of a winner's share of the remaining winning stakes.
pub const RATIO_SCALE: u128 = 1_000_000;

/// The stakes on the winning option.
pub open spec fn winner_liquidity(market: PredictionMarket) -> int {
    option_liquidity(market.market_options@, market.winner->0) as int
}

/// Half of the stakes on the losing options: what the winners share.
pub open spec fn reward_pool(market: PredictionMarket) -> int {
    (market.total_mc - winner_liquidity(market)) / 2
}

/// The winning stakes that have not been claimed yet.
pub open spec fn remaining_winner_liquidity(market: PredictionMarket) -> int {
    winner_liquidity(market) - market.claimed_winner_liquidity
}

/// The part of the reward pool that has not been paid yet.
pub open spec fn remaining_reward_pool(market: PredictionMarket) -> int {
    reward_pool(market) - market.distributed_rewards
}

/// A winning stake's share of the remaining winning stakes, scaled by `RATIO_SCALE`.
pub open spec fn reward_ratio(market: PredictionMarket, amount: u64) -> int {
    (amount * RATIO_SCALE) / remaining_winner_liquidity(market)
}

/// The reward a winning stake of `amount` is owed: its share of the
/// remaining reward pool.
pub open spec fn reward_share(market: PredictionMarket, amount: u64) -> int {
    (remaining_reward_pool(market) * reward_ratio(market, amount)) / (RATIO_SCALE as int)
}

/// The reward of a winning stake can be computed without a panic: the winning
/// option exists, no subtraction goes below zero, no division is by zero and
/// no product overflows.
pub open spec fn reward_computable(market: PredictionMarket, amount: u64) -> bool {
    &&& market.winner is Some
    &&& has_option(market.market_options@, market.winner->0)
    &&& winner_liquidity(market) <= market.total_mc
    &&& market.claimed_winner_liquidity <= winner_liquidity(market)
    &&& market.distributed_rewards <= reward_pool(market)
    &&& remaining_winner_liquidity(market) > 0
    &&& remaining_reward_pool(market) * reward_ratio(market, amount) <= u128::MAX
}

/// Computes `reward_share` of a winning stake.
pub(crate) fn compute_reward_share(market: &PredictionMarket, amount: u64) -> (r: u128)
    requires
        reward_computable(*market, amount),
    ensures
        r == reward_share(*market, amount),
{
    let winner = market.winner.unwrap();
    let index = find_option(&market.market_options, winner).unwrap();
    let total_winner_liquidity = market.market_options[index].liquidity;
    let loser_liquidity = market.total_mc - total_winner_liquidity;
    let reward_pool = loser_liquidity / 2;
    let remaining_winner_liquidity = total_winner_liquidity - market.claimed_winner_liquidity;
    let remaining_reward_pool = reward_pool - market.distributed_rewards;
    proof {
        assert(0 <= amount * RATIO_SCALE <= u64::MAX * RATIO_SCALE) by (nonlinear_arith);
    }
    let ratio = amount as u128 * 1_000_000 / remaining_winner_liquidity as u128;
    let reward_share = remaining_reward_pool as u128 * ratio / 1_000_000;
    reward_share
}

/// Whether the reward of a winning stake of `amount` is computable.
pub fn check_reward_computable(market: &PredictionMarket, amount: u64) -> (r: bool)
    ensures
        r == reward_computable(*market, amount),
{
    let winner = match market.winner {
        None => {
            return false;
        },
        Some(w) => w,
    };
    let index = match find_option(&market.market_options, winner) {
        None => {
            return false;
        },
        Some(i) => i,
    };
    let total_winner_liquidity = market.market_options[index].liquidity;
    if total_winner_liquidity > market.total_mc {
        return false;
    }
    if market.claimed_winner_liquidity > total_winner_liquidity {
        return false;
    }
    let reward_pool = (market.total_mc - total_winner_liquidity) / 2;
    if market.distributed_rewards > reward_pool {
        return false;
    }
    let remaining_winner_liquidity = total_winner_liquidity - market.claimed_winner_liquidity;
    if remaining_winner_liquidity == 0 {
        return false;
    }
    let remaining_reward_pool = reward_pool - market.distributed_rewards;
    proof {
        assert(0 <= amount * RATIO_SCALE <= u64::MAX * RATIO_SCALE) by (nonlinear_arith);
    }
    let ratio = amount as u128 * 1_000_000 / remaining_winner_liquidity as u128;
    (remaining_reward_pool as u128).checked_mul(ratio).is_some()
}

/// Winners are never paid beyond the reward pool: a winning stake no larger
/// than the unclaimed winning stakes is owed at most the unpaid reward pool,
/// so after it is paid the rewards paid still do not exceed the pool and the
/// winning stakes claimed do not exceed those placed.
pub proof fn lemma_reward_share_within_pool(market: PredictionMarket, amount: u64)
    requires
        reward_computable(market, amount),
        amount <= remaining_winner_liquidity(market),
    ensures
        0 <= reward_share(market, amount) <= remaining_reward_pool(market),
        market.distributed_rewards + reward_share(market, amount) <= reward_pool(market),
        market.claimed_winner_liquidity + amount <= winner_liquidity(market),
{
    let r = remaining_winner_liquidity(market);
    let p = remaining_reward_pool(market);
    let scale = RATIO_SCALE as int;
    assert(amount * scale <= r * scale) by (nonlinear_arith)
        requires
            amount <= r,
            scale > 0,
    ;
    assert(0 <= amount * scale) by (nonlinear_arith)
        requires
            amount >= 0,
            scale > 0,
    ;
    lemma_div_is_ordered(amount * scale, r * scale, r);
    assert((r * scale) / r == scale) by (nonlinear_arith)
        requires
            r > 0,
    ;
    let ratio = reward_ratio(market, amount);
    assert(0 <= ratio <= scale);
    lemma_mul_inequality(ratio, scale, p);
    lemma_mul_is_commutative(ratio, p);
    lemma_mul_is_commutative(scale, p);
    assert(0 <= p * ratio) by (nonlinear_arith)
        requires
            p >= 0,
            ratio >= 0,
    ;
    lemma_div_is_ordered(p * ratio, p * scale, scale);
    assert((p * scale) / scale == p) by (nonlinear_arith)
        requires
            scale > 0,
    ;
    assert(0 <= (p * ratio) / scale) by (nonlinear_arith)
        requires
            p * ratio >= 0,
            scale > 0,
    ;
}

/// A winning stake is rewarded in proportion to its part of the unclaimed
/// winning stakes: with `W` the winning option's liquidity, `R` the unpaid
/// half of the losing stakes and `U` the unclaimed winning stakes, a stake
/// `a` gets a reward `s` with `s * U <= R * a` (never more than its share
/// of what is left), and misses its exact share only by the rounding of the
/// fixed-point ratio: `R * (a * 1_000_000 - U) < 1_000_000 * U * (s + 1)`;
/// exactly, `s == R * (a * 1_000_000 / U) / 1_000_000`.
pub proof fn lemma_reward_is_proportional(market: PredictionMarket, amount: u64)
    requires
        market.winner is Some,
        has_option(market.market_options@, market.winner->0),
        option_liquidity(market.market_options@, market.winner->0) <= market.total_mc,
        market.claimed_winner_liquidity < option_liquidity(market.market_options@, market.winner->0),
        market.distributed_rewards <= (market.total_mc - option_liquidity(market.market_options@, market.winner->0)) / 2,
    ensures
        ({
            let w = option_liquidity(market.market_options@, market.winner->0) as int;
            let r = (market.total_mc - w) / 2 - market.distributed_rewards;
            let u = w - market.claimed_winner_liquidity;
            let s = reward_share(market, amount);
            &&& s == (r * ((amount * 1_000_000) / u)) / 1_000_000
            &&& 0 <= s
            &&& s * u <= r * amount
            &&& r * (amount * 1_000_000 - u) < 1_000_000 * u * (s + 1)
        }),
{
    let w = option_liquidity(market.market_options@, market.winner->0) as int;
    let r = (market.total_mc - w) / 2 - market.distributed_rewards;
    let u = w - market.claimed_winner_liquidity;
    let scale: int = 1_000_000;
    let a = amount as int;
    let ratio = (a * scale) / u;
    let s = (r * ratio) / scale;
    assert(s == reward_share(market, amount));
    lemma_fundamental_div_mod(a * scale, u);
    lemma_fundamental_div_mod(r * ratio, scale);
    assert(0 <= a * scale) by (nonlinear_arith)
        requires
            a >= 0,
            scale > 0,
    ;
    assert(0 <= ratio) by (nonlinear_arith)
        requires
            a * scale >= 0,
            u > 0,
            ratio == (a * scale) / u,
    ;
    assert(0 <= r * ratio) by (nonlinear_arith)
        requires
            r >= 0,
            ratio >= 0,
    ;
    assert(0 <= s) by (nonlinear_arith)
        requires
            r * ratio >= 0,
            s == (r * ratio) / scale,
            scale > 0,
    ;
    // ratio * u <= a * scale < (ratio + 1) * u
    assert(ratio * u <= a * scale && a * scale < (ratio + 1) * u) by (nonlinear_arith)
        requires
            a * scale == u * ratio + (a * scale) % u,
            0 <= (a * scale) % u < u,
    ;
    // s * scale <= r * ratio < (s + 1) * scale
    assert(s * scale <= r * ratio && r * ratio < (s + 1) * scale) by (nonlinear_arith)
        requires
            r * ratio == scale * s + (r * ratio) % scale,
            0 <= (r * ratio) % scale < scale,
    ;
    assert(s * u <= r * a) by (nonlinear_arith)
        requires
            s * scale <= r * ratio,
            ratio * u <= a * scale,
            r >= 0,
            u > 0,
            scale > 0,
            s >= 0,
    ;
    assert(r * (a * scale - u) <= r * (ratio * u)) by (nonlinear_arith)
        requires
            a * scale < (ratio + 1) * u,
            r >= 0,
    ;
    assert(r * (ratio * u) < scale * u * (s + 1)) by (nonlinear_arith)
        requires
            r * ratio < (s + 1) * scale,
            u > 0,
            scale > 0,
    ;
}

} // verus!
