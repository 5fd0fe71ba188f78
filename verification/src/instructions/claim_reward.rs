use vstd::prelude::*;

use crate::clock::{fits_in_millis, millis, millis_fit, to_millis};
use crate::error::PumpstakeErrors;
use crate::payout::{
    check_reward_computable, compute_reward_share, lemma_reward_is_proportional, lemma_reward_share_within_pool,
    reward_computable, reward_pool,
    reward_share, winner_liquidity,
};
use crate::solana::{Pubkey, keys_eq};
use crate::state::{Bet, PredictionMarket, has_option, option_liquidity};

verus! {

/// The accounts that a claim of a market that did not graduate reads and writes.
pub struct ClaimReward {
    pub signer: Pubkey,
    pub market: PredictionMarket,
    pub bet: Bet,
    /// The account paid: it must be the bettor.
    pub reciever: Pubkey,
}

/// The first check that refuses the claim, if any.
pub open spec fn claim_reward_refusal(c: ClaimReward, unix_timestamp: i64) -> Option<PumpstakeErrors> {
    if c.bet.claimed {
        Some(PumpstakeErrors::RewardAlreadyClaimed)
    } else if !(c.market.end_time <= millis(unix_timestamp)) {
        Some(PumpstakeErrors::MarketActive)
    } else if c.market.is_active {
        Some(PumpstakeErrors::MarketActive)
    } else if c.bet.bettor@ != c.reciever@ {
        Some(PumpstakeErrors::IncorrectReceivor)
    } else if c.market.graduate != Some(false) {
        Some(PumpstakeErrors::SufficientLiquidityToGraduate)
    } else {
        None
    }
}

/// Whether the bet backs the winning option.
pub open spec fn claim_won(market: PredictionMarket, bet: Bet) -> bool {
    bet.option == market.winner->0
}

/// What a claim pays: a winning stake back with its reward, half of a losing stake.
pub open spec fn reward_payout(market: PredictionMarket, bet: Bet) -> int {
    if claim_won(market, bet) {
        bet.amount + (reward_share(market, bet.amount) as u64)
    } else {
        (bet.amount / 2) as int
    }
}

/// The claim runs without a panic: the timestamp converts when it is read,
/// and a claim that passes the checks has a winner and, for a winning bet,
/// a computable reward whose bookkeeping and payout fit.
pub open spec fn claim_reward_defined(c: ClaimReward, unix_timestamp: i64) -> bool {
    &&& !c.bet.claimed ==> millis_fit(unix_timestamp)
    &&& claim_reward_refusal(c, unix_timestamp) is None ==> {
        &&& c.market.winner is Some
        &&& claim_won(c.market, c.bet) ==> {
            &&& reward_computable(c.market, c.bet.amount)
            &&& c.market.claimed_winner_liquidity + c.bet.amount <= u64::MAX
            &&& c.market.distributed_rewards + (reward_share(c.market, c.bet.amount) as u64) <= u64::MAX
            &&& c.bet.amount + (reward_share(c.market, c.bet.amount) as u64) <= u64::MAX
        }
    }
}

/// The market after a claim that went ahead: a winning stake is counted as
/// claimed and its reward as paid; nothing else changes.
pub open spec fn market_after_reward(old: PredictionMarket, new: PredictionMarket, bet: Bet) -> bool {
    &&& new.market_id == old.market_id
    &&& new.bump == old.bump
    &&& new.owner == old.owner
    &&& new.market_options@ == old.market_options@
    &&& new.start_time == old.start_time
    &&& new.end_time == old.end_time
    &&& new.is_active == old.is_active
    &&& new.winner == old.winner
    &&& new.total_mc == old.total_mc
    &&& new.data == old.data
    &&& new.total_tokens == old.total_tokens
    &&& new.graduate == old.graduate
    &&& new.winner_present == old.winner_present
    &&& new.virtual_sol_reserve == old.virtual_sol_reserve
    &&& if claim_won(old, bet) {
        &&& new.claimed_winner_liquidity == old.claimed_winner_liquidity + bet.amount
        &&& new.distributed_rewards == old.distributed_rewards + (reward_share(old, bet.amount) as u64)
    } else {
        &&& new.claimed_winner_liquidity == old.claimed_winner_liquidity
        &&& new.distributed_rewards == old.distributed_rewards
    }
}

/// The whole effect of `claim_reward` from `old` to `new`, with result `r`.
pub open spec fn claim_reward_post(old: ClaimReward, unix_timestamp: i64, new: ClaimReward, r: Result<u64, PumpstakeErrors>) -> bool {
    match claim_reward_refusal(old, unix_timestamp) {
        Some(e) => r == Err::<u64, PumpstakeErrors>(e) && new == old,
        None => {
            &&& r == Ok::<u64, PumpstakeErrors>(reward_payout(old.market, old.bet) as u64)
            &&& market_after_reward(old.market, new.market, old.bet)
            &&& new.bet == (Bet { claimed: true, ..old.bet })
            &&& new.signer == old.signer
            &&& new.reciever == old.reciever
        },
    }
}

/// Whether `claim_reward` runs without a panic on these accounts at this time.
pub fn check_claim_reward_defined(c: &ClaimReward, unix_timestamp: i64) -> (r: bool)
    ensures
        r == claim_reward_defined(*c, unix_timestamp),
{
    if c.bet.claimed {
        return true;
    }
    if !fits_in_millis(unix_timestamp) {
        return false;
    }
    let timestamp = to_millis(unix_timestamp);
    if !(c.market.end_time <= timestamp) || c.market.is_active || !keys_eq(&c.bet.bettor, &c.reciever) {
        return true;
    }
    match c.market.graduate {
        Some(false) => {},
        _ => {
            return true;
        },
    }
    let winner = match c.market.winner {
        None => {
            return false;
        },
        Some(w) => w,
    };
    if c.bet.option != winner {
        return true;
    }
    if !check_reward_computable(&c.market, c.bet.amount) {
        return false;
    }
    let share = #[verifier::truncate] (compute_reward_share(&c.market, c.bet.amount) as u64);
    c.market.claimed_winner_liquidity.checked_add(c.bet.amount).is_some()
        && c.market.distributed_rewards.checked_add(share).is_some()
        && c.bet.amount.checked_add(share).is_some()
}

impl ClaimReward {
    /// Settles a bet of a market that ended without graduating: a winning
    /// bet gets its stake back with its share of the reward pool, a losing
    /// bet half of its stake. Returns the lamports to send from the vault to
    /// the receiver, and marks the bet claimed.
    pub fn claim_reward(&mut self, unix_timestamp: i64) -> (r: Result<u64, PumpstakeErrors>)
        requires
            claim_reward_defined(*old(self), unix_timestamp),
        ensures
            claim_reward_post(*old(self), unix_timestamp, *final(self), r),
    {
        if self.bet.claimed {
            return Err(PumpstakeErrors::RewardAlreadyClaimed);
        }
        let timestamp = to_millis(unix_timestamp);
        if !(self.market.end_time <= timestamp) {
            return Err(PumpstakeErrors::MarketActive);
        }
        if !(self.market.is_active == false) {
            return Err(PumpstakeErrors::MarketActive);
        }
        if !keys_eq(&self.bet.bettor, &self.reciever) {
            return Err(PumpstakeErrors::IncorrectReceivor);
        }
        match self.market.graduate {
            Some(false) => {},
            _ => {
                return Err(PumpstakeErrors::SufficientLiquidityToGraduate);
            },
        }
        // If winner
        let amount;
        if self.bet.option == self.market.winner.unwrap() {
            let reward_share = compute_reward_share(&self.market, self.bet.amount);
            let winner_share_amount = self.bet.amount + #[verifier::truncate] (reward_share as u64);
            self.market.claimed_winner_liquidity = self.market.claimed_winner_liquidity + self.bet.amount;
            self.market.distributed_rewards = self.market.distributed_rewards + #[verifier::truncate] (reward_share as u64);
            amount = winner_share_amount;
        } else {
            let loser_share_amount = self.bet.amount / 2;
            amount = loser_share_amount;
        }
        self.bet.claimed = true;
        Ok(amount)
    }
}

/// A bet is paid once: after a claim that went ahead, every later claim of
/// the same accounts is refused with `RewardAlreadyClaimed`.
pub proof fn lemma_claim_reward_once(
    first: ClaimReward,
    first_timestamp: i64,
    after: ClaimReward,
    first_result: Result<u64, PumpstakeErrors>,
    second_timestamp: i64,
    last: ClaimReward,
    second_result: Result<u64, PumpstakeErrors>,
)
    requires
        claim_reward_post(first, first_timestamp, after, first_result),
        first_result is Ok,
        claim_reward_post(after, second_timestamp, last, second_result),
    ensures
        second_result == Err::<u64, PumpstakeErrors>(PumpstakeErrors::RewardAlreadyClaimed),
        last == after,
{
}

/// The books of a market's SOL claims: `paid` lamports were sent so far,
/// `unclaimed_winning` of the winning stakes and `unclaimed_losing` of the
/// losing stakes are held by bets not yet claimed. The winning stakes are
/// those claimed plus those unclaimed, the rewards paid stay within the
/// pool, and what was paid is at most the winning stakes claimed, the
/// rewards paid and half of the losing stakes claimed.
pub open spec fn sol_claims_ledger(market: PredictionMarket, paid: int, unclaimed_winning: int, unclaimed_losing: int) -> bool {
    let winning = winner_liquidity(market);
    let losing = market.total_mc - winning;
    &&& market.winner is Some
    &&& has_option(market.market_options@, market.winner->0)
    &&& winning <= market.total_mc
    &&& 0 <= unclaimed_winning
    &&& market.claimed_winner_liquidity + unclaimed_winning == winning
    &&& market.distributed_rewards <= reward_pool(market)
    &&& 0 <= unclaimed_losing <= losing
    &&& paid <= market.claimed_winner_liquidity + market.distributed_rewards + (losing - unclaimed_losing) / 2
}

/// A resolved market whose claims have not started opens its books with
/// nothing paid and every stake unclaimed.
pub proof fn lemma_sol_claims_ledger_opens(market: PredictionMarket)
    requires
        market.winner is Some,
        has_option(market.market_options@, market.winner->0),
        winner_liquidity(market) <= market.total_mc,
        market.claimed_winner_liquidity == 0,
        market.distributed_rewards == 0,
    ensures
        sol_claims_ledger(market, 0, winner_liquidity(market), market.total_mc - winner_liquidity(market)),
{
}

/// A SOL claim of a bet whose stake is still counted as unclaimed on its
/// side keeps the books, with the payout added to what was paid and the
/// stake removed from its side.
pub proof fn lemma_claim_reward_keeps_ledger(
    old: ClaimReward,
    unix_timestamp: i64,
    new: ClaimReward,
    r: Result<u64, PumpstakeErrors>,
    paid: int,
    unclaimed_winning: int,
    unclaimed_losing: int,
)
    requires
        sol_claims_ledger(old.market, paid, unclaimed_winning, unclaimed_losing),
        claim_reward_defined(old, unix_timestamp),
        claim_reward_post(old, unix_timestamp, new, r),
        r is Ok,
        claim_won(old.market, old.bet) ==> old.bet.amount <= unclaimed_winning,
        !claim_won(old.market, old.bet) ==> old.bet.amount <= unclaimed_losing,
    ensures
        claim_won(old.market, old.bet) ==> sol_claims_ledger(
            new.market,
            paid + r->Ok_0,
            unclaimed_winning - old.bet.amount,
            unclaimed_losing,
        ),
        !claim_won(old.market, old.bet) ==> sol_claims_ledger(
            new.market,
            paid + r->Ok_0,
            unclaimed_winning,
            unclaimed_losing - old.bet.amount,
        ),
{
    let m = old.market;
    if claim_won(m, old.bet) {
        lemma_reward_share_within_pool(m, old.bet.amount);
    }
}

/// The vault stays solvent: whatever the books allow to have been paid is
/// at most the market's total stakes.
pub proof fn lemma_sol_claims_solvent(market: PredictionMarket, paid: int, unclaimed_winning: int, unclaimed_losing: int)
    requires
        sol_claims_ledger(market, paid, unclaimed_winning, unclaimed_losing),
    ensures
        paid <= market.total_mc,
{
}

/// What a SOL claim pays: a losing bet half its stake, rounded down; a
/// winning bet its stake and a reward `s` in proportion to its part of the
/// unclaimed winning stakes `U`, out of the unpaid half `R` of the losing
/// stakes: `s * U <= R * a`, short of the exact share only by rounding.
/// The winning bet is one of the unclaimed winning stakes.
pub proof fn lemma_claim_reward_pays_proportionally(
    old: ClaimReward,
    unix_timestamp: i64,
    new: ClaimReward,
    r: Result<u64, PumpstakeErrors>,
)
    requires
        claim_reward_defined(old, unix_timestamp),
        claim_reward_post(old, unix_timestamp, new, r),
        r is Ok,
        old.bet.option == old.market.winner->0 ==> old.bet.amount + old.market.claimed_winner_liquidity
            <= option_liquidity(old.market.market_options@, old.market.winner->0),
    ensures
        old.bet.option != old.market.winner->0 ==> r->Ok_0 == old.bet.amount / 2,
        old.bet.option == old.market.winner->0 ==> ({
            let m = old.market;
            let a = old.bet.amount as int;
            let w = option_liquidity(m.market_options@, m.winner->0) as int;
            let pool = (m.total_mc - w) / 2 - m.distributed_rewards;
            let u = w - m.claimed_winner_liquidity;
            let s = r->Ok_0 - a;
            &&& s == (pool * ((a * 1_000_000) / u)) / 1_000_000
            &&& 0 <= s
            &&& s * u <= pool * a
            &&& pool * (a * 1_000_000 - u) < 1_000_000 * u * (s + 1)
        }),
{
    let m = old.market;
    if old.bet.option == m.winner->0 {
        lemma_reward_share_within_pool(m, old.bet.amount);
        lemma_reward_is_proportional(m, old.bet.amount);
    }
}

} // verus!
