use vstd::prelude::*;

use crate::error::PumpstakeErrors;
use crate::payout::{
    check_reward_computable, compute_reward_share, lemma_reward_share_within_pool,
    reward_computable, reward_pool, reward_share, winner_liquidity,
};
use crate::solana::{Pubkey, keys_eq};
use crate::state::{
    Bet, PredictionMarket, find_option, has_option, option_liquidity, set_liquidity,
    set_option_liquidity, lemma_set_other_option_keeps,
};
use crate::utils::{
    calculate_tokens_to_send, check_tokens_to_send_defined, lemma_allocation_within_cap, tokens_to_send,
    tokens_to_send_defined,
};

verus! {

/// The accounts that a claim of graduated tokens reads and writes.
pub struct ClaimTokenReward {
    pub signer: Pubkey,
    /// The market's creator, whose key signs for the market's token reserve.
    pub market_creator: Pubkey,
    pub market: PredictionMarket,
    pub bet: Bet,
    pub receiver: Pubkey,
    pub mint: Pubkey,
}

/// What a claim of graduated tokens pays out.
#[derive(Debug, Clone, Copy, PartialEq, Eq, Structural)]
pub struct ClaimTokensReceipt {
    /// For a winning bet, the lamports of its reward sent from the vault.
    pub sol_reward: Option<u64>,
    /// Lamports sent back from the vault because the allocation hit its cap;
    /// nothing is sent when this is zero.
    pub sol_refund: u64,
    /// Tokens sent from the market's reserve to the receiver.
    pub tokens: u64,
}

/// Whether the bet backs the winning option.
pub open spec fn bet_won(market: PredictionMarket, bet: Bet) -> bool {
    bet.option == market.winner->0
}

/// The SOL that a bet buys tokens with: all of a winning stake, half of a losing one.
pub open spec fn sol_for_allocation(market: PredictionMarket, bet: Bet) -> u64 {
    if bet_won(market, bet) {
        bet.amount
    } else {
        (bet.amount / 2) as u64
    }
}

/// `(tokens, sol_refund)` of a claim, priced on the market's pool.
pub open spec fn claim_allocation(market: PredictionMarket, bet: Bet) -> (int, int) {
    tokens_to_send(
        sol_for_allocation(market, bet) as int,
        market.virtual_sol_reserve as int,
        market.total_tokens as int,
        bet_won(market, bet),
    )
}

/// The claim goes ahead: the market has a winner, the bet was not claimed,
/// and the receiver is the bettor.
pub open spec fn claim_tokens_accepted(c: ClaimTokenReward) -> bool {
    c.market.winner is Some && !c.bet.claimed && c.bet.bettor@ == c.receiver@
}

/// A claim that goes ahead runs without a panic: the winner's reward is
/// computable and its bookkeeping fits, the allocation is computable, the
/// pool's SOL side fits, and the bet's option exists and, for a losing bet,
/// still holds the stake.
pub open spec fn claim_tokens_defined(c: ClaimTokenReward) -> bool {
    claim_tokens_accepted(c) ==> {
        let m = c.market;
        let won = bet_won(m, c.bet);
        let sol_in = sol_for_allocation(m, c.bet);
        &&& won ==> {
            &&& reward_computable(m, c.bet.amount)
            &&& m.claimed_winner_liquidity + c.bet.amount <= u64::MAX
            &&& m.distributed_rewards + (reward_share(m, c.bet.amount) as u64) <= u64::MAX
        }
        &&& tokens_to_send_defined(sol_in, m.virtual_sol_reserve as u128, m.total_tokens as u128, won)
        &&& m.virtual_sol_reserve + (sol_in - claim_allocation(m, c.bet).1) <= u64::MAX
        &&& has_option(m.market_options@, c.bet.option)
        &&& !won ==> option_liquidity(m.market_options@, c.bet.option) >= c.bet.amount
    }
}

/// The market after a claim that went ahead.
pub open spec fn market_after_token_claim(old: PredictionMarket, new: PredictionMarket, bet: Bet) -> bool {
    let won = bet_won(old, bet);
    let (tokens, refund) = claim_allocation(old, bet);
    &&& new.market_id == old.market_id
    &&& new.bump == old.bump
    &&& new.owner == old.owner
    &&& new.start_time == old.start_time
    &&& new.end_time == old.end_time
    &&& new.is_active == old.is_active
    &&& new.winner == old.winner
    &&& new.total_mc == old.total_mc
    &&& new.data == old.data
    &&& new.graduate == old.graduate
    &&& new.winner_present == old.winner_present
    &&& new.total_tokens == old.total_tokens - tokens
    &&& new.virtual_sol_reserve == old.virtual_sol_reserve + (sol_for_allocation(old, bet) - refund)
    &&& if won {
        &&& new.market_options@ == old.market_options@
        &&& new.claimed_winner_liquidity == old.claimed_winner_liquidity + bet.amount
        &&& new.distributed_rewards == old.distributed_rewards + (reward_share(old, bet.amount) as u64)
    } else {
        &&& new.market_options@ == set_option_liquidity(
            old.market_options@,
            bet.option,
            (option_liquidity(old.market_options@, bet.option) - bet.amount) as u64,
        )
        &&& new.claimed_winner_liquidity == old.claimed_winner_liquidity
        &&& new.distributed_rewards == old.distributed_rewards
    }
}

/// What a claim that went ahead pays out.
pub open spec fn token_claim_receipt(market: PredictionMarket, bet: Bet) -> ClaimTokensReceipt {
    ClaimTokensReceipt {
        sol_reward: if bet_won(market, bet) {
            Some(reward_share(market, bet.amount) as u64)
        } else {
            None
        },
        sol_refund: claim_allocation(market, bet).1 as u64,
        tokens: claim_allocation(market, bet).0 as u64,
    }
}

/// The whole effect of `claim_tokens` on the accounts from `old` to `new`, with result `r`.
pub open spec fn claim_tokens_post(
    old: ClaimTokenReward,
    new: ClaimTokenReward,
    r: Result<ClaimTokensReceipt, PumpstakeErrors>,
) -> bool {
    if old.market.winner is None {
        r == Err::<ClaimTokensReceipt, PumpstakeErrors>(PumpstakeErrors::MarketActive) && new == old
    } else if old.bet.claimed {
        r == Err::<ClaimTokensReceipt, PumpstakeErrors>(PumpstakeErrors::RewardAlreadyClaimed)
            && new == old
    } else if old.bet.bettor@ != old.receiver@ {
        r == Err::<ClaimTokensReceipt, PumpstakeErrors>(PumpstakeErrors::IncorrectReceivor) && new == old
    } else {
        &&& r == Ok::<ClaimTokensReceipt, PumpstakeErrors>(token_claim_receipt(old.market, old.bet))
        &&& market_after_token_claim(old.market, new.market, old.bet)
        &&& new.bet == (Bet { claimed: true, ..old.bet })
        &&& new.signer == old.signer
        &&& new.market_creator == old.market_creator
        &&& new.receiver == old.receiver
        &&& new.mint == old.mint
    }
}

/// Whether `claim_tokens` runs without a panic on these accounts.
pub fn check_claim_tokens_defined(c: &ClaimTokenReward) -> (r: bool)
    ensures
        r == claim_tokens_defined(*c),
{
    let winner = match c.market.winner {
        None => {
            return true;
        },
        Some(w) => w,
    };
    if c.bet.claimed || !keys_eq(&c.bet.bettor, &c.receiver) {
        return true;
    }
    let is_winner = c.bet.option == winner;
    if is_winner {
        if !check_reward_computable(&c.market, c.bet.amount) {
            return false;
        }
        let share = #[verifier::truncate] (compute_reward_share(&c.market, c.bet.amount) as u64);
        if c.market.claimed_winner_liquidity.checked_add(c.bet.amount).is_none()
            || c.market.distributed_rewards.checked_add(share).is_none() {
            return false;
        }
    }
    let sol_in = if is_winner {
        c.bet.amount
    } else {
        c.bet.amount / 2
    };
    if !check_tokens_to_send_defined(
        sol_in,
        c.market.virtual_sol_reserve as u128,
        c.market.total_tokens as u128,
        is_winner,
    ) {
        return false;
    }
    let (_, refund) = calculate_tokens_to_send(
        sol_in,
        c.market.virtual_sol_reserve as u128,
        c.market.total_tokens as u128,
        is_winner,
    );
    proof {
        lemma_allocation_within_cap(sol_in, c.market.virtual_sol_reserve as u128, c.market.total_tokens as u128, is_winner);
    }
    if c.market.virtual_sol_reserve.checked_add(sol_in - refund).is_none() {
        return false;
    }
    match find_option(&c.market.market_options, c.bet.option) {
        None => false,
        Some(index) => is_winner || c.market.market_options[index].liquidity >= c.bet.amount,
    }
}

impl ClaimTokenReward {
    /// Settles a bet of a graduated market in tokens, paid to the bettor
    /// alone (another receiver is refused). A winning bet first
    /// gets its share of the reward pool in SOL; then the bet's SOL (all of
    /// a winning stake, half of a losing one) buys tokens from the market's
    /// pool, capped, with what the cap leaves over sent back. A losing
    /// stake leaves its option's liquidity. The bet is marked claimed.
    pub fn claim_tokens(&mut self) -> (r: Result<ClaimTokensReceipt, PumpstakeErrors>)
        requires
            claim_tokens_defined(*old(self)),
        ensures
            claim_tokens_post(*old(self), *final(self), r),
    {
        if self.market.winner.is_none() {
            return Err(PumpstakeErrors::MarketActive);
        }
        if self.bet.claimed {
            return Err(PumpstakeErrors::RewardAlreadyClaimed);
        }
        if !keys_eq(&self.bet.bettor, &self.receiver) {
            return Err(PumpstakeErrors::IncorrectReceivor);
        }
        let is_winner = self.bet.option == self.market.winner.unwrap();
        let mut sol_reward: Option<u64> = None;
        if is_winner {
            let reward_share = compute_reward_share(&self.market, self.bet.amount);
            let winner_share_amount = #[verifier::truncate] (reward_share as u64);
            self.market.claimed_winner_liquidity = self.market.claimed_winner_liquidity + self.bet.amount;
            self.market.distributed_rewards = self.market.distributed_rewards + #[verifier::truncate] (reward_share as u64);
            sol_reward = Some(winner_share_amount);
        }
        let sol_in_for_allocation;
        if is_winner {
            sol_in_for_allocation = self.bet.amount;
        } else {
            sol_in_for_allocation = self.bet.amount / 2;
        }
        let (tokens_to_send, refund_amount) = calculate_tokens_to_send(
            sol_in_for_allocation,
            self.market.virtual_sol_reserve as u128,
            self.market.total_tokens as u128,
            is_winner,
        );
        let net_sol = sol_in_for_allocation.checked_sub(refund_amount).unwrap();
        self.market.total_tokens = self.market.total_tokens - tokens_to_send;
        self.market.virtual_sol_reserve = self.market.virtual_sol_reserve + net_sol;

        let index = find_option(&self.market.market_options, self.bet.option).unwrap();
        if is_winner == false {
            let liquidity = self.market.market_options[index].liquidity - self.bet.amount;
            set_liquidity(&mut self.market.market_options, index, liquidity);
        }
        self.bet.claimed = true;
        Ok(ClaimTokensReceipt { sol_reward, sol_refund: refund_amount, tokens: tokens_to_send })
    }
}

/// Tokens for a bet are handed out once: after a claim that went ahead,
/// every later claim of the same accounts is refused with
/// `RewardAlreadyClaimed`.
pub proof fn lemma_claim_tokens_once(
    first: ClaimTokenReward,
    after: ClaimTokenReward,
    first_result: Result<ClaimTokensReceipt, PumpstakeErrors>,
    last: ClaimTokenReward,
    second_result: Result<ClaimTokensReceipt, PumpstakeErrors>,
)
    requires
        claim_tokens_post(first, after, first_result),
        first_result is Ok,
        claim_tokens_post(after, last, second_result),
    ensures
        second_result == Err::<ClaimTokensReceipt, PumpstakeErrors>(PumpstakeErrors::RewardAlreadyClaimed),
        last == after,
{
}

/// A token claim never hands out more tokens than the market's pool holds,
/// and never sends back more SOL than the bet put into the allocation.
pub proof fn lemma_token_claim_within_pool(old: ClaimTokenReward)
    requires
        claim_tokens_accepted(old),
        claim_tokens_defined(old),
    ensures
        0 <= claim_allocation(old.market, old.bet).0 <= old.market.total_tokens,
        0 <= claim_allocation(old.market, old.bet).1 <= sol_for_allocation(old.market, old.bet),
{
}

/// Token claims keep the reward pool bounded: a claim changes neither the
/// winning stakes nor the reward pool, and the rewards paid stay within the
/// pool and the winning stakes claimed within those placed, provided a
/// winning bet is no larger than the winning stakes not yet claimed.
pub proof fn lemma_token_claim_keeps_pool(
    old: ClaimTokenReward,
    new: ClaimTokenReward,
    r: Result<ClaimTokensReceipt, PumpstakeErrors>,
)
    requires
        claim_tokens_defined(old),
        claim_tokens_post(old, new, r),
        r is Ok,
        old.market.winner is Some,
        has_option(old.market.market_options@, old.market.winner->0),
        old.market.distributed_rewards <= reward_pool(old.market),
        old.market.claimed_winner_liquidity <= winner_liquidity(old.market),
        bet_won(old.market, old.bet) ==> old.market.claimed_winner_liquidity + old.bet.amount
            <= winner_liquidity(old.market),
    ensures
        winner_liquidity(new.market) == winner_liquidity(old.market),
        reward_pool(new.market) == reward_pool(old.market),
        new.market.distributed_rewards <= reward_pool(new.market),
        new.market.claimed_winner_liquidity <= winner_liquidity(new.market),
{
    let m = old.market;
    if bet_won(m, old.bet) {
        lemma_reward_share_within_pool(m, old.bet.amount);
    } else {
        lemma_set_other_option_keeps(
            m.market_options@,
            old.bet.option,
            (option_liquidity(m.market_options@, old.bet.option) - old.bet.amount) as u64,
            m.winner->0,
        );
    }
}

/// A token claim is priced on the market's pool alike for winners and
/// losers: the tokens sent and the SOL sent back are exactly what the
/// pricing gives for the bet's SOL (all of a winning stake, half of a
/// losing one), the pool's SOL side grows by that SOL less the refund, and
/// its tokens shrink by the tokens sent. Only a winning bet gets a reward.
pub proof fn lemma_token_claim_prices_the_bet(
    old: ClaimTokenReward,
    new: ClaimTokenReward,
    r: Result<ClaimTokensReceipt, PumpstakeErrors>,
)
    requires
        claim_tokens_defined(old),
        claim_tokens_post(old, new, r),
        r is Ok,
    ensures
        ({
            let m = old.market;
            let won = old.bet.option == m.winner->0;
            let sol_in: int = if won {
                old.bet.amount as int
            } else {
                (old.bet.amount / 2) as int
            };
            let priced = tokens_to_send(sol_in, m.virtual_sol_reserve as int, m.total_tokens as int, won);
            &&& r->Ok_0.tokens == priced.0
            &&& r->Ok_0.sol_refund == priced.1
            &&& new.market.virtual_sol_reserve == m.virtual_sol_reserve + sol_in - r->Ok_0.sol_refund
            &&& new.market.total_tokens == m.total_tokens - r->Ok_0.tokens
            &&& (r->Ok_0.sol_reward is Some <==> won)
        }),
{
    let m = old.market;
    let won = bet_won(m, old.bet);
    let sol_in = sol_for_allocation(m, old.bet);
    lemma_allocation_within_cap(sol_in, m.virtual_sol_reserve as u128, m.total_tokens as u128, won);
}

} // verus!
