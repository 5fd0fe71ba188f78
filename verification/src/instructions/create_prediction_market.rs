use vstd::prelude::*;

use crate::clock::{fits_in_millis, millis, millis_fit, to_millis};
use crate::error::PumpstakeErrors;
use crate::solana::Pubkey;
use crate::state::{BettingOption, MAX_OPTIONS, PredictionMarket, PredictionMarketParams};

verus! {

/// The tokens a market's pool starts with.
pub const INITIAL_TOTAL_TOKENS: u64 = 80_000_000_000_000;

/// The SOL side that a market's pool starts with: the reserve that puts
/// `INITIAL_TOTAL_TOKENS` on the pool's curve, `K / INITIAL_TOTAL_TOKENS`.
pub const INITIAL_VIRTUAL_SOL_RESERVE: u64 = 312_500_000_000;

/// The accounts that creating a market reads and writes.
pub struct CreatePredictionMarket {
    pub signer: Pubkey,
    /// The market account, written by the creation.
    pub market: Option<PredictionMarket>,
}

/// The bump seeds of the accounts derived for a new market.
#[derive(Debug, Clone, Copy)]
pub struct CreatePredictionMarketBumps {
    pub market: u8,
    pub market_vault: u8,
}

/// The market that a creation writes.
pub open spec fn new_market(
    seed: u64,
    bump: u8,
    owner: Pubkey,
    options: Vec<BettingOption>,
    start_time: int,
    end_time: int,
    params: PredictionMarketParams,
) -> PredictionMarket {
    PredictionMarket {
        market_id: seed,
        bump,
        owner,
        market_options: options,
        start_time: start_time as i64,
        end_time: end_time as i64,
        is_active: true,
        data: params,
        total_mc: 0,
        winner: None,
        graduate: None,
        total_tokens: INITIAL_TOTAL_TOKENS,
        claimed_winner_liquidity: 0,
        distributed_rewards: 0,
        winner_present: false,
        virtual_sol_reserve: INITIAL_VIRTUAL_SOL_RESERVE,
    }
}

/// The creation runs without a panic: its start in milliseconds and its
/// end fit in an `i64`.
pub open spec fn create_market_fits(duration: i64, unix_timestamp: i64) -> bool {
    &&& millis_fit(unix_timestamp)
    &&& i64::MIN <= millis(unix_timestamp) + duration <= i64::MAX
}

/// Whether a creation with this duration at this time runs without a panic.
pub fn check_create_market_fits(duration: i64, unix_timestamp: i64) -> (r: bool)
    ensures
        r == create_market_fits(duration, unix_timestamp),
{
    if !fits_in_millis(unix_timestamp) {
        return false;
    }
    to_millis(unix_timestamp).checked_add(duration).is_some()
}

impl CreatePredictionMarket {
    /// Opens a market that starts now, in milliseconds, and ends `duration`
    /// later, owned by the signer, with the given options and no stakes.
    /// Refused when `total_options` exceeds `MAX_OPTIONS`.
    pub fn create_prediction_market(
        &mut self,
        seed: u64,
        total_options: u8,
        duration: i64,
        params: PredictionMarketParams,
        options: Vec<BettingOption>,
        bumps: &CreatePredictionMarketBumps,
        unix_timestamp: i64,
    ) -> (r: Result<(), PumpstakeErrors>)
        requires
            total_options <= MAX_OPTIONS ==> create_market_fits(duration, unix_timestamp),
        ensures
            total_options > MAX_OPTIONS ==> r == Err::<(), PumpstakeErrors>(PumpstakeErrors::MaxOptionsExceeded)
                && *final(self) == *old(self),
            total_options <= MAX_OPTIONS ==> {
                &&& r == Ok::<(), PumpstakeErrors>(())
                &&& final(self).market == Some(
                    new_market(
                        seed,
                        bumps.market,
                        old(self).signer,
                        options,
                        millis(unix_timestamp),
                        millis(unix_timestamp) + duration,
                        params,
                    ),
                )
                &&& final(self).signer == old(self).signer
            },
    {
        if !(total_options <= MAX_OPTIONS) {
            return Err(PumpstakeErrors::MaxOptionsExceeded);
        }
        let start_time = to_millis(unix_timestamp);
        let end_time = start_time.checked_add(duration).unwrap();
        self.market = Some(PredictionMarket {
            market_id: seed,
            bump: bumps.market,
            owner: self.signer,
            market_options: options,
            start_time,
            end_time,
            is_active: true,
            data: params,
            total_mc: 0,
            winner: None,
            graduate: None,
            // total supply is this
            total_tokens: 80_000_000_000_000,
            claimed_winner_liquidity: 0,
            distributed_rewards: 0,
            winner_present: false,
            virtual_sol_reserve: 312_500_000_000,
        });
        Ok(())
    }
}

/// A new market's pool starts on the curve: its SOL side times its tokens
/// is the pool's product `K`.
pub proof fn lemma_new_pool_on_curve()
    ensures
        INITIAL_VIRTUAL_SOL_RESERVE * INITIAL_TOTAL_TOKENS == crate::utils::K,
{
}

} // verus!
