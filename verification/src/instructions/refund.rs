use vstd::prelude::*;

use crate::clock::{millis, millis_fit, to_millis};
use crate::error::PumpstakeErrors;
use crate::solana::{Pubkey, keys_eq};
use crate::instructions::resolve_market::{ResolveMarket, resolve_winner_post};
use crate::state::{Bet, PredictionMarket};

verus! {

/// The accounts that refunding a bet reads and writes.
pub struct Refund {
    pub signer: Pubkey,
    pub market: PredictionMarket,
    pub bet: Bet,
    /// The account paid: it must be the bettor.
    pub reciever: Pubkey,
}

/// The first check that refuses the refund, if any.
pub open spec fn refund_refusal(r: Refund, unix_timestamp: i64) -> Option<PumpstakeErrors> {
    if r.market.winner_present {
        Some(PumpstakeErrors::CannotRefund)
    } else if !(r.market.end_time <= millis(unix_timestamp)) {
        Some(PumpstakeErrors::MarketActive)
    } else if r.market.is_active {
        Some(PumpstakeErrors::MarketActive)
    } else if r.bet.bettor@ != r.reciever@ {
        Some(PumpstakeErrors::IncorrectReceivor)
    } else {
        None
    }
}

/// The whole effect of `refund` from `old` to `new`, with result `r`: a
/// refund that passes the checks returns the whole stake and marks the bet
/// claimed, and changes nothing else.
pub open spec fn refund_post(old: Refund, unix_timestamp: i64, new: Refund, r: Result<u64, PumpstakeErrors>) -> bool {
    match refund_refusal(old, unix_timestamp) {
        Some(e) => r == Err::<u64, PumpstakeErrors>(e) && new == old,
        None => {
            &&& r == Ok::<u64, PumpstakeErrors>(old.bet.amount)
            &&& new.bet == (Bet { claimed: true, ..old.bet })
            &&& new.market == old.market
            &&& new.signer == old.signer
            &&& new.reciever == old.reciever
        },
    }
}

impl Refund {
    /// Gives a bettor the whole stake back from a market that ended without
    /// a winner. Returns the lamports to send from the vault to the
    /// receiver, and marks the bet claimed.
    pub fn refund(&mut self, unix_timestamp: i64) -> (r: Result<u64, PumpstakeErrors>)
        requires
            !old(self).market.winner_present ==> millis_fit(unix_timestamp),
        ensures
            refund_post(*old(self), unix_timestamp, *final(self), r),
    {
        if !(self.market.winner_present == false) {
            return Err(PumpstakeErrors::CannotRefund);
        }
        let timestamp = to_millis(unix_timestamp);
        if !(self.market.end_time <= timestamp) {
            return Err(PumpstakeErrors::MarketActive);
        }
        if !(self.market.is_active == false) {
            return Err(PumpstakeErrors::MarketActive);
        }
        if !keys_eq(&self.bet.bettor, &self.reciever) {
            return Err(PumpstakeErrors::IncorrectReceivor);
        }
        let amount = self.bet.amount;
        self.bet.claimed = true;
        Ok(amount)
    }
}

/// A refund is refused with `CannotRefund` exactly when the market has a
/// winner present; otherwise, once the market has ended (in milliseconds)
/// and is closed, the bettor gets back the whole stake, whatever the
/// market's `winner` field holds.
pub proof fn lemma_refund_refused_only_with_winner_present(
    old: Refund,
    unix_timestamp: i64,
    new: Refund,
    r: Result<u64, PumpstakeErrors>,
)
    requires
        refund_post(old, unix_timestamp, new, r),
    ensures
        old.market.winner_present <==> r == Err::<u64, PumpstakeErrors>(PumpstakeErrors::CannotRefund),
        !old.market.winner_present && old.market.end_time <= unix_timestamp * 1000 && !old.market.is_active
            && old.bet.bettor@ == old.reciever@ ==> r == Ok::<u64, PumpstakeErrors>(old.bet.amount)
            && new.bet.claimed,
{
}

/// A market that `resolve_market` closed can be refunded: resolution sets
/// the winner but not `winner_present`, so a bet of a market without a
/// winner present is refunded in full after resolution.
pub proof fn lemma_resolved_market_refunds(
    before: ResolveMarket,
    option: u8,
    resolve_timestamp: i64,
    resolved: ResolveMarket,
    resolve_result: Result<(), PumpstakeErrors>,
    refund: Refund,
    unix_timestamp: i64,
    after: Refund,
    r: Result<u64, PumpstakeErrors>,
)
    requires
        resolve_winner_post(before, option, resolve_timestamp, resolved, resolve_result),
        resolve_result is Ok,
        !before.market.winner_present,
        refund.market == resolved.market,
        refund.market.end_time <= unix_timestamp * 1000,
        refund.bet.bettor@ == refund.reciever@,
        refund_post(refund, unix_timestamp, after, r),
    ensures
        r == Ok::<u64, PumpstakeErrors>(refund.bet.amount),
{
}

} // verus!
