use vstd::prelude::*;

use crate::clock::{millis, millis_fit, to_millis};
use crate::error::PumpstakeErrors;
use crate::events::StakeEvent;
use crate::solana::{Pubkey, keys_eq, parse_pubkey, pubkey_from_str};
use crate::state::{
    lemma_total_liquidity_update, total_liquidity, Bet, PredictionMarket, find_option, has_option, option_liquidity, set_liquidity,
    set_option_liquidity, lemma_option_index_found, option_index, with_liquidity,
};

verus! {

/// The wallet that receives the fee on every stake, in base58.
pub const REVENUE_WALLET: &'static str = "GmkqS3uguupCzEbwcWYnRrhtSvNZj2ycUWWSCE4QHedr";

/// The accounts that placing a stake reads and writes.
pub struct Stake {
    pub signer: Pubkey,
    /// The market account's own address.
    pub market_key: Pubkey,
    pub market: PredictionMarket,
    /// The bet account, written by the stake.
    pub bet: Option<Bet>,
    /// The account that the fee is sent to: it must be the revenue wallet.
    pub revenue: Pubkey,
}

/// What a stake moves and reports.
#[derive(Debug, Clone, Copy)]
pub struct StakeReceipt {
    /// Lamports sent from the bettor to the market's vault.
    pub vault_amount: u64,
    /// Lamports sent from the bettor to the revenue wallet.
    pub revenue_amount: u64,
    pub event: StakeEvent,
}

/// The fee taken from a stake of `amount`: 2 %, rounded down.
pub open spec fn stake_fee(amount: u64) -> int {
    (amount * 2) / 100
}

/// What of a stake of `amount` goes into the market.
pub open spec fn stake_net(amount: u64) -> int {
    amount - stake_fee(amount)
}

/// The key that the revenue wallet's text decodes to.
pub open spec fn revenue_wallet_key() -> Option<Seq<u8>> {
    parse_pubkey(REVENUE_WALLET@)
}

/// The first check that refuses the stake, if any.
pub open spec fn stake_refusal(s: Stake, unix_timestamp: i64) -> Option<PumpstakeErrors> {
    if revenue_wallet_key() != Some(s.revenue@) {
        Some(PumpstakeErrors::IncorrectRevenueWallet)
    } else if !(millis(unix_timestamp) < s.market.end_time) {
        Some(PumpstakeErrors::MarketExpired)
    } else {
        None
    }
}

/// A stake that passes the checks runs without a panic: the fee's product
/// fits, the option exists, and its liquidity and the market's total fit.
pub open spec fn stake_fits(market: PredictionMarket, option_id: u8, amount: u64) -> bool {
    &&& amount * 2 <= u64::MAX
    &&& has_option(market.market_options@, option_id)
    &&& option_liquidity(market.market_options@, option_id) + stake_net(amount) <= u64::MAX
    &&& market.total_mc + stake_net(amount) <= u64::MAX
}

/// The bet that a stake records.
pub open spec fn placed_bet(s: Stake, bet_id: u64, option_id: u8, amount: u64, unix_timestamp: i64) -> Bet {
    Bet {
        bet_id,
        market_id: s.market.market_id,
        placed_at: unix_timestamp,
        bettor: s.signer,
        amount: stake_net(amount) as u64,
        option: option_id,
        market: s.market_key,
        claimed: false,
    }
}

/// What a stake that passes the checks moves and reports.
pub open spec fn stake_receipt(s: Stake, bet_id: u64, option_id: u8, amount: u64, unix_timestamp: i64) -> StakeReceipt {
    StakeReceipt {
        vault_amount: stake_net(amount) as u64,
        revenue_amount: stake_fee(amount) as u64,
        event: StakeEvent {
            bet_id,
            market_id: s.market.market_id,
            placed_at: unix_timestamp,
            bettor: s.signer,
            amount: stake_net(amount) as u64,
            option: option_id,
            market: s.market_key,
            claimed: false,
        },
    }
}

/// The market after a stake: the stake's net amount is added to the chosen
/// option's liquidity and to the market's total; nothing else changes.
pub open spec fn market_after_stake(old: PredictionMarket, new: PredictionMarket, option_id: u8, amount: u64) -> bool {
    &&& new.market_id == old.market_id
    &&& new.bump == old.bump
    &&& new.owner == old.owner
    &&& new.market_options@ == set_option_liquidity(
        old.market_options@,
        option_id,
        (option_liquidity(old.market_options@, option_id) + stake_net(amount)) as u64,
    )
    &&& new.start_time == old.start_time
    &&& new.end_time == old.end_time
    &&& new.is_active == old.is_active
    &&& new.winner == old.winner
    &&& new.total_mc == old.total_mc + stake_net(amount)
    &&& new.data == old.data
    &&& new.total_tokens == old.total_tokens
    &&& new.graduate == old.graduate
    &&& new.claimed_winner_liquidity == old.claimed_winner_liquidity
    &&& new.distributed_rewards == old.distributed_rewards
    &&& new.winner_present == old.winner_present
    &&& new.virtual_sol_reserve == old.virtual_sol_reserve
}

/// The whole effect of `place_bet` from `old` to `new`, with result `r`.
pub open spec fn place_bet_post(
    old: Stake,
    bet_id: u64,
    option_id: u8,
    amount: u64,
    unix_timestamp: i64,
    new: Stake,
    r: Result<StakeReceipt, PumpstakeErrors>,
) -> bool {
    match stake_refusal(old, unix_timestamp) {
        Some(e) => r == Err::<StakeReceipt, PumpstakeErrors>(e) && new == old,
        None => {
            &&& stake_fits(old.market, option_id, amount)
            &&& r == Ok::<StakeReceipt, PumpstakeErrors>(stake_receipt(old, bet_id, option_id, amount, unix_timestamp))
            &&& new.bet == Some(placed_bet(old, bet_id, option_id, amount, unix_timestamp))
            &&& market_after_stake(old.market, new.market, option_id, amount)
            &&& new.signer == old.signer
            &&& new.market_key == old.market_key
            &&& new.revenue == old.revenue
        },
    }
}

/// Decodes the revenue wallet's address.
pub fn revenue_wallet() -> (r: Option<Pubkey>)
    ensures
        revenue_wallet_key() == (match r {
            Some(k) => Some(k@),
            None => None::<Seq<u8>>,
        }),
{
    pubkey_from_str(REVENUE_WALLET)
}

/// Whether a stake of `amount` on `option_id` that passes the checks runs
/// without a panic.
pub fn check_stake_fits(market: &PredictionMarket, option_id: u8, amount: u64) -> (r: bool)
    ensures
        r == stake_fits(*market, option_id, amount),
{
    if amount.checked_mul(2).is_none() {
        return false;
    }
    let net = amount - amount * 2 / 100;
    match find_option(&market.market_options, option_id) {
        None => false,
        Some(index) => {
            market.market_options[index].liquidity.checked_add(net).is_some()
                && market.total_mc.checked_add(net).is_some()
        },
    }
}

impl Stake {
    /// Places a stake of `amount` lamports on the option `option_id` before
    /// the market ends (the clock's seconds are counted in milliseconds, the
    /// unit of the market's end): 2 % goes to the revenue wallet, the rest into the
    /// market's vault, to the option's liquidity and to the market's total,
    /// and is recorded in the bet.
    pub fn place_bet(&mut self, bet_id: u64, option_id: u8, amount: u64, unix_timestamp: i64) -> (r: Result<StakeReceipt, PumpstakeErrors>)
        requires
            revenue_wallet_key() is Some,
            revenue_wallet_key() == Some(old(self).revenue@) ==> millis_fit(unix_timestamp),
            stake_refusal(*old(self), unix_timestamp) is None ==> stake_fits(old(self).market, option_id, amount),
        ensures
            place_bet_post(*old(self), bet_id, option_id, amount, unix_timestamp, *final(self), r),
    {
        let revenue_pubkey = revenue_wallet().unwrap();
        if !keys_eq(&self.revenue, &revenue_pubkey) {
            return Err(PumpstakeErrors::IncorrectRevenueWallet);
        }
        let timestamp = to_millis(unix_timestamp);
        if !(timestamp < self.market.end_time) {
            return Err(PumpstakeErrors::MarketExpired);
        }
        let share = amount * 2 / 100;
        let amount = amount - share;
        self.bet = Some(Bet {
            bet_id,
            market_id: self.market.market_id,
            placed_at: unix_timestamp,
            bettor: self.signer,
            amount,
            option: option_id,
            market: self.market_key,
            claimed: false,
        });
        let index = find_option(&self.market.market_options, option_id).unwrap();
        let liquidity = self.market.market_options[index].liquidity + amount;
        set_liquidity(&mut self.market.market_options, index, liquidity);
        let event = StakeEvent {
            bet_id,
            market_id: self.market.market_id,
            placed_at: unix_timestamp,
            bettor: self.signer,
            amount,
            option: option_id,
            market: self.market_key,
            claimed: false,
        };
        self.market.total_mc = self.market.total_mc + amount;
        Ok(StakeReceipt { vault_amount: amount, revenue_amount: share, event })
    }
}

/// A stake splits the amount sent between the vault and the revenue wallet
/// with nothing lost, and keeps a market's total equal to the sum of its
/// options' liquidity.
pub proof fn lemma_stake_keeps_books(
    old: Stake,
    bet_id: u64,
    option_id: u8,
    amount: u64,
    unix_timestamp: i64,
    new: Stake,
    r: Result<StakeReceipt, PumpstakeErrors>,
)
    requires
        place_bet_post(old, bet_id, option_id, amount, unix_timestamp, new, r),
        r is Ok,
        total_liquidity(old.market.market_options@) == old.market.total_mc,
    ensures
        r->Ok_0.vault_amount + r->Ok_0.revenue_amount == amount,
        total_liquidity(new.market.market_options@) == new.market.total_mc,
{
    let options = old.market.market_options@;
    lemma_option_index_found(options, option_id);
    let first = option_index(options, option_id);
    lemma_total_liquidity_update(
        options,
        first,
        with_liquidity(options[first], (options[first].liquidity + stake_net(amount)) as u64),
    );
}

/// A stake that goes ahead records the bet it was asked for: on the option
/// id staked on (the one the event reports), by the signer, for the net
/// amount sent to the vault, unclaimed; and that option's liquidity grows
/// by the same net amount.
pub proof fn lemma_stake_records_the_bet(
    old: Stake,
    bet_id: u64,
    option_id: u8,
    amount: u64,
    unix_timestamp: i64,
    new: Stake,
    r: Result<StakeReceipt, PumpstakeErrors>,
)
    requires
        place_bet_post(old, bet_id, option_id, amount, unix_timestamp, new, r),
        r is Ok,
    ensures
        new.bet is Some,
        new.bet->Some_0.option == option_id,
        new.bet->Some_0.bet_id == bet_id,
        new.bet->Some_0.bettor == old.signer,
        new.bet->Some_0.market == old.market_key,
        new.bet->Some_0.market_id == old.market.market_id,
        new.bet->Some_0.placed_at == unix_timestamp,
        new.bet->Some_0.amount == r->Ok_0.vault_amount,
        !new.bet->Some_0.claimed,
        r->Ok_0.event.option == option_id,
        r->Ok_0.event.amount == r->Ok_0.vault_amount,
        r->Ok_0.vault_amount + r->Ok_0.revenue_amount == amount,
        r->Ok_0.revenue_amount == amount * 2 / 100,
        option_liquidity(new.market.market_options@, option_id) == option_liquidity(
            old.market.market_options@,
            option_id,
        ) + r->Ok_0.vault_amount,
{
    let options = old.market.market_options@;
    lemma_option_index_found(options, option_id);
    let i = option_index(options, option_id);
    let updated = new.market.market_options@;
    assert forall|k: int| 0 <= k < options.len() implies updated[k].option_id == options[k].option_id by {}
    assert(crate::state::is_first_option(updated, option_id, i));
    crate::state::lemma_first_option_unique(updated, option_id, i);
}

} // verus!
