//! The accounts that the program keeps.
use vstd::prelude::*;

use crate::solana::Pubkey;

verus! {

/// The most options a market may be created with.
pub const MAX_OPTIONS: u8 = 10;

/// What a market's creator tells about it.
#[derive(Debug, Clone)]
pub struct PredictionMarketParams {
    pub market_type: u8,
    pub ticker: String,
    pub name: String,
    pub image: String,
    pub description: String,
    pub twitter: String,
    pub website: String,
    pub telegram: String,
}

/// One outcome a market's bettors can stake on, with the stakes it holds.
#[derive(Debug, Clone)]
pub struct BettingOption {
    pub option_id: u8,
    pub name: String,
    pub image: String,
    pub description: String,
    pub liquidity: u64,
}

/// A prediction market.
#[derive(Debug, Clone)]
pub struct PredictionMarket {
    pub market_id: u64,
    pub bump: u8,
    pub owner: Pubkey,
    pub market_options: Vec<BettingOption>,
    pub start_time: i64,
    pub end_time: i64,
    pub is_active: bool,
    pub winner: Option<u8>,
    pub total_mc: u64,
    pub data: PredictionMarketParams,
    pub total_tokens: u64,
    pub graduate: Option<bool>,
    /// How much winner liquidity has been claimed
    pub claimed_winner_liquidity: u64,
    /// How much reward pool has been paid
    pub distributed_rewards: u64,
    pub winner_present: bool,
    /// The SOL side of the pool that prices the graduated token
    pub virtual_sol_reserve: u64,
}

/// One stake placed on a market.
#[derive(Debug, Clone, Copy)]
pub struct Bet {
    pub bet_id: u64,
    pub market_id: u64,
    pub placed_at: i64,
    pub bettor: Pubkey,
    pub amount: u64,
    pub option: u8,
    pub market: Pubkey,
    pub claimed: bool,
}

/// The state of a token's bonding pool.
#[derive(Debug, Clone)]
pub struct AMM {
    pub mint: Pubkey,
    pub uri: String,
    pub creator: Pubkey,
    pub cp_ratio: u64,
    pub sol_cap: u64,
    pub mint_cap: u64,
    pub sol_reserve_bump: u8,
    pub seed: u64,
    pub amm_bump: u8,
    pub mint_bump: u8,
}

/// What a token is created with.
#[derive(Debug, Clone)]
pub struct InitTokenParams {
    pub name: String,
    pub seed: u64,
    pub symbol: String,
    pub uri: String,
    pub sol_cap: u64,
    pub mint_cap: u64,
    pub decimals: u8,
}

/// `i` is the first position of an option whose id is `id`.
pub open spec fn is_first_option(options: Seq<BettingOption>, id: u8, i: int) -> bool {
    &&& 0 <= i < options.len()
    &&& options[i].option_id == id
    &&& forall|j: int| 0 <= j < i ==> options[j].option_id != id
}

/// Some option has the id `id`.
pub open spec fn has_option(options: Seq<BettingOption>, id: u8) -> bool {
    exists|i: int| 0 <= i < options.len() && options[i].option_id == id
}

/// The position of the first option whose id is `id`: the one that a search
/// from the front finds.
pub open spec fn option_index(options: Seq<BettingOption>, id: u8) -> int {
    choose|i: int| is_first_option(options, id, i)
}

/// The liquidity of the option that a search for `id` finds.
pub open spec fn option_liquidity(options: Seq<BettingOption>, id: u8) -> u64 {
    options[option_index(options, id)].liquidity
}

/// `option` with its liquidity replaced.
pub open spec fn with_liquidity(option: BettingOption, liquidity: u64) -> BettingOption {
    BettingOption { liquidity, ..option }
}

/// The options after the liquidity of the option found for `id` became `liquidity`.
pub open spec fn set_option_liquidity(options: Seq<BettingOption>, id: u8, liquidity: u64) -> Seq<BettingOption> {
    options.update(
        option_index(options, id),
        with_liquidity(options[option_index(options, id)], liquidity),
    )
}

/// There is at most one first option for an id.
pub proof fn lemma_first_option_unique(options: Seq<BettingOption>, id: u8, i: int)
    requires
        is_first_option(options, id, i),
    ensures
        option_index(options, id) == i,
        has_option(options, id),
{
    let k = option_index(options, id);
    assert(is_first_option(options, id, k));
    if k < i {
        assert(options[k].option_id != id);
    } else if i < k {
        assert(options[i].option_id != id);
    }
}

/// Searches the options from the front for the id `id`.
pub fn find_option(options: &Vec<BettingOption>, id: u8) -> (r: Option<usize>)
    ensures
        match r {
            Some(i) => is_first_option(options@, id, i as int) && i == option_index(options@, id),
            None => !has_option(options@, id),
        },
{
    let mut i: usize = 0;
    while i < options.len()
        invariant
            i <= options.len(),
            forall|j: int| 0 <= j < i ==> options@[j].option_id != id,
        decreases options.len() - i,
    {
        if options[i].option_id == id {
            proof {
                lemma_first_option_unique(options@, id, i as int);
            }
            return Some(i);
        }
        i = i + 1;
    }
    None
}

/// Sets the liquidity of the option at position `i`.
pub fn set_liquidity(options: &mut Vec<BettingOption>, i: usize, liquidity: u64)
    requires
        i < old(options).len(),
    ensures
        final(options)@ == old(options)@.update(i as int, with_liquidity(old(options)@[i as int], liquidity)),
{
    options[i].liquidity = liquidity;
}

/// The stakes held by all the options together.
pub open spec fn total_liquidity(options: Seq<BettingOption>) -> int
    decreases options.len(),
{
    if options.len() == 0 {
        0
    } else {
        total_liquidity(options.drop_last()) + options.last().liquidity
    }
}

/// Replacing one option changes the total by the difference of the two liquidities.
pub proof fn lemma_total_liquidity_update(options: Seq<BettingOption>, i: int, option: BettingOption)
    requires
        0 <= i < options.len(),
    ensures
        total_liquidity(options.update(i, option)) == total_liquidity(options) - options[i].liquidity
            + option.liquidity,
    decreases options.len(),
{
    let updated = options.update(i, option);
    if i == options.len() - 1 {
        assert(updated.drop_last() =~= options.drop_last());
    } else {
        lemma_total_liquidity_update(options.drop_last(), i, option);
        assert(updated.drop_last() =~= options.drop_last().update(i, option));
    }
}

/// Some position at or before `i` is the first one with the id `id`.
pub proof fn lemma_first_option_at_or_before(options: Seq<BettingOption>, id: u8, i: int) -> (first: int)
    requires
        0 <= i < options.len(),
        options[i].option_id == id,
    ensures
        is_first_option(options, id, first),
        first == option_index(options, id),
    decreases i,
{
    if forall|j: int| 0 <= j < i ==> options[j].option_id != id {
        lemma_first_option_unique(options, id, i);
        i
    } else {
        let j = choose|j: int| 0 <= j < i && options[j].option_id == id;
        lemma_first_option_at_or_before(options, id, j)
    }
}

/// Where an option has the id `id`, the search for it finds the first one.
pub proof fn lemma_option_index_found(options: Seq<BettingOption>, id: u8)
    requires
        has_option(options, id),
    ensures
        is_first_option(options, id, option_index(options, id)),
{
    let i = choose|i: int| 0 <= i < options.len() && options[i].option_id == id;
    lemma_first_option_at_or_before(options, id, i);
}

/// Changing the liquidity of the option found for one id leaves the option
/// found for any other id where it was, with its liquidity.
pub proof fn lemma_set_other_option_keeps(options: Seq<BettingOption>, id: u8, liquidity: u64, other: u8)
    requires
        has_option(options, id),
        has_option(options, other),
        id != other,
    ensures
        option_index(set_option_liquidity(options, id, liquidity), other) == option_index(options, other),
        option_liquidity(set_option_liquidity(options, id, liquidity), other) == option_liquidity(options, other),
        has_option(set_option_liquidity(options, id, liquidity), other),
{
    lemma_option_index_found(options, id);
    lemma_option_index_found(options, other);
    let updated = set_option_liquidity(options, id, liquidity);
    let j = option_index(options, other);
    assert forall|k: int| 0 <= k < options.len() implies updated[k].option_id == options[k].option_id by {}
    assert(is_first_option(updated, other, j));
    lemma_first_option_unique(updated, other, j);
}

} // verus!
