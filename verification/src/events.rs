//! What the program reports of its instructions.
use vstd::prelude::*;

use crate::solana::Pubkey;

verus! {

/// Reported when a stake is placed.
#[derive(Debug, Clone, Copy)]
pub struct StakeEvent {
    pub bet_id: u64,
    pub market_id: u64,
    pub placed_at: i64,
    pub bettor: Pubkey,
    pub amount: u64,
    pub option: u8,
    pub market: Pubkey,
    pub claimed: bool,
}

/// Reported when a graduated market's SOL and tokens go to its creator, for
/// the liquidity pool to be opened with.
#[derive(Debug, Clone, Copy)]
pub struct TokenDataForRaydium {
    pub wsol_amount: u64,
    pub token_amount: u64,
    pub mint: Pubkey,
    pub market_owner: Pubkey,
}

} // verus!
