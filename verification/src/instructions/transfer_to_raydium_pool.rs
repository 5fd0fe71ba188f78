use vstd::prelude::*;

use crate::events::TokenDataForRaydium;
use crate::solana::Pubkey;
use crate::state::PredictionMarket;

verus! {

/// The accounts that handing a graduated market's SOL and tokens to its
/// creator reads and writes.
pub struct TransferTokensToCreator {
    pub signer: Pubkey,
    pub market_creator: Pubkey,
    pub market: PredictionMarket,
    pub mint: Pubkey,
    /// The lamports that the market's vault holds.
    pub market_vault_lamports: u64,
    /// The tokens that the market's reserve holds.
    pub token_reserve_amount: u64,
}

/// What the hand-over reports: all the vault's lamports, as wrapped SOL,
/// and all the reserve's tokens go to the creator.
pub open spec fn raydium_data(t: TransferTokensToCreator) -> TokenDataForRaydium {
    TokenDataForRaydium {
        wsol_amount: t.market_vault_lamports,
        token_amount: t.token_reserve_amount,
        mint: t.mint,
        market_owner: t.market.owner,
    }
}

impl TransferTokensToCreator {
    /// Empties the market's vault into the creator's wrapped-SOL account and
    /// its token reserve into the creator's token account; returns what to
    /// move and report.
    pub fn transfer_tokens_to_creator_ata(&mut self) -> (r: TokenDataForRaydium)
        ensures
            r == raydium_data(*old(self)),
            *final(self) == *old(self),
    {
        let balance = self.market_vault_lamports;
        let tokens_to_send = self.token_reserve_amount;
        TokenDataForRaydium {
            wsol_amount: balance,
            token_amount: tokens_to_send,
            mint: self.mint,
            market_owner: self.market.owner,
        }
    }
}

} // verus!
