use vstd::prelude::*;
use vstd::arithmetic::power::pow;

use crate::error::PumpstakeErrors;
use crate::solana::{
    Pubkey, associated_token_address, keys_eq, transfer_fee_mint_len, try_associated_token_address,
};
use crate::state::PredictionMarket;
use crate::utils::pow10;

verus! {

/// The decimals of a graduated market's token.
pub const COIN_DECIMALS: u8 = 6;

/// The transfer fee of a graduated market's token, in basis points: 2 %.
pub const TRANSFER_FEE_BASIS_POINTS: u16 = 200;

/// The accounts that creating a graduated market's token reads and writes.
pub struct CreateCoin {
    pub signer: Pubkey,
    /// The market account's own address.
    pub market_key: Pubkey,
    pub market: PredictionMarket,
    pub mint: Pubkey,
    /// The metadata account of the mint.
    pub metadata: Pubkey,
    /// The revenue wallet, which collects the transfer fees.
    pub revenue: Pubkey,
    /// The account that receives the supply: it must be the market's
    /// associated token account for the mint.
    pub token_reserve: Pubkey,
    pub token_program: Pubkey,
}

/// How the token's mint is set up.
#[derive(Debug, Clone, Copy)]
pub struct MintSetup {
    /// The bytes of the mint account: a mint with the transfer-fee extension.
    pub account_len: usize,
    pub decimals: u8,
    pub transfer_fee_basis_points: u16,
    pub maximum_fee: u64,
    /// Who may change the transfer fee.
    pub transfer_fee_config_authority: Pubkey,
    /// Who may withdraw the withheld fees.
    pub withdraw_withheld_authority: Pubkey,
    /// Who may mint: the mint account itself.
    pub mint_authority: Pubkey,
    /// Who may freeze token accounts: nobody.
    pub freeze_authority: Option<Pubkey>,
}

/// What is minted into the market's reserve, and the token's metadata.
#[derive(Debug, Clone)]
pub struct ReserveMint {
    pub amount: u64,
    pub decimals: u8,
    pub name: String,
    pub symbol: String,
    pub uri: String,
}

/// The supply of a graduated market's token: a billion whole tokens.
pub open spec fn coin_supply() -> int {
    1_000_000_000 * pow(10, COIN_DECIMALS as nat)
}

/// The first check that refuses setting up the mint, if any.
pub open spec fn create_mint_refusal(c: CreateCoin) -> Option<PumpstakeErrors> {
    if !c.market.winner_present {
        Some(PumpstakeErrors::RefundOnly)
    } else if c.market.graduate != Some(true) {
        Some(PumpstakeErrors::TokenCreationNotAllowed)
    } else if c.market.is_active {
        Some(PumpstakeErrors::MarketActive)
    } else {
        None
    }
}

/// The mint's setup: an account of 278 bytes, 6 decimals, a 2 % transfer fee
/// without a maximum whose authorities are the revenue wallet, the mint as
/// its own mint authority, and no freeze authority.
pub open spec fn mint_setup(c: CreateCoin) -> MintSetup {
    MintSetup {
        account_len: 278,
        decimals: COIN_DECIMALS,
        transfer_fee_basis_points: TRANSFER_FEE_BASIS_POINTS,
        maximum_fee: u64::MAX,
        transfer_fee_config_authority: c.revenue,
        withdraw_withheld_authority: c.revenue,
        mint_authority: c.mint,
        freeze_authority: None,
    }
}

/// The reserve address cannot be derived: no bump seed gives the market's
/// associated token account for the mint.
pub open spec fn reserve_underivable(c: CreateCoin) -> bool {
    associated_token_address(c.market_key@, c.mint@, c.token_program@) is None
}

/// The first check that refuses minting the supply, if any, once the
/// reserve's address could be derived.
pub open spec fn mint_to_reserve_refusal(c: CreateCoin) -> Option<PumpstakeErrors> {
    if c.market.graduate != Some(true) {
        Some(PumpstakeErrors::TokenCreationNotAllowed)
    } else if associated_token_address(c.market_key@, c.mint@, c.token_program@) != Some(c.token_reserve@) {
        Some(PumpstakeErrors::IncorrectAtaPassed)
    } else {
        None
    }
}

/// The minted supply and the token's metadata, taken from the market's
/// name, ticker and image.
pub open spec fn reserve_mint_matches(c: CreateCoin, m: ReserveMint) -> bool {
    &&& m.amount == coin_supply()
    &&& m.decimals == COIN_DECIMALS
    &&& m.name@ == c.market.data.name@
    &&& m.symbol@ == c.market.data.ticker@
    &&& m.uri@ == c.market.data.image@
}

/// The result of `mint_to_reserve`: `None` exactly where the market graduated
/// and the reserve's address cannot be derived (there the derivation panics);
/// else the first refusal, or the supply and metadata.
pub open spec fn mint_to_reserve_result(c: CreateCoin, r: Option<Result<ReserveMint, PumpstakeErrors>>) -> bool {
    if c.market.graduate == Some(true) && reserve_underivable(c) {
        r is None
    } else {
        &&& r is Some
        &&& match mint_to_reserve_refusal(c) {
            Some(e) => r->Some_0 is Err && r->Some_0->Err_0 == e,
            None => r->Some_0 is Ok && reserve_mint_matches(c, r->Some_0->Ok_0),
        }
    }
}

/// The powers of ten up to the sixth fit in a `u64`.
proof fn lemma_coin_supply()
    ensures
        pow(10, 6) == 1_000_000,
        coin_supply() == 1_000_000_000_000_000,
{
    reveal_with_fuel(pow, 7);
}

impl CreateCoin {
    /// Checks that the market graduated and sets up its token's mint.
    pub fn create_mint(&mut self) -> (r: Result<MintSetup, PumpstakeErrors>)
        requires
            old(self).market.winner_present ==> old(self).market.graduate is Some,
        ensures
            *final(self) == *old(self),
            match create_mint_refusal(*old(self)) {
                Some(e) => r == Err::<MintSetup, PumpstakeErrors>(e),
                None => r == Ok::<MintSetup, PumpstakeErrors>(mint_setup(*old(self))),
            },
    {
        if !self.market.winner_present {
            return Err(PumpstakeErrors::RefundOnly);
        }
        if !self.market.graduate.unwrap() {
            return Err(PumpstakeErrors::TokenCreationNotAllowed);
        }
        if !(self.market.is_active == false) {
            return Err(PumpstakeErrors::MarketActive);
        }
        let space = transfer_fee_mint_len().unwrap();
        Ok(MintSetup {
            account_len: space,
            decimals: 6,
            transfer_fee_basis_points: 200,
            maximum_fee: u64::MAX,
            transfer_fee_config_authority: self.revenue,
            withdraw_withheld_authority: self.revenue,
            mint_authority: self.mint,
            freeze_authority: None,
        })
    }

    /// Checks that the reserve is the market's associated token account for
    /// the mint, and gives the supply to mint into it with the metadata.
    /// `None` where that account's address cannot be derived.
    pub fn mint_to_reserve(&self) -> (r: Option<Result<ReserveMint, PumpstakeErrors>>)
        requires
            self.market.graduate is Some,
        ensures
            mint_to_reserve_result(*self, r),
    {
        if !self.market.graduate.unwrap() {
            return Some(Err(PumpstakeErrors::TokenCreationNotAllowed));
        }
        let ata = match try_associated_token_address(&self.market_key, &self.mint, &self.token_program) {
            None => {
                return None;
            },
            Some(ata) => ata,
        };
        if !keys_eq(&ata, &self.token_reserve) {
            return Some(Err(PumpstakeErrors::IncorrectAtaPassed));
        }
        proof {
            lemma_coin_supply();
        }
        let amount = 1_000_000_000 * pow10(6);
        Some(
            Ok(ReserveMint {
                amount,
                decimals: 6,
                name: self.market.data.name.clone(),
                symbol: self.market.data.ticker.clone(),
                uri: self.market.data.image.clone(),
            }),
        )
    }
}

} // verus!
