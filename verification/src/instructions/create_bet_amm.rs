use vstd::prelude::*;
use vstd::arithmetic::power::pow;

use crate::solana::{Pubkey, lamports_per_sol};
use crate::utils::{checked_pow10, pow10};
use crate::state::{AMM, InitTokenParams, PredictionMarket};

verus! {

/// Where a token's metadata is kept; the token's own uri is appended.
pub const URI_PREFIX: &'static str = "https://green-cheap-galliform-997.mypinata.cloud/ipfs/";

/// The accounts that opening a token's bonding pool reads and writes.
pub struct InitalizeAmm {
    pub signer: Pubkey,
    pub market: PredictionMarket,
    pub mint: Pubkey,
    /// The decimals the mint was created with.
    pub mint_decimals: u8,
    /// The pool's account, written when the pool is opened.
    pub amm: Option<AMM>,
}

/// The bump seeds of the accounts derived for a pool.
#[derive(Debug, Clone, Copy)]
pub struct InitalizeAmmBumps {
    pub mint: u8,
    pub amm: u8,
    pub sol_reserve: u8,
}

/// The metadata a token is created with.
#[derive(Debug, Clone)]
pub struct TokenMetadata {
    pub name: String,
    pub symbol: String,
    pub uri: String,
    pub seller_fee_basis_points: u16,
    /// Whether the metadata lists creators.
    pub has_creators: bool,
    /// Whether the token belongs to a collection.
    pub has_collection: bool,
    /// Whether the token has limited uses.
    pub has_uses: bool,
    /// Whether the metadata can be changed later.
    pub is_mutable: bool,
    /// Whether the update authority signs the creation.
    pub update_authority_is_signer: bool,
}

/// A billion whole tokens with the mint's decimals fit in a `u64`.
pub open spec fn reserve_supply_fits(decimals: u8) -> bool {
    1_000_000_000 * pow(10, decimals as nat) <= u64::MAX
}

/// The caps of a pool in base units fit in a `u64`.
pub open spec fn amm_caps_fit(metadata: InitTokenParams, decimals: u8) -> bool {
    &&& metadata.sol_cap * 1_000_000_000 <= u64::MAX
    &&& pow(10, decimals as nat) <= u64::MAX
    &&& metadata.mint_cap * pow(10, decimals as nat) <= u64::MAX
}

/// The pool's product of caps, or zero where it overflows.
pub open spec fn cp_ratio(metadata: InitTokenParams) -> u64 {
    if metadata.mint_cap * metadata.sol_cap <= u64::MAX {
        (metadata.mint_cap * metadata.sol_cap) as u64
    } else {
        0
    }
}

/// The pool's account after it is opened.
pub open spec fn amm_matches(a: InitalizeAmm, metadata: InitTokenParams, bumps: InitalizeAmmBumps, amm: AMM) -> bool {
    &&& amm.mint == a.mint
    &&& amm.uri@ == metadata.uri@
    &&& amm.creator == a.signer
    &&& amm.cp_ratio == cp_ratio(metadata)
    &&& amm.sol_cap == metadata.sol_cap * 1_000_000_000
    &&& amm.mint_cap == metadata.mint_cap * pow(10, a.mint_decimals as nat)
    &&& amm.sol_reserve_bump == bumps.sol_reserve
    &&& amm.amm_bump == bumps.amm
    &&& amm.mint_bump == bumps.mint
    &&& amm.seed == metadata.seed
}

/// Whether a billion whole tokens with `decimals` fit in a `u64`.
pub fn check_reserve_supply_fits(decimals: u8) -> (r: bool)
    ensures
        r == reserve_supply_fits(decimals),
{
    match checked_pow10(decimals) {
        None => {
            proof {
                assert(1_000_000_000 * pow(10, decimals as nat) > u64::MAX) by (nonlinear_arith)
                    requires
                        pow(10, decimals as nat) > u64::MAX,
                ;
            }
            false
        },
        Some(power) => power.checked_mul(1_000_000_000).is_some(),
    }
}

/// Whether the caps of a pool in base units fit in a `u64`.
pub fn check_amm_caps_fit(metadata: &InitTokenParams, decimals: u8) -> (r: bool)
    ensures
        r == amm_caps_fit(*metadata, decimals),
{
    if metadata.sol_cap.checked_mul(1_000_000_000).is_none() {
        return false;
    }
    match checked_pow10(decimals) {
        None => false,
        Some(power) => metadata.mint_cap.checked_mul(power).is_some(),
    }
}

impl InitalizeAmm {
    /// The token's metadata: its name and symbol, its uri under
    /// `URI_PREFIX`, no seller fee, no creators, collection or uses; it is
    /// immutable, and its update authority signs its creation.
    pub fn create_mint(&mut self, metadata: &InitTokenParams, bumps: &InitalizeAmmBumps) -> (r: TokenMetadata)
        ensures
            *final(self) == *old(self),
            r.name@ == metadata.name@,
            r.symbol@ == metadata.symbol@,
            r.uri@ == URI_PREFIX@ + metadata.uri@,
            r.seller_fee_basis_points == 0,
            !r.has_creators && !r.has_collection && !r.has_uses,
            !r.is_mutable,
            r.update_authority_is_signer,
    {
        let mut uri_prefix = URI_PREFIX.to_owned();
        uri_prefix.append(metadata.uri.as_str());
        TokenMetadata {
            name: metadata.name.clone(),
            symbol: metadata.symbol.clone(),
            uri: uri_prefix,
            seller_fee_basis_points: 0,
            has_creators: false,
            has_collection: false,
            has_uses: false,
            is_mutable: false,
            update_authority_is_signer: true,
        }
    }

    /// The supply minted into the pool's reserve: a billion whole tokens.
    pub fn mint_to_reserve(&self, bumps: &InitalizeAmmBumps) -> (r: u64)
        requires
            reserve_supply_fits(self.mint_decimals),
        ensures
            r == 1_000_000_000 * pow(10, self.mint_decimals as nat),
    {
        proof {
            assert(pow(10, self.mint_decimals as nat) <= u64::MAX) by (nonlinear_arith)
                requires
                    1_000_000_000 * pow(10, self.mint_decimals as nat) <= u64::MAX,
            ;
        }
        let amount = 1_000_000_000 * pow10(self.mint_decimals);
        amount
    }

    /// Opens the pool: its caps in base units (the SOL cap in lamports, the
    /// mint cap with the mint's decimals), their product where it fits, the
    /// creator, the mint and the bumps.
    pub fn init_amm_state(&mut self, metadata: &InitTokenParams, bumps: &InitalizeAmmBumps)
        requires
            amm_caps_fit(*metadata, old(self).mint_decimals),
        ensures
            final(self).amm is Some,
            amm_matches(*old(self), *metadata, *bumps, final(self).amm->Some_0),
            final(self).signer == old(self).signer,
            final(self).market == old(self).market,
            final(self).mint == old(self).mint,
            final(self).mint_decimals == old(self).mint_decimals,
    {
        let cp_ratio = match metadata.mint_cap.checked_mul(metadata.sol_cap) {
            Some(val) => val,
            None => 0,
        };
        let sol_cap = metadata.sol_cap.checked_mul(lamports_per_sol()).unwrap();
        let mint_cap = metadata.mint_cap.checked_mul(pow10(self.mint_decimals)).unwrap();
        self.amm = Some(AMM {
            mint: self.mint,
            uri: metadata.uri.clone(),
            creator: self.signer,
            cp_ratio,
            sol_cap,
            mint_cap,
            sol_reserve_bump: bumps.sol_reserve,
            amm_bump: bumps.amm,
            mint_bump: bumps.mint,
            seed: metadata.seed,
        });
    }
}

} // verus!
