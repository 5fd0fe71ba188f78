//! The calls into the Solana crates that the market rules make.
use vstd::prelude::*;

verus! {

/// An account address: the 32 bytes of an ed25519 public key or of a
/// program-derived address.
#[derive(Clone, Copy, Debug)]
pub struct Pubkey {
    pub bytes: [u8; 32],
}

impl View for Pubkey {
    type V = Seq<u8>;

    open spec fn view(&self) -> Seq<u8> {
        self.bytes@
    }
}

impl Pubkey {
    /// The address made of these 32 bytes.
    pub fn new_from_array(bytes: [u8; 32]) -> (r: Pubkey)
        ensures
            r@ == bytes@,
    {
        Pubkey { bytes }
    }

    /// The address's 32 bytes.
    pub fn to_bytes(&self) -> (r: [u8; 32])
        ensures
            r@ == self@,
    {
        self.bytes
    }
}

/// Whether two addresses are the same.
pub fn keys_eq(a: &Pubkey, b: &Pubkey) -> (r: bool)
    ensures
        r == (a@ == b@),
{
    let mut i: usize = 0;
    while i < 32
        invariant
            i <= 32,
            a@.len() == 32,
            b@.len() == 32,
            forall|j: int| 0 <= j < i ==> a@[j] == b@[j],
        decreases 32 - i,
    {
        if a.bytes[i] != b.bytes[i] {
            return false;
        }
        i = i + 1;
    }
    assert(a@ =~= b@);
    true
}

/// The key that `Pubkey::from_str` decodes from base58 text, or `None` where
/// it refuses the text.
pub uninterp spec fn parse_pubkey(text: Seq<char>) -> Option<Seq<u8>>;

/// Calls `Pubkey::from_str` of solana-program, re-exported by anchor-lang.
/// Its result depends on the text alone; it is named `parse_pubkey`, and an
/// error comes back as `None`. Nothing more is stated of base58 decoding.
#[verifier::external_body]
pub(crate) fn pubkey_from_str(text: &str) -> (r: Option<Pubkey>)
    ensures
        parse_pubkey(text@) == (match r {
            Some(k) => Some(k@),
            None => None::<Seq<u8>>,
        }),
{
    match text.parse::<anchor_lang::prelude::Pubkey>() {
        Ok(k) => Some(Pubkey { bytes: k.to_bytes() }),
        Err(_) => None,
    }
}

/// The associated token account of `wallet` for `mint` under
/// `token_program`: the program-derived address that
/// `Pubkey::try_find_program_address` finds for the associated-token seeds,
/// or `None` where no bump seed gives one.
pub uninterp spec fn associated_token_address(wallet: Seq<u8>, mint: Seq<u8>, token_program: Seq<u8>) -> Option<Seq<u8>>;

/// Calls `Pubkey::try_find_program_address` of solana-program, re-exported by
/// anchor-lang, with the seeds that `get_associated_token_address_with_program_id`
/// of spl-associated-token-account uses (wallet, token program, mint) under
/// the associated token program's id. Its result depends on the three keys
/// alone; it is named `associated_token_address`, `None` where no bump seed
/// gives an address off the curve (where the original's function panics).
#[verifier::external_body]
pub(crate) fn try_associated_token_address(wallet: &Pubkey, mint: &Pubkey, token_program: &Pubkey) -> (r: Option<Pubkey>)
    ensures
        associated_token_address(wallet@, mint@, token_program@) == (match r {
            Some(k) => Some(k@),
            None => None::<Seq<u8>>,
        }),
{
    let found = anchor_lang::prelude::Pubkey::try_find_program_address(
        &[&wallet.bytes, &token_program.bytes, &mint.bytes],
        &anchor_spl::associated_token::ID,
    );
    match found {
        Some((address, _bump)) => Some(Pubkey { bytes: address.to_bytes() }),
        None => None,
    }
}

/// Calls `ExtensionType::try_calculate_account_len` of spl-token-2022,
/// re-exported by anchor-spl, for a mint with the transfer-fee extension
/// alone: the 165 bytes of a base account, one byte of account type, and
/// the extension's 4 bytes of type and length with its 108 bytes of data,
/// 278 in all. The source returns an error only for an extension of
/// variable length, which this one is not.
#[verifier::external_body]
pub(crate) fn transfer_fee_mint_len() -> (r: Option<usize>)
    ensures
        r == Some(278usize),
{
    match anchor_spl::token_2022::spl_token_2022::extension::ExtensionType::try_calculate_account_len::<
        anchor_spl::token_2022::spl_token_2022::state::Mint,
    >(&[anchor_spl::token_2022::spl_token_2022::extension::ExtensionType::TransferFeeConfig]) {
        Ok(len) => Some(len),
        Err(_) => None,
    }
}

/// Reads `LAMPORTS_PER_SOL` of solana-program's `native_token` module,
/// re-exported by anchor-lang: one SOL is a billion lamports.
#[verifier::external_body]
pub(crate) fn lamports_per_sol() -> (r: u64)
    ensures
        r == 1_000_000_000,
{
    anchor_lang::solana_program::native_token::LAMPORTS_PER_SOL
}

} // verus!
