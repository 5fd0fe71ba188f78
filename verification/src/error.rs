use vstd::prelude::*;

verus! {

/// Why an instruction of the program is refused.
#[derive(Debug, Clone, Copy, PartialEq, Eq, Structural)]
pub enum PumpstakeErrors {
    /// Market already expired. Cannot place bet
    MarketExpired,
    /// Market is still active
    MarketActive,
    /// Not authorized to execute the instruction
    NotAuthorized,
    /// Number of options exceed max options
    MaxOptionsExceeded,
    /// Bettor pubkey and reciever dont match
    IncorrectReceivor,
    /// Not enough liquidity to graduate
    InsufficientLiquidityToGraduate,
    /// Enough liquidity to graduate. Cannot refund
    SufficientLiquidityToGraduate,
    /// cannot create token. market cannot graduate
    TokenCreationNotAllowed,
    /// No tokens present in the vault
    NoFundsInVault,
    /// Bet reward already claimed
    RewardAlreadyClaimed,
    /// Winner already present. Cannot refund
    CannotRefund,
    /// Cannot proceed. Please refund all the amounts
    RefundOnly,
    /// Incorrect revenue wallet. Please provide correct one
    IncorrectRevenueWallet,
    /// Incorrect ATA passed while creating coin
    IncorrectAtaPassed,
}

/// The message that the program reports with an error.
pub open spec fn error_message(e: PumpstakeErrors) -> Seq<char> {
    match e {
        PumpstakeErrors::MarketExpired => "Market already expired. Cannot place bet"@,
        PumpstakeErrors::MarketActive => "Market is still active"@,
        PumpstakeErrors::NotAuthorized => "Not authorized to execute the instruction"@,
        PumpstakeErrors::MaxOptionsExceeded => "Number of options exceed max options"@,
        PumpstakeErrors::IncorrectReceivor => "Bettor pubkey and reciever dont match"@,
        PumpstakeErrors::InsufficientLiquidityToGraduate => "Not enough liquidity to graduate"@,
        PumpstakeErrors::SufficientLiquidityToGraduate => "Enough liquidity to graduate. Cannot refund"@,
        PumpstakeErrors::TokenCreationNotAllowed => "cannot create token. market cannot graduate"@,
        PumpstakeErrors::NoFundsInVault => "No tokens present in the vault"@,
        PumpstakeErrors::RewardAlreadyClaimed => "Bet reward already claimed"@,
        PumpstakeErrors::CannotRefund => "Winner already present. Cannot refund"@,
        PumpstakeErrors::RefundOnly => "Cannot proceed. Please refund all the amounts"@,
        PumpstakeErrors::IncorrectRevenueWallet => "Incorrect revenue wallet. Please provide correct one"@,
        PumpstakeErrors::IncorrectAtaPassed => "Incorrect ATA passed while creating coin"@,
    }
}

impl PumpstakeErrors {
    /// The message that the program reports with the error.
    pub fn message(&self) -> (r: &'static str)
        ensures
            r@ == error_message(*self),
    {
        match self {
            PumpstakeErrors::MarketExpired => "Market already expired. Cannot place bet",
            PumpstakeErrors::MarketActive => "Market is still active",
            PumpstakeErrors::NotAuthorized => "Not authorized to execute the instruction",
            PumpstakeErrors::MaxOptionsExceeded => "Number of options exceed max options",
            PumpstakeErrors::IncorrectReceivor => "Bettor pubkey and reciever dont match",
            PumpstakeErrors::InsufficientLiquidityToGraduate => "Not enough liquidity to graduate",
            PumpstakeErrors::SufficientLiquidityToGraduate => "Enough liquidity to graduate. Cannot refund",
            PumpstakeErrors::TokenCreationNotAllowed => "cannot create token. market cannot graduate",
            PumpstakeErrors::NoFundsInVault => "No tokens present in the vault",
            PumpstakeErrors::RewardAlreadyClaimed => "Bet reward already claimed",
            PumpstakeErrors::CannotRefund => "Winner already present. Cannot refund",
            PumpstakeErrors::RefundOnly => "Cannot proceed. Please refund all the amounts",
            PumpstakeErrors::IncorrectRevenueWallet => "Incorrect revenue wallet. Please provide correct one",
            PumpstakeErrors::IncorrectAtaPassed => "Incorrect ATA passed while creating coin",
        }
    }
}

} // verus!
