//! Prediction markets whose winning side graduates into a token launch.
//!
//! The library holds the market rules: staking, resolution, refunds, the
//! payout of the losing pool to the winners, and the constant-product
//! pricing of the tokens handed out after a market graduates.

pub mod clock;
pub mod error;
pub mod events;
pub mod instructions;
pub mod payout;
pub mod pumpstake;
pub mod solana;
pub mod state;
pub mod utils;
