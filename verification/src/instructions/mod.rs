//! The program's instructions, each over the accounts it reads and writes.
pub mod claim_reward;
pub mod claim_token_reward;
pub mod create_prediction_market;
pub mod refund;
pub mod resolve_market;
pub mod stake;
pub mod create_coin;
pub mod create_bet_amm;
pub mod transfer_to_raydium_pool;
