use pumpstake::utils::{
    calculate_tokens_out_raw, calculate_tokens_to_send, INITIAL_SOL_RESERVE, INITIAL_TOKEN_RESERVE, K,
    MAX_ALLOCATION, TOTAL_SUPPLY,
};

const SOL_RESERVE: u128 = 25_000_000_000;
const TOKEN_RESERVE: u128 = 1_000_000_000_000_000;

#[test]
fn constants_are_those_of_the_reference_pool() {
    assert_eq!(INITIAL_SOL_RESERVE, 25_000_000_000);
    assert_eq!(INITIAL_TOKEN_RESERVE, 1_000_000_000_000_000);
    assert_eq!(K, 25_000_000_000_000_000_000_000_000);
    assert_eq!(TOTAL_SUPPLY, INITIAL_TOKEN_RESERVE);
    assert_eq!(MAX_ALLOCATION, 30_000_000_000_000);
}

#[test]
fn raw_swap_output_for_a_tenth_of_a_sol() {
    assert_eq!(calculate_tokens_out_raw(100_000_000, SOL_RESERVE, TOKEN_RESERVE), 3_984_063_745_020);
}

#[test]
fn raw_swap_output_for_a_few_lamports() {
    assert_eq!(calculate_tokens_out_raw(300, SOL_RESERVE, TOKEN_RESERVE), 12_000_000);
    assert_eq!(calculate_tokens_out_raw(50, SOL_RESERVE, TOKEN_RESERVE), 2_000_000);
}

#[test]
fn winner_under_the_cap_gets_the_whole_output_and_no_refund() {
    assert_eq!(
        calculate_tokens_to_send(100_000_000, SOL_RESERVE, TOKEN_RESERVE, true),
        (3_984_063_745_020, 0)
    );
}

#[test]
fn loser_under_the_cap_gets_half_the_output_rounded_down() {
    assert_eq!(
        calculate_tokens_to_send(100_000_000, SOL_RESERVE, TOKEN_RESERVE, false),
        (1_992_031_872_510, 0)
    );
}

#[test]
fn winner_over_the_cap_gets_the_cap_and_a_refund() {
    // 1 SOL buys 38_461_538_461_539 tokens, over the cap; exactly the cap
    // costs 773_195_876 lamports.
    assert_eq!(
        calculate_tokens_to_send(1_000_000_000, SOL_RESERVE, TOKEN_RESERVE, true),
        (30_000_000_000_000, 226_804_124)
    );
}

#[test]
fn loser_over_the_cap_gets_the_cap_and_a_refund() {
    assert_eq!(
        calculate_tokens_to_send(2_000_000_000, SOL_RESERVE, TOKEN_RESERVE, false),
        (30_000_000_000_000, 1_226_804_124)
    );
}

#[test]
fn allocation_never_exceeds_the_cap_and_refund_never_exceeds_the_stake() {
    for sol_in in [1u64, 1_000, 1_000_000, 100_000_000, 1_000_000_000, 3_000_000_000] {
        for won in [true, false] {
            let (tokens, refund) = calculate_tokens_to_send(sol_in, SOL_RESERVE, TOKEN_RESERVE, won);
            assert!(tokens as u128 <= MAX_ALLOCATION);
            assert!(refund <= sol_in);
            if refund > 0 {
                assert_eq!(tokens as u128, MAX_ALLOCATION);
            }
        }
    }
}

#[test]
fn loser_never_gets_more_tokens_than_winner() {
    for sol_in in [1u64, 999, 100_000_000, 5_000_000_000] {
        let (won, _) = calculate_tokens_to_send(sol_in, SOL_RESERVE, TOKEN_RESERVE, true);
        let (lost, _) = calculate_tokens_to_send(sol_in, SOL_RESERVE, TOKEN_RESERVE, false);
        assert!(lost <= won);
    }
}

#[test]
fn more_sol_never_buys_fewer_tokens() {
    let mut previous = 0u128;
    for sol_in in [0u64, 1, 10, 1_000, 1_000_000, 1_000_000_000, 10_000_000_000] {
        let out = calculate_tokens_out_raw(sol_in, SOL_RESERVE, TOKEN_RESERVE);
        assert!(out >= previous);
        previous = out;
    }
}

#[test]
fn swap_keeps_the_product_up_to_rounding() {
    for sol_in in [1u64, 777, 100_000_000, 1_000_000_000] {
        let out = calculate_tokens_out_raw(sol_in, SOL_RESERVE, TOKEN_RESERVE);
        let new_sol = SOL_RESERVE + sol_in as u128;
        let new_token = TOKEN_RESERVE - out;
        assert!(new_sol * new_token <= K);
        assert!(K < new_sol * (new_token + 1));
    }
}
