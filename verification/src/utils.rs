use vstd::prelude::*;
use vstd::arithmetic::power::{lemma_pow_increases, pow};
use vstd::arithmetic::div_mod::{lemma_div_is_ordered_by_denominator, lemma_fundamental_div_mod};

verus! {

/// Lamports in one SOL (9 decimals).
pub const LAMPORTS_PER_SOL: u128 = 1_000_000_000;

/// Base units in one token (6 decimals).
pub const TOKEN_DECIMALS: u128 = 1_000_000;

/// Reference SOL reserve of the pool: 25 SOL.
pub const INITIAL_SOL_RESERVE: u128 = 25 * LAMPORTS_PER_SOL;

/// Reference token reserve of the pool: one billion tokens.
pub const INITIAL_TOKEN_RESERVE: u128 = 1_000_000_000 * TOKEN_DECIMALS;

/// The pool's invariant product `k = sol_reserve * token_reserve`.
#[verifier::nonlinear]
pub const K: u128 = INITIAL_SOL_RESERVE * INITIAL_TOKEN_RESERVE;

/// Total supply of a graduated token: one billion tokens.
pub const TOTAL_SUPPLY: u128 = INITIAL_TOKEN_RESERVE;

/// The cap on what one claim may allocate: 3 % of the supply.
pub const MAX_ALLOCATION: u128 = TOTAL_SUPPLY * 3 / 100;

/// Tokens that leave a pool holding `token_reserve` tokens when `sol_in`
/// lamports are added to its `sol_reserve`, the product being `K`.
pub open spec fn tokens_out_raw(sol_in: int, sol_reserve: int, token_reserve: int) -> int {
    token_reserve - (K as int) / (sol_reserve + sol_in)
}

/// The swap is computable: the new SOL reserve fits and is not zero, and the
/// pool holds at least the tokens that stay in it.
pub open spec fn tokens_out_raw_defined(sol_in: u64, sol_reserve: u128, token_reserve: u128) -> bool {
    &&& sol_reserve + sol_in <= u128::MAX
    &&& sol_reserve + sol_in > 0
    &&& (K as int) / (sol_reserve + sol_in) <= token_reserve
}

/// AMM raw swap: "if you send `sol_in`, how many tokens come out?"
pub fn calculate_tokens_out_raw(sol_in: u64, sol_reserve: u128, token_reserve: u128) -> (result: u128)
    requires
        tokens_out_raw_defined(sol_in, sol_reserve, token_reserve),
    ensures
        result == tokens_out_raw(sol_in as int, sol_reserve as int, token_reserve as int),
{
    let new_sol = sol_reserve.checked_add(sol_in as u128).unwrap();
    let new_token = K.checked_div(new_sol).unwrap();
    let result: u128 = token_reserve - new_token;
    result
}

/// Tokens earned before the cap: the whole swap output for a winner, half of
/// it (rounded down) for a loser.
pub open spec fn allocation(sol_in: int, sol_reserve: int, token_reserve: int, is_winner: bool) -> int {
    let raw = tokens_out_raw(sol_in, sol_reserve, token_reserve);
    if is_winner {
        raw
    } else {
        raw / 2
    }
}

/// Lamports that buy exactly `MAX_ALLOCATION` tokens from the pool.
pub open spec fn cap_sol_spent(sol_reserve: int, token_reserve: int) -> int {
    (K as int) / (token_reserve - MAX_ALLOCATION) - sol_reserve
}

/// The allocation is computable: the swap is, and when the cap is hit the
/// cost of the capped tokens lies between zero and what was sent.
pub open spec fn tokens_to_send_defined(
    sol_in: u64,
    sol_reserve: u128,
    token_reserve: u128,
    is_winner: bool,
) -> bool {
    &&& tokens_out_raw_defined(sol_in, sol_reserve, token_reserve)
    &&& allocation(sol_in as int, sol_reserve as int, token_reserve as int, is_winner)
        > MAX_ALLOCATION ==> 0 <= cap_sol_spent(sol_reserve as int, token_reserve as int) <= sol_in
}

/// `(tokens_allocated, sol_refund)`: under the cap every token earned and no
/// refund; over it exactly `MAX_ALLOCATION` tokens and back what they did not cost.
pub open spec fn tokens_to_send(sol_in: int, sol_reserve: int, token_reserve: int, is_winner: bool) -> (
    int,
    int,
) {
    let tokens = allocation(sol_in, sol_reserve, token_reserve, is_winner);
    if tokens <= MAX_ALLOCATION {
        (tokens, 0)
    } else {
        (MAX_ALLOCATION as int, sol_in - cap_sol_spent(sol_reserve, token_reserve))
    }
}

/// Given:
///  - sol_in        : how many lamports of SOL the user sent
///  - sol_reserve   : current SOL reserve (lamports)
///  - token_reserve : current token reserve (base units, 6 decimals)
///  - is_winner     : whether they get the full output or only half
///
/// Returns (tokens_allocated, sol_refund)
pub fn calculate_tokens_to_send(sol_in: u64, sol_reserve: u128, token_reserve: u128, is_winner: bool) -> (result: (
    u64,
    u64,
))
    requires
        tokens_to_send_defined(sol_in, sol_reserve, token_reserve, is_winner),
    ensures
        result.0 == tokens_to_send(sol_in as int, sol_reserve as int, token_reserve as int, is_winner).0,
        result.1 == tokens_to_send(sol_in as int, sol_reserve as int, token_reserve as int, is_winner).1,
        ({
            let raw = token_reserve - (K as int) / (sol_reserve + sol_in);
            let earned = if is_winner {
                raw
            } else {
                raw / 2
            };
            &&& earned <= MAX_ALLOCATION ==> result.0 == earned && result.1 == 0
            &&& earned > MAX_ALLOCATION ==> result.0 == MAX_ALLOCATION && result.1 == sol_in - ((K as int)
                / (token_reserve - MAX_ALLOCATION) - sol_reserve)
        }),
{
    // 1) Raw AMM swap output
    let mut tokens = calculate_tokens_out_raw(sol_in, sol_reserve, token_reserve);

    // 2) Apply loser penalty
    if !is_winner {
        tokens /= 2;
    }
    // 3) If under cap, no refund
    if tokens <= MAX_ALLOCATION {
        return (tokens as u64, 0);
    }
    // 4) Cap hit: user gets exactly MAX_ALLOCATION tokens.

    let allocated = MAX_ALLOCATION;

    // 5) Figure out how much SOL buys exactly `allocated` tokens:
    //    new_token_reserve = token_reserve - allocated
    let new_token_reserve = token_reserve.checked_sub(allocated).unwrap();
    //    new_sol_reserve   = K / new_token_reserve
    let new_sol_reserve = K.checked_div(new_token_reserve).unwrap();
    //    sol_spent         = new_sol_reserve - old sol_reserve
    let sol_spent = new_sol_reserve.checked_sub(sol_reserve).unwrap();

    // 6) Refund = what they sent minus what was actually spent
    let sol_refund = (sol_in as u128).checked_sub(sol_spent).unwrap();

    (allocated as u64, sol_refund as u64)
}

/// Whether `calculate_tokens_to_send` runs without a panic on these inputs.
pub fn check_tokens_to_send_defined(sol_in: u64, sol_reserve: u128, token_reserve: u128, is_winner: bool) -> (r: bool)
    ensures
        r == tokens_to_send_defined(sol_in, sol_reserve, token_reserve, is_winner),
{
    let new_sol = match sol_reserve.checked_add(sol_in as u128) {
        None => {
            return false;
        },
        Some(v) => v,
    };
    if new_sol == 0 {
        return false;
    }
    let new_token = K / new_sol;
    if new_token > token_reserve {
        return false;
    }
    let raw = token_reserve - new_token;
    let tokens = if is_winner {
        raw
    } else {
        raw / 2
    };
    if tokens <= MAX_ALLOCATION {
        return true;
    }
    let capped_sol_reserve = K / (token_reserve - MAX_ALLOCATION);
    capped_sol_reserve >= sol_reserve && capped_sol_reserve - sol_reserve <= sol_in as u128
}

/// Ten to the `exp`, where it fits in a `u64`.
pub fn checked_pow10(exp: u8) -> (r: Option<u64>)
    ensures
        r is Some <==> pow(10, exp as nat) <= u64::MAX,
        r matches Some(v) ==> v == pow(10, exp as nat),
{
    let mut power: u64 = 1;
    let mut i: u8 = 0;
    proof {
        reveal_with_fuel(pow, 1);
    }
    while i < exp
        invariant
            i <= exp,
            power == pow(10, i as nat),
        decreases exp - i,
    {
        proof {
            reveal_with_fuel(pow, 2);
        }
        match power.checked_mul(10) {
            None => {
                proof {
                    lemma_pow_increases(10, (i + 1) as nat, exp as nat);
                }
                return None;
            },
            Some(next) => {
                power = next;
            },
        }
        i = i + 1;
    }
    Some(power)
}

/// Ten to the `exp`.
pub fn pow10(exp: u8) -> (r: u64)
    requires
        pow(10, exp as nat) <= u64::MAX,
    ensures
        r == pow(10, exp as nat),
{
    checked_pow10(exp).unwrap()
}

/// The cap holds: a claim never gets more than `MAX_ALLOCATION` tokens, never
/// gets back more SOL than it sent, and gets SOL back only when the cap was hit.
pub proof fn lemma_allocation_within_cap(sol_in: u64, sol_reserve: u128, token_reserve: u128, is_winner: bool)
    requires
        tokens_to_send_defined(sol_in, sol_reserve, token_reserve, is_winner),
    ensures
        0 <= tokens_to_send(sol_in as int, sol_reserve as int, token_reserve as int, is_winner).0
            <= MAX_ALLOCATION,
        0 <= tokens_to_send(sol_in as int, sol_reserve as int, token_reserve as int, is_winner).1
            <= sol_in,
        tokens_to_send(sol_in as int, sol_reserve as int, token_reserve as int, is_winner).1 > 0
            ==> tokens_to_send(sol_in as int, sol_reserve as int, token_reserve as int, is_winner).0
            == MAX_ALLOCATION,
{
}

/// For the same stake and pool, a loser never gets more tokens than a winner.
pub proof fn lemma_loser_never_outearns_winner(sol_in: u64, sol_reserve: u128, token_reserve: u128)
    requires
        tokens_out_raw_defined(sol_in, sol_reserve, token_reserve),
    ensures
        allocation(sol_in as int, sol_reserve as int, token_reserve as int, false) <= allocation(
            sol_in as int,
            sol_reserve as int,
            token_reserve as int,
            true,
        ),
        tokens_to_send(sol_in as int, sol_reserve as int, token_reserve as int, false).0
            <= tokens_to_send(sol_in as int, sol_reserve as int, token_reserve as int, true).0,
{
}

/// Sending more SOL into the same pool never buys fewer tokens.
pub proof fn lemma_tokens_out_monotone(small_in: u64, large_in: u64, sol_reserve: u128, token_reserve: u128)
    requires
        small_in <= large_in,
        sol_reserve + small_in > 0,
    ensures
        tokens_out_raw(small_in as int, sol_reserve as int, token_reserve as int) <= tokens_out_raw(
            large_in as int,
            sol_reserve as int,
            token_reserve as int,
        ),
{
    lemma_div_is_ordered_by_denominator(K as int, sol_reserve + small_in, sol_reserve + large_in);
}

/// A swap keeps `sol_reserve * token_reserve` at `K`, up to the rounding
/// of the one division: the pool after the swap holds the most tokens whose
/// product with the new SOL reserve does not exceed `K`.
pub proof fn lemma_swap_keeps_product(sol_in: u64, sol_reserve: u128, token_reserve: u128)
    requires
        sol_reserve + sol_in > 0,
    ensures
        ({
            let new_sol = sol_reserve + sol_in;
            let new_token = token_reserve - tokens_out_raw(sol_in as int, sol_reserve as int, token_reserve as int);
            &&& new_sol * new_token <= K
            &&& K < new_sol * (new_token + 1)
        }),
{
    let new_sol = sol_reserve + sol_in;
    lemma_fundamental_div_mod(K as int, new_sol);
    assert(new_sol * ((K as int) / new_sol + 1) == new_sol * ((K as int) / new_sol) + new_sol) by (nonlinear_arith);
}

/// A losing claim's penalty comes before the cap: a loser gets half the
/// swap output, rounded down, and nothing back, whenever that half is
/// within the cap, whatever the whole output; only a half over the cap is
/// cut to the cap, with back what the capped tokens did not cost.
pub proof fn lemma_loser_penalty_before_cap(sol_in: u64, sol_reserve: u128, token_reserve: u128)
    requires
        sol_reserve + sol_in > 0,
        (K as int) / (sol_reserve + sol_in) <= token_reserve,
    ensures
        ({
            let raw = token_reserve - (K as int) / (sol_reserve + sol_in);
            let result = tokens_to_send(sol_in as int, sol_reserve as int, token_reserve as int, false);
            &&& raw / 2 <= MAX_ALLOCATION ==> result == (raw / 2, 0int)
            &&& raw / 2 > MAX_ALLOCATION ==> result == (
                MAX_ALLOCATION as int,
                sol_in - ((K as int) / (token_reserve - MAX_ALLOCATION) - sol_reserve),
            )
            &&& 2 * result.0 <= raw
        }),
{
}

/// A winning claim gets the whole swap output and nothing back while it is
/// within the cap; over the cap it gets the cap, with back what the capped
/// tokens did not cost.
pub proof fn lemma_winner_gets_swap_output(sol_in: u64, sol_reserve: u128, token_reserve: u128)
    requires
        sol_reserve + sol_in > 0,
        (K as int) / (sol_reserve + sol_in) <= token_reserve,
    ensures
        ({
            let raw = token_reserve - (K as int) / (sol_reserve + sol_in);
            let result = tokens_to_send(sol_in as int, sol_reserve as int, token_reserve as int, true);
            &&& raw <= MAX_ALLOCATION ==> result == (raw, 0int)
            &&& raw > MAX_ALLOCATION ==> result == (
                MAX_ALLOCATION as int,
                sol_in - ((K as int) / (token_reserve - MAX_ALLOCATION) - sol_reserve),
            )
        }),
{
}

} // verus!
