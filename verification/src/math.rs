//! Share arithmetic: how amounts convert between lamports and LST.
use vstd::prelude::*;
use vstd::arithmetic::div_mod::{lemma_fundamental_div_mod, lemma_mod_pos_bound};
use vstd::arithmetic::power::{pow, lemma_pow_increases};

verus! {

/// `amount * total / denom`, rounded down: the part of `total` that `amount`
/// out of `denom` is worth.
pub open spec fn share_of(amount: int, total: int, denom: int) -> int {
    amount * total / denom
}

/// A share rounds down and is never negative.
pub proof fn lemma_share_bounds(amount: int, total: int, denom: int)
    requires
        0 <= amount,
        0 <= total,
        0 < denom,
    ensures
        0 <= share_of(amount, total, denom),
        share_of(amount, total, denom) * denom <= amount * total,
        amount * total < (share_of(amount, total, denom) + 1) * denom,
{
    let x = amount * total;
    let q = x / denom;
    assert(0 <= amount * total) by (nonlinear_arith)
        requires
            0 <= amount,
            0 <= total,
    ;
    lemma_fundamental_div_mod(x, denom);
    lemma_mod_pos_bound(x, denom);
    assert(q * denom <= x && x < (q + 1) * denom && 0 <= q) by (nonlinear_arith)
        requires
            x == denom * q + x % denom,
            0 <= x % denom < denom,
            0 < denom,
            0 <= x,
    ;
}

/// A share of at most the whole is at most the total.
pub proof fn lemma_share_at_most_total(amount: int, total: int, denom: int)
    requires
        0 <= amount <= denom,
        0 <= total,
        0 < denom,
    ensures
        share_of(amount, total, denom) <= total,
{
    lemma_share_bounds(amount, total, denom);
    let q = share_of(amount, total, denom);
    assert(q <= total) by (nonlinear_arith)
        requires
            q * denom <= amount * total,
            amount <= denom,
            0 <= total,
            0 < denom,
    ;
}

/// A share of less than the whole leaves part of a positive total.
pub proof fn lemma_share_below_total(amount: int, total: int, denom: int)
    requires
        0 <= amount < denom,
        0 < total,
    ensures
        share_of(amount, total, denom) < total,
{
    lemma_share_bounds(amount, total, denom);
    let q = share_of(amount, total, denom);
    assert(q < total) by (nonlinear_arith)
        requires
            q * denom <= amount * total,
            amount < denom,
            0 < total,
            0 < denom,
    ;
}

/// `10 ^ exp`.
pub fn ten_pow(exp: u8) -> (r: u128)
    requires
        pow(10, exp as nat) <= u128::MAX,
    ensures
        r == pow(10, exp as nat),
{
    let mut r: u128 = 1;
    let mut i: u8 = 0;
    assert(pow(10, 0) == 1) by {
        reveal(pow);
    }
    while i < exp
        invariant
            i <= exp,
            r == pow(10, i as nat),
            pow(10, exp as nat) <= u128::MAX,
        decreases exp - i,
    {
        proof {
            lemma_pow_increases(10, (i + 1) as nat, exp as nat);
            reveal(pow);
            assert(pow(10, (i + 1) as nat) == 10 * pow(10, i as nat));
        }
        r = r * 10;
        i = i + 1;
    }
    r
}

/// `10 ^ exp` where it fits in a `u128`.
pub fn checked_ten_pow(exp: u8) -> (r: Option<u128>)
    ensures
        r is Some <==> pow(10, exp as nat) <= u128::MAX,
        r matches Some(v) ==> v == pow(10, exp as nat),
{
    let mut r: u128 = 1;
    let mut i: u8 = 0;
    assert(pow(10, 0) == 1) by {
        reveal(pow);
    }
    while i < exp
        invariant
            i <= exp,
            r == pow(10, i as nat),
        decreases exp - i,
    {
        proof {
            reveal(pow);
            assert(pow(10, (i + 1) as nat) == 10 * pow(10, i as nat));
        }
        match r.checked_mul(10) {
            Some(v) => {
                r = v;
            },
            None => {
                proof {
                    lemma_pow_increases(10, (i + 1) as nat, exp as nat);
                }
                return None;
            },
        }
        i = i + 1;
    }
    Some(r)
}

} // verus!
