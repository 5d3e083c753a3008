use cosmwasm_std::Uint128;
use vstd::prelude::*;

verus! {

/// The share of `amount` that `numerator` is of `denominator`, rounded down.
pub open spec fn ratio_of(amount: int, numerator: int, denominator: int) -> int {
    (amount * numerator) / denominator
}

/// A share taken with a numerator that does not exceed the denominator lies
/// between zero and the whole amount.
pub proof fn lemma_ratio_within_amount(amount: int, numerator: int, denominator: int)
    requires
        0 <= amount,
        0 <= numerator <= denominator,
        0 < denominator,
    ensures
        0 <= ratio_of(amount, numerator, denominator) <= amount,
{
    assert(0 <= (amount * numerator) / denominator <= amount) by (nonlinear_arith)
        requires
            0 <= amount,
            0 <= numerator <= denominator,
            0 < denominator,
    ;
}

/// Takes a share of an amount with `Uint128::multiply_ratio` of `cosmwasm_std`.
///
/// Trusted: the result is `amount * numerator / denominator` computed without
/// intermediate overflow and rounded down. The call panics on a zero
/// denominator and on a result wider than 128 bits, which `requires` leaves out.
#[verifier::external_body]
pub(crate) fn multiply_ratio(amount: u128, numerator: u128, denominator: u128) -> (r: u128)
    requires
        denominator != 0,
        ratio_of(amount as int, numerator as int, denominator as int) <= u128::MAX,
    ensures
        r == ratio_of(amount as int, numerator as int, denominator as int),
{
    Uint128::new(amount).multiply_ratio(numerator, denominator).u128()
}

} // verus!
