use vstd::prelude::*;

verus! {

/// Fixed-point percentages carry eighteen fractional decimal digits: a rate
/// is stored as `atomics`, and the value it denotes is `atomics / FRACTIONAL`.
pub const FRACTIONAL: u128 = 1_000_000_000_000_000_000;

/// `FRACTIONAL / 10_000`: the tolerance (0.0001) around 1.0 inside which the
/// collector percentages of a fee configuration must sum.
pub const FRACTIONAL_EPSILON: u128 = 100_000_000_000_000;

/// Relies on `cosmwasm_std::Uint128::checked_multiply_ratio`: the floored
/// quotient `a * numerator / denominator`, or `None` when the quotient does
/// not fit in 128 bits.
#[verifier::external_body]
pub(crate) fn checked_mul_ratio(a: u128, numerator: u128, denominator: u128) -> (r: Option<u128>)
    requires
        denominator != 0,
    ensures
        match r {
            Some(v) => v == a * numerator / (denominator as int),
            None => a * numerator / (denominator as int) > u128::MAX,
        },
{
    match cosmwasm_std::Uint128::new(a).checked_multiply_ratio(numerator, denominator) {
        Ok(v) => Some(v.u128()),
        Err(_) => None,
    }
}

/// What `cosmwasm_std::Decimal::from_str` makes of a string: the fixed-point
/// value in units of `1 / FRACTIONAL`, or `None` when the string does not
/// parse.  The result depends on the characters alone.
pub uninterp spec fn parsed_decimal(s: Seq<char>) -> Option<u128>;

/// Relies on `cosmwasm_std::Decimal::from_str` for parsing a decimal string
/// such as `"0.25"` into atomics (`parsed_decimal`).
#[verifier::external_body]
pub(crate) fn parse_decimal(s: &str) -> (r: Option<u128>)
    ensures
        r == parsed_decimal(s@),
{
    match <cosmwasm_std::Decimal as core::str::FromStr>::from_str(s) {
        Ok(d) => Some(d.atomics().u128()),
        Err(_) => None,
    }
}

} // verus!
