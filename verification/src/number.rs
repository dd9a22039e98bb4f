//! Decimal digit decomposition for the on-screen score and frame counter:
//! a number becomes its base-ten digits, most significant first.

use vstd::prelude::*;

verus! {

/// The base-ten digits of `n`, most significant first; zero is the single
/// digit `[0]`.
pub open spec fn digits_spec(n: nat) -> Seq<u32>
    decreases n,
{
    if n < 10 {
        seq![n as u32]
    } else {
        digits_spec(n / 10).push((n % 10) as u32)
    }
}

/// Splits a number into its base-ten digits, most significant first. Each
/// digit is below ten, there is at least one, and only zero itself starts
/// with a zero digit.
pub fn digits_of(number: u32) -> (digits: Vec<u32>)
    ensures
        digits@ == digits_spec(number as nat),
        digits@.len() >= 1,
        forall|k: int| 0 <= k < digits@.len() ==> digits@[k] < 10,
        digits@[0] == 0 ==> number == 0,
    decreases number,
{
    if number < 10 {
        let mut digits: Vec<u32> = Vec::new();
        digits.push(number);
        digits
    } else {
        let mut digits = digits_of(number / 10);
        digits.push(number % 10);
        digits
    }
}

} // verus!
