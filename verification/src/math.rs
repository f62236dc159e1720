use vstd::prelude::*;
use crate::errors::BlinkError;

verus! {

/// Adds two amounts; refuses with `MathOverflow` when the sum does not fit.
pub fn checked_add(a: u64, b: u64) -> (r: Result<u64, BlinkError>)
    ensures
        a + b <= u64::MAX ==> r == Ok::<u64, BlinkError>((a + b) as u64),
        a + b > u64::MAX ==> r == Err::<u64, BlinkError>(BlinkError::MathOverflow),
{
    match a.checked_add(b) {
        Some(v) => Ok(v),
        None => Err(BlinkError::MathOverflow),
    }
}

/// Subtracts `b` from `a`; refuses with `MathOverflow` when `b` exceeds `a`.
pub fn checked_sub(a: u64, b: u64) -> (r: Result<u64, BlinkError>)
    ensures
        b <= a ==> r == Ok::<u64, BlinkError>((a - b) as u64),
        b > a ==> r == Err::<u64, BlinkError>(BlinkError::MathOverflow),
{
    match a.checked_sub(b) {
        Some(v) => Ok(v),
        None => Err(BlinkError::MathOverflow),
    }
}

/// Multiplies two amounts; refuses with `MathOverflow` when the product does
/// not fit.
pub fn checked_mul(a: u64, b: u64) -> (r: Result<u64, BlinkError>)
    ensures
        a * b <= u64::MAX ==> r == Ok::<u64, BlinkError>((a * b) as u64),
        a * b > u64::MAX ==> r == Err::<u64, BlinkError>(BlinkError::MathOverflow),
{
    match a.checked_mul(b) {
        Some(v) => Ok(v),
        None => Err(BlinkError::MathOverflow),
    }
}

/// Divides `a` by `b`, rounding down; refuses with `MathOverflow` when `b` is
/// zero.
pub fn checked_div(a: u64, b: u64) -> (r: Result<u64, BlinkError>)
    ensures
        b != 0 ==> r == Ok::<u64, BlinkError>((a / b) as u64),
        b == 0 ==> r == Err::<u64, BlinkError>(BlinkError::MathOverflow),
{
    if b == 0 {
        Err(BlinkError::MathOverflow)
    } else {
        Ok(a / b)
    }
}

} // verus!
