//! Checked arithmetic over the unsigned 64-bit amount domain. Nothing here
//! wraps or saturates: an operation either yields the exact mathematical
//! result or reports `MathOverflow`.

use crate::error::ErrorCode;
use vstd::prelude::*;

verus! {

/// `a + b`, or `MathOverflow` when the sum does not fit.
pub fn checked_add(a: u64, b: u64) -> (r: Result<u64, ErrorCode>)
    ensures
        a + b <= u64::MAX ==> r == Ok::<u64, ErrorCode>((a + b) as u64),
        a + b > u64::MAX ==> r == Err::<u64, ErrorCode>(ErrorCode::MathOverflow),
{
    match a.checked_add(b) {
        Some(v) => Ok(v),
        None => Err(ErrorCode::MathOverflow),
    }
}

/// `a - b`, or `MathOverflow` when `b` exceeds `a`.
pub fn checked_sub(a: u64, b: u64) -> (r: Result<u64, ErrorCode>)
    ensures
        b <= a ==> r == Ok::<u64, ErrorCode>((a - b) as u64),
        b > a ==> r == Err::<u64, ErrorCode>(ErrorCode::MathOverflow),
{
    match a.checked_sub(b) {
        Some(v) => Ok(v),
        None => Err(ErrorCode::MathOverflow),
    }
}

/// `a * b`, or `MathOverflow` when the product does not fit.
pub fn checked_mul(a: u64, b: u64) -> (r: Result<u64, ErrorCode>)
    ensures
        a * b <= u64::MAX ==> r == Ok::<u64, ErrorCode>((a * b) as u64),
        a * b > u64::MAX ==> r == Err::<u64, ErrorCode>(ErrorCode::MathOverflow),
{
    match a.checked_mul(b) {
        Some(v) => Ok(v),
        None => Err(ErrorCode::MathOverflow),
    }
}

/// `a / b` rounded toward zero, or `MathOverflow` when `b` is zero.
pub fn checked_div(a: u64, b: u64) -> (r: Result<u64, ErrorCode>)
    ensures
        b != 0 ==> r == Ok::<u64, ErrorCode>((a / b) as u64),
        b == 0 ==> r == Err::<u64, ErrorCode>(ErrorCode::MathOverflow),
{
    match a.checked_div(b) {
        Some(v) => Ok(v),
        None => Err(ErrorCode::MathOverflow),
    }
}

} // verus!
