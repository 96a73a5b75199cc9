//! Commission arithmetic in basis points.

use vstd::prelude::*;
use crate::errors::ErrorCode;

verus! {

/// One hundred percent, in basis points.
pub const MAX_COMMISSION_RATE: u16 = 10000;

/// The commission owed on a sale at a rate in basis points: the product of
/// the two divided by ten thousand, rounded down.
pub open spec fn commission_of(sale_amount: u64, commission_rate: u16) -> int {
    (sale_amount as int * commission_rate as int) / 10000
}

/// Whether the product of sale amount and rate fits in sixty-four bits.
pub open spec fn product_fits(sale_amount: u64, commission_rate: u16) -> bool {
    sale_amount as int * commission_rate as int <= u64::MAX as int
}

/// What `commission` returns for a sale amount and a rate.
pub open spec fn commission_result(sale_amount: u64, commission_rate: u16) -> Result<u64, ErrorCode> {
    if !product_fits(sale_amount, commission_rate) {
        Err(ErrorCode::ArithmeticOverflow)
    } else if commission_of(sale_amount, commission_rate) == 0 {
        Err(ErrorCode::CommissionTooSmall)
    } else {
        Ok(commission_of(sale_amount, commission_rate) as u64)
    }
}

/// Whether a rate is at most one hundred percent.
pub fn rate_in_range(commission_rate: u16) -> (ok: bool)
    ensures
        ok == (commission_rate <= 10000),
{
    commission_rate <= MAX_COMMISSION_RATE
}

/// Computes the commission on a sale. A product that does not fit in
/// sixty-four bits is refused, and so is a commission that rounds down to
/// zero.
pub fn commission(sale_amount: u64, commission_rate: u16) -> (result: Result<u64, ErrorCode>)
    ensures
        result == commission_result(sale_amount, commission_rate),
        result matches Ok(c) ==> 0 < c <= sale_amount * commission_rate,
{
    let rate: u64 = u64::from(commission_rate);
    match sale_amount.checked_mul(rate) {
        None => Err(ErrorCode::ArithmeticOverflow),
        Some(product) => {
            let owed: u64 = product / 10000;
            if owed == 0 {
                Err(ErrorCode::CommissionTooSmall)
            } else {
                Ok(owed)
            }
        },
    }
}

/// A sale of at most a ten-thousandth of the largest sixty-four-bit number
/// never overflows at a rate within range: its commission is the rounded-down
/// quotient, or is refused as too small when that quotient is zero.
pub proof fn commission_never_overflows_below_bound(sale_amount: u64, commission_rate: u16)
    requires
        commission_rate <= 10000,
        sale_amount <= u64::MAX / 10000,
    ensures
        product_fits(sale_amount, commission_rate),
        commission_result(sale_amount, commission_rate) != Err::<u64, ErrorCode>(ErrorCode::ArithmeticOverflow),
        commission_of(sale_amount, commission_rate) <= sale_amount,
        commission_of(sale_amount, commission_rate) > 0 ==> commission_result(sale_amount, commission_rate)
            == Ok::<u64, ErrorCode>(commission_of(sale_amount, commission_rate) as u64),
{
    assert(sale_amount as int * commission_rate as int <= (u64::MAX / 10000) as int * 10000) by (nonlinear_arith)
        requires
            0 <= sale_amount <= u64::MAX / 10000,
            0 <= commission_rate <= 10000,
    ;
    assert((sale_amount as int * commission_rate as int) / 10000 <= sale_amount as int) by (nonlinear_arith)
        requires
            0 <= sale_amount,
            0 <= commission_rate <= 10000,
    ;
}

/// At full rate, a sale above a ten-thousandth of the largest sixty-four-bit
/// number is refused for overflow.
pub proof fn commission_overflows_above_bound_at_full_rate(sale_amount: u64)
    requires
        sale_amount > u64::MAX / 10000,
    ensures
        commission_result(sale_amount, 10000) == Err::<u64, ErrorCode>(ErrorCode::ArithmeticOverflow),
{
    assert(sale_amount as int * 10000 > u64::MAX as int);
}

/// The commission is refused for overflow exactly when the product of sale
/// amount and rate exceeds the largest sixty-four-bit number.
pub proof fn commission_overflow_condition(sale_amount: u64, commission_rate: u16)
    ensures
        commission_result(sale_amount, commission_rate) == Err::<u64, ErrorCode>(ErrorCode::ArithmeticOverflow)
            <==> sale_amount as int * commission_rate as int > u64::MAX as int,
{
}

/// A commission never exceeds the sale it is taken from, at a rate within range.
pub proof fn commission_at_most_sale(sale_amount: u64, commission_rate: u16)
    requires
        commission_rate <= 10000,
    ensures
        0 <= commission_of(sale_amount, commission_rate) <= sale_amount,
{
    assert(0 <= (sale_amount as int * commission_rate as int) / 10000 <= sale_amount as int) by (nonlinear_arith)
        requires
            0 <= sale_amount,
            0 <= commission_rate <= 10000,
    ;
}

} // verus!
