use vstd::prelude::*;

use crate::error::ErrorCode;

verus! {

/// The linear bonding curve: the whole post-purchase supply level is priced
/// at `curve_ratio` per unit, so a purchase costs
/// `(current_supply + amount) * curve_ratio`. This is deliberately not the
/// area under the curve: the formula charges for the new total, not for the
/// increment alone.
pub open spec fn price_of(current_supply: u64, amount: u64, curve_ratio: u64) -> int {
    (current_supply + amount) * curve_ratio
}

/// Whether pricing stays inside the unsigned 64-bit range: both the new
/// supply level and the price must fit.
pub open spec fn price_fits(current_supply: u64, amount: u64, curve_ratio: u64) -> bool {
    &&& current_supply + amount <= u64::MAX
    &&& price_of(current_supply, amount, curve_ratio) <= u64::MAX
}

/// Price a purchase of `amount` tokens on the linear bonding curve.
///
/// Returns exactly `(current_supply + amount) * curve_ratio` whenever that
/// value (and the intermediate sum) fits in a `u64`, and `Overflow`
/// otherwise.
pub fn calculate_price(current_supply: u64, amount: u64, curve_ratio: u64) -> (r: Result<
    u64,
    ErrorCode,
>)
    ensures
        price_fits(current_supply, amount, curve_ratio) ==> r == Ok::<u64, ErrorCode>(
            price_of(current_supply, amount, curve_ratio) as u64,
        ),
        !price_fits(current_supply, amount, curve_ratio) ==> r == Err::<u64, ErrorCode>(
            ErrorCode::Overflow,
        ),
{
    match current_supply.checked_add(amount) {
        Some(new_supply) => match new_supply.checked_mul(curve_ratio) {
            Some(price) => Ok(price),
            None => Err(ErrorCode::Overflow),
        },
        None => Err(ErrorCode::Overflow),
    }
}

} // verus!
