use vstd::prelude::*;

verus! {

/// Why an operation on a launch was rejected.
///
/// `LaunchInactive` is the one failure this program decides for itself.
/// The rest stand for failures the host runtime raises while carrying an
/// instruction out: an arithmetic overflow in pricing or in a balance
/// update, a payer that cannot cover the price, and an attempt to create
/// a launch record at an address that is already taken. Whatever the
/// error, the whole operation aborts and no state changes.
#[derive(Clone, Copy, Debug, PartialEq, Eq, Structural)]
pub enum ErrorCode {
    /// The launch's `is_active` flag is false.
    LaunchInactive,
    /// A supply, price, or balance computation left the unsigned 64-bit range.
    Overflow,
    /// The buyer's balance cannot cover the computed price.
    InsufficientFunds,
    /// A launch record for this creator already exists.
    LaunchAlreadyExists,
}

} // verus!
