use vstd::prelude::*;

use crate::account::AccountId;
use crate::error::ErrorCode;
use crate::pricing::{calculate_price, price_fits, price_of};

verus! {

/// One token launch: the persistent record the program keeps per creator.
///
/// `creator`, `mint`, `name`, `symbol` and `curve_ratio` are set once at
/// initialization and never change. `total_supply` counts the tokens minted
/// so far and only grows, by exactly the amount of each successful buy.
/// `is_active` gates buying; no operation ever clears it, so a launch stays
/// active forever.
pub struct Launch {
    /// Identity of the account that initialized the launch.
    pub creator: AccountId,
    /// Identity of the fungible-asset mint this launch controls.
    pub mint: AccountId,
    /// Display name of the token.
    pub name: String,
    /// Display ticker symbol of the token.
    pub symbol: String,
    /// Tokens minted so far through this launch.
    pub total_supply: u64,
    /// Scalar parameter of the linear bonding curve.
    pub curve_ratio: u64,
    /// Whether buying is allowed.
    pub is_active: bool,
}

impl Launch {
    /// The fields of `self` that no operation may change, compared against
    /// `other`: everything but `total_supply`.
    pub open spec fn same_identity(&self, other: &Launch) -> bool {
        &&& self.creator@ == other.creator@
        &&& self.mint@ == other.mint@
        &&& self.name@ == other.name@
        &&& self.symbol@ == other.symbol@
        &&& self.curve_ratio == other.curve_ratio
        &&& self.is_active == other.is_active
    }
}

/// The balances a buy reads and writes, as the host runtime hands them to
/// the program: the buyer's base-currency balance, the vault's
/// base-currency balance, and the buyer's balance of the launched token.
pub struct BuyTokens {
    /// Base currency held by the buyer, who pays the price.
    pub buyer_lamports: u64,
    /// Base currency held by the vault, which collects the price.
    pub vault_lamports: u64,
    /// Launched tokens held by the buyer's associated token account.
    pub buyer_token_amount: u64,
}

/// Whether a buy of `amount` tokens succeeds against launch state `l` and
/// balances `b`: the launch is active, pricing does not overflow, the buyer
/// can pay, and neither the vault balance nor the buyer's token balance
/// overflows when credited.
pub open spec fn buy_succeeds(l: Launch, b: BuyTokens, amount: u64) -> bool {
    &&& l.is_active
    &&& price_fits(l.total_supply, amount, l.curve_ratio)
    &&& b.buyer_lamports >= price_of(l.total_supply, amount, l.curve_ratio)
    &&& b.vault_lamports + price_of(l.total_supply, amount, l.curve_ratio) <= u64::MAX
    &&& b.buyer_token_amount + amount <= u64::MAX
}

/// Buy `amount` tokens from a launch.
///
/// The price is `(total_supply + amount) * curve_ratio`. On success the
/// price moves from the buyer to the vault, `amount` tokens are minted to
/// the buyer, and `total_supply` grows by `amount`. Every check precedes
/// every write, so on any failure the launch and all balances are exactly
/// as they were: the all-or-nothing behaviour the host runtime gives an
/// instruction.
///
/// Failures, in the order checked: `LaunchInactive` when the launch is not
/// active; `Overflow` when the new supply level or the price leaves the
/// unsigned 64-bit range; `InsufficientFunds` when the buyer cannot pay;
/// `Overflow` again when crediting the vault or the buyer's token balance
/// would overflow.
pub fn buy_tokens(launch: &mut Launch, accounts: &mut BuyTokens, amount: u64) -> (r: Result<
    (),
    ErrorCode,
>)
    ensures
        r == Ok::<(), ErrorCode>(()) <==> buy_succeeds(*old(launch), *old(accounts), amount),
        r is Err ==> *final(launch) == *old(launch) && *final(accounts) == *old(accounts),
        final(launch).total_supply >= old(launch).total_supply,
        !old(launch).is_active ==> r == Err::<(), ErrorCode>(ErrorCode::LaunchInactive),
        old(launch).is_active && !price_fits(
            old(launch).total_supply,
            amount,
            old(launch).curve_ratio,
        ) ==> r == Err::<(), ErrorCode>(ErrorCode::Overflow),
        old(launch).is_active && price_fits(old(launch).total_supply, amount, old(launch).curve_ratio)
            && old(accounts).buyer_lamports < price_of(
            old(launch).total_supply,
            amount,
            old(launch).curve_ratio,
        ) ==> r == Err::<(), ErrorCode>(ErrorCode::InsufficientFunds),
        old(launch).is_active && price_fits(old(launch).total_supply, amount, old(launch).curve_ratio)
            && old(accounts).buyer_lamports >= price_of(
            old(launch).total_supply,
            amount,
            old(launch).curve_ratio,
        ) && !buy_succeeds(*old(launch), *old(accounts), amount) ==> r == Err::<(), ErrorCode>(
            ErrorCode::Overflow,
        ),
        r == Ok::<(), ErrorCode>(()) ==> {
            let price = price_of(old(launch).total_supply, amount, old(launch).curve_ratio);
            &&& final(launch).total_supply == old(launch).total_supply + amount
            &&& final(launch).same_identity(old(launch))
            &&& final(accounts).buyer_lamports == old(accounts).buyer_lamports - price
            &&& final(accounts).vault_lamports == old(accounts).vault_lamports + price
            &&& final(accounts).buyer_token_amount == old(accounts).buyer_token_amount + amount
        },
{
    if !launch.is_active {
        return Err(ErrorCode::LaunchInactive);
    }
    let price = match calculate_price(launch.total_supply, amount, launch.curve_ratio) {
        Ok(p) => p,
        Err(e) => {
            return Err(e);
        },
    };
    // Transfer of the price from buyer to vault.
    if accounts.buyer_lamports < price {
        return Err(ErrorCode::InsufficientFunds);
    }
    let new_vault = match accounts.vault_lamports.checked_add(price) {
        Some(v) => v,
        None => {
            return Err(ErrorCode::Overflow);
        },
    };
    // Minting of the purchased tokens to the buyer.
    let new_tokens = match accounts.buyer_token_amount.checked_add(amount) {
        Some(t) => t,
        None => {
            return Err(ErrorCode::Overflow);
        },
    };
    accounts.buyer_lamports = accounts.buyer_lamports - price;
    accounts.vault_lamports = new_vault;
    accounts.buyer_token_amount = new_tokens;
    launch.total_supply = launch.total_supply + amount;
    Ok(())
}

} // verus!
