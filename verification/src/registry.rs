use vstd::prelude::*;

use crate::account::AccountId;
use crate::error::ErrorCode;
use crate::launch::Launch;

verus! {

/// The accounts an initialization reads: the creator, who signs and pays,
/// and the identity of the mint being created. The launch record's own
/// address is derived from the creator by the host, which is why one
/// creator can hold at most one launch.
pub struct InitializeLaunch {
    /// Identity of the signing creator.
    pub creator: AccountId,
    /// Identity of the new mint the launch will control.
    pub mint: AccountId,
}

/// The launch records the host chain holds for this program, one per
/// creator. The host derives each record's address from its creator's
/// identity, so creating a second record for the same creator fails; this
/// registry models that store and that rule.
pub struct LaunchRegistry {
    /// The launch records, in order of creation.
    pub launches: Vec<Launch>,
}

impl LaunchRegistry {
    /// No two records belong to the same creator: the host's derived
    /// addressing makes a creator's record unique.
    pub open spec fn wf(&self) -> bool {
        forall|i: int, j: int|
            0 <= i < j < self.launches@.len() ==> self.launches@[i].creator@
                != self.launches@[j].creator@
    }

    /// Whether some record belongs to `creator`.
    pub open spec fn has_launch(&self, creator: AccountId) -> bool {
        exists|i: int| 0 <= i < self.launches@.len() && self.launches@[i].creator@ == creator@
    }

    /// An empty store, with no launches yet.
    pub fn new() -> (r: LaunchRegistry)
        ensures
            r.launches@ =~= Seq::<Launch>::empty(),
            r.wf(),
    {
        LaunchRegistry { launches: Vec::new() }
    }
}

/// The record a successful initialization writes: the given accounts and
/// parameters, `initial_supply` as the starting `total_supply`, and the
/// launch active. No tokens are minted for the initial supply; it is only
/// recorded.
pub open spec fn initialized_launch(
    accounts: InitializeLaunch,
    name: String,
    symbol: String,
    initial_supply: u64,
    curve_ratio: u64,
) -> Launch {
    Launch {
        creator: accounts.creator,
        mint: accounts.mint,
        name: name,
        symbol: symbol,
        total_supply: initial_supply,
        curve_ratio: curve_ratio,
        is_active: true,
    }
}

/// Create a launch record for `accounts.creator`.
///
/// Fails with `LaunchAlreadyExists`, leaving the registry unchanged, when
/// the creator already has a record — the host refuses to create an
/// account at an address that is taken, rather than overwrite it. Otherwise
/// appends the new record, populated from the arguments and active.
pub fn initialize_launch(
    registry: &mut LaunchRegistry,
    accounts: InitializeLaunch,
    name: String,
    symbol: String,
    initial_supply: u64,
    curve_ratio: u64,
) -> (r: Result<(), ErrorCode>)
    requires
        old(registry).wf(),
    ensures
        final(registry).wf(),
        old(registry).has_launch(accounts.creator) ==> r == Err::<(), ErrorCode>(
            ErrorCode::LaunchAlreadyExists,
        ) && *final(registry) == *old(registry),
        !old(registry).has_launch(accounts.creator) ==> r == Ok::<(), ErrorCode>(())
            && final(registry).launches@ == old(registry).launches@.push(
            initialized_launch(accounts, name, symbol, initial_supply, curve_ratio),
        ),
        r == Ok::<(), ErrorCode>(()) ==> final(registry).has_launch(accounts.creator),
{
    let n = registry.launches.len();
    let mut i: usize = 0;
    while i < n
        invariant
            *registry == *old(registry),
            registry.wf(),
            n == registry.launches@.len(),
            i <= n,
            forall|k: int| 0 <= k < i ==> registry.launches@[k].creator@ != accounts.creator@,
        decreases n - i,
    {
        if registry.launches[i].creator.same_as(&accounts.creator) {
            proof {
                assert(registry.has_launch(accounts.creator));
            }
            return Err(ErrorCode::LaunchAlreadyExists);
        }
        i = i + 1;
    }
    let launch = Launch {
        creator: accounts.creator,
        mint: accounts.mint,
        name: name,
        symbol: symbol,
        total_supply: initial_supply,
        curve_ratio: curve_ratio,
        is_active: true,
    };
    registry.launches.push(launch);
    proof {
        let s = registry.launches@;
        assert(s[s.len() - 1].creator@ == accounts.creator@);
        assert(registry.has_launch(accounts.creator));
    }
    Ok(())
}

/// A creator's launch can be initialized only once: after a successful
/// initialization — whose effect is exactly an append of the new record —
/// the registry has a launch for that creator, so by the contract of
/// `initialize_launch` a second initialization for the same creator
/// returns `LaunchAlreadyExists` and leaves the registry unchanged.
pub proof fn lemma_second_initialize_fails(
    before: LaunchRegistry,
    after: LaunchRegistry,
    accounts: InitializeLaunch,
    name: String,
    symbol: String,
    initial_supply: u64,
    curve_ratio: u64,
)
    requires
        after.launches@ == before.launches@.push(
            initialized_launch(accounts, name, symbol, initial_supply, curve_ratio),
        ),
    ensures
        after.has_launch(accounts.creator),
{
    let s = after.launches@;
    assert(s[s.len() - 1].creator@ == accounts.creator@);
}

} // verus!
