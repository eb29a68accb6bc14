use vstd::prelude::*;

verus! {

/// The identity of an account on the host chain: 32 raw bytes of a public
/// key. Addresses of launch records and mints are derived from such
/// identities by the host; here an identity is only stored and compared.
#[derive(Clone, Copy, Debug)]
pub struct AccountId {
    pub bytes: [u8; 32],
}

impl AccountId {
    /// The identity as a byte sequence; two identities are the same account
    /// exactly when these sequences are equal.
    pub open spec fn view(&self) -> Seq<u8> {
        self.bytes@
    }

    /// Byte-for-byte equality of two identities.
    pub fn same_as(&self, other: &AccountId) -> (r: bool)
        ensures
            r == (self@ == other@),
    {
        let mut i: usize = 0;
        while i < 32
            invariant
                i <= 32,
                forall|k: int| 0 <= k < i ==> self.bytes@[k] == other.bytes@[k],
            decreases 32 - i,
        {
            if self.bytes[i] != other.bytes[i] {
                return false;
            }
            i = i + 1;
        }
        proof {
            assert(self.bytes@ =~= other.bytes@);
        }
        true
    }
}

} // verus!
