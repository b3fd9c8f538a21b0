//! Account identifiers.

use vstd::prelude::*;
use vstd::std_specs::cmp::PartialEqSpecImpl;
use vstd::std_specs::convert::FromSpecImpl;

verus! {

/// An opaque participant identifier: 32 bytes, compared byte by byte.
#[derive(Clone, Copy, Debug, Hash)]
pub struct AccountId {
    bytes: [u8; 32],
}

impl View for AccountId {
    type V = Seq<u8>;

    closed spec fn view(&self) -> Seq<u8> {
        self.bytes@
    }
}

impl AccountId {
    /// The bytes of this identifier.
    pub fn to_bytes(&self) -> (out: [u8; 32])
        ensures
            out@ == self@,
    {
        self.bytes
    }

    /// Two identifiers with the same bytes are the same identifier.
    pub proof fn lemma_view_injective(a: AccountId, b: AccountId)
        ensures
            a@ == b@ <==> a == b,
    {
        if a@ == b@ {
            assert(a.bytes =~= b.bytes);
        }
    }
}

impl PartialEq for AccountId {
    fn eq(&self, other: &AccountId) -> (r: bool) {
        let mut i: usize = 0;
        while i < 32
            invariant
                i <= 32,
                forall|j: int| 0 <= j < i ==> self.bytes@[j] == other.bytes@[j],
            decreases 32 - i,
        {
            if self.bytes[i] != other.bytes[i] {
                return false;
            }
            i += 1;
        }
        proof {
            assert(self.bytes =~= other.bytes);
        }
        true
    }
}

impl PartialEqSpecImpl for AccountId {
    open spec fn obeys_eq_spec() -> bool {
        true
    }

    open spec fn eq_spec(&self, other: &AccountId) -> bool {
        *self == *other
    }
}

impl Eq for AccountId {}

impl From<[u8; 32]> for AccountId {
    fn from(bytes: [u8; 32]) -> (id: AccountId)
        ensures
            id@ == bytes@,
    {
        AccountId { bytes }
    }
}

impl FromSpecImpl<[u8; 32]> for AccountId {
    open spec fn obeys_from_spec() -> bool {
        true
    }

    closed spec fn from_spec(bytes: [u8; 32]) -> AccountId {
        AccountId { bytes }
    }
}

impl Default for AccountId {
    fn default() -> (id: AccountId)
        ensures
            id@ == Seq::new(32, |i: int| 0u8),
    {
        AccountId { bytes: [0u8; 32] }
    }
}

} // verus!
