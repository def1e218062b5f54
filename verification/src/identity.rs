use vstd::prelude::*;

verus! {

/// Width in bytes of an account identity.
pub const IDENTITY_BYTES: usize = 32;

/// The bytes of the identity that stands for no account.
pub const NO_ACCOUNT: [u8; 32] = [
    0, 0, 0, 0, 0, 0, 0, 0, 0, 0, 0, 0, 0, 0, 0, 0,
    0, 0, 0, 0, 0, 0, 0, 0, 0, 0, 0, 0, 0, 0, 0, 0,
];

/// The address of an account: a caller, a pool, a round, a ledger, a currency.
#[derive(Clone, Copy, Debug, PartialEq, Eq)]
pub struct Identity {
    pub bytes: [u8; 32],
}

impl View for Identity {
    type V = Seq<u8>;

    open spec fn view(&self) -> Seq<u8> {
        self.bytes@
    }
}

impl Identity {
    /// The identity with the given bytes.
    pub fn new(bytes: [u8; 32]) -> (id: Identity)
        ensures
            id.bytes == bytes,
    {
        Identity { bytes }
    }

    /// The identity that stands for no account: its bytes are all zero.
    pub open spec fn spec_none() -> Identity {
        Identity { bytes: NO_ACCOUNT }
    }

    /// The identity that stands for no account: its bytes are all zero.
    pub fn none() -> (id: Identity)
        ensures
            id == Identity::spec_none(),
    {
        Identity { bytes: NO_ACCOUNT }
    }

    /// Whether this is the same account as `other`.
    pub fn equals(&self, other: &Identity) -> (same: bool)
        ensures
            same == (*self == *other),
    {
        let mut i: usize = 0;
        while i < 32
            invariant
                i <= 32,
                forall|j: int| 0 <= j < i ==> self.bytes[j] == other.bytes[j],
            decreases 32 - i,
        {
            if self.bytes[i] != other.bytes[i] {
                return false;
            }
            i = i + 1;
        }
        proof {
            assert(self.bytes =~= other.bytes);
        }
        true
    }

    /// Two identities are the same exactly when their bytes are.
    pub proof fn lemma_view_injective(a: Identity, b: Identity)
        ensures
            (a@ == b@) <==> (a == b),
    {
        if a@ == b@ {
            assert forall|i: int| 0 <= i < 32 implies a.bytes[i] == b.bytes[i] by {
                assert(a@[i] == b@[i]);
            }
            assert(a.bytes =~= b.bytes);
        }
    }
}

/// Whether two identities are the same account, compared byte by byte.
pub fn cmp_pubkeys(a: &Identity, b: &Identity) -> (same: bool)
    ensures
        same == (*a == *b),
{
    a.equals(b)
}

} // verus!
