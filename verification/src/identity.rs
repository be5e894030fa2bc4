use vstd::prelude::*;
use vstd::std_specs::cmp::PartialEqSpecImpl;

verus! {

/// Number of bytes in an identity.
pub const IDENTITY_LEN: usize = 32;

/// An authenticated party: a participant, an arbiter, or nobody at all.
///
/// Identities are only ever compared; nothing here checks a signature.
#[derive(Clone, Copy, Debug, Eq)]
pub struct Identity {
    pub key: [u8; 32],
}

impl PartialEq for Identity {
    fn eq(&self, other: &Identity) -> (r: bool) {
        let mut i: usize = 0;
        while i < IDENTITY_LEN
            invariant
                i <= IDENTITY_LEN,
                forall|j: int| 0 <= j < i ==> self.key[j] == other.key[j],
            decreases IDENTITY_LEN - i,
        {
            if self.key[i] != other.key[i] {
                return false;
            }
            i += 1;
        }
        proof {
            assert(self.key =~= other.key);
        }
        true
    }
}

impl PartialEqSpecImpl for Identity {
    open spec fn obeys_eq_spec() -> bool {
        true
    }

    open spec fn eq_spec(&self, other: &Identity) -> bool {
        *self == *other
    }
}

impl Identity {
    /// The identity whose key is `key`.
    pub fn new(key: [u8; 32]) -> (id: Identity)
        ensures
            id.key == key,
    {
        Identity { key }
    }

    /// The 32 bytes of this identity.
    pub fn to_bytes(&self) -> (key: [u8; 32])
        ensures
            key == self.key,
    {
        self.key
    }

    /// The sentinel that stands for "no identity".
    pub fn empty() -> (id: Identity)
        ensures
            id == Identity::empty_spec(),
    {
        Identity { key: [0u8; 32] }
    }

    /// The empty identity: the one whose key is zero in every byte.
    pub open spec fn empty_spec() -> Identity {
        Identity { key: vstd::array::spec_array_fill_for_copy_type::<u8, 32>(0u8) }
    }

    /// Whether this is the empty identity.
    pub fn is_empty(&self) -> (r: bool)
        ensures
            r == (*self == Identity::empty_spec()),
    {
        *self == Identity::empty()
    }
}

} // verus!
