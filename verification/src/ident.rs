//! The two opaque values the registry works with: the key of a name and the
//! identity of an owner. Both are 32 bytes, compared byte by byte.

use vstd::prelude::*;
use vstd::std_specs::cmp::PartialEqSpecImpl;
use vstd::std_specs::convert::FromSpecImpl;

verus! {

/// `true` exactly when the two arrays hold the same bytes.
pub fn bytes_equal(a: &[u8; 32], b: &[u8; 32]) -> (same: bool)
    ensures
        same == (*a == *b),
        same == (a@ == b@),
{
    let mut i: usize = 0;
    while i < 32
        invariant
            i <= 32,
            forall|j: int| 0 <= j < i ==> a[j] == b[j],
        decreases 32 - i,
    {
        if a[i] != b[i] {
            assert(a@[i as int] != b@[i as int]);
            return false;
        }
        i += 1;
    }
    proof {
        assert(*a =~= *b);
        assert(a@ =~= b@);
    }
    true
}

/// The key of a name: the digest of a username, computed by the caller.
/// The registry never learns the string behind it.
#[derive(Clone, Copy, Debug, Eq)]
pub struct NameKey {
    pub bytes: [u8; 32],
}

impl NameKey {
    /// Wraps a digest.
    pub fn new(bytes: [u8; 32]) -> (key: NameKey)
        ensures
            key.bytes == bytes,
    {
        NameKey { bytes }
    }

    /// The digest.
    pub fn as_bytes(&self) -> (bytes: &[u8; 32])
        ensures
            *bytes == self.bytes,
    {
        &self.bytes
    }
}

impl PartialEq for NameKey {
    fn eq(&self, other: &NameKey) -> (same: bool) {
        bytes_equal(&self.bytes, &other.bytes)
    }
}

impl PartialEqSpecImpl for NameKey {
    open spec fn obeys_eq_spec() -> bool {
        true
    }

    open spec fn eq_spec(&self, other: &NameKey) -> bool {
        *self == *other
    }
}

impl From<[u8; 32]> for NameKey {
    fn from(bytes: [u8; 32]) -> (key: NameKey) {
        NameKey { bytes }
    }
}

impl FromSpecImpl<[u8; 32]> for NameKey {
    open spec fn obeys_from_spec() -> bool {
        true
    }

    open spec fn from_spec(bytes: [u8; 32]) -> NameKey {
        NameKey { bytes }
    }
}

/// The identity of a caller, as the hosting environment reports it.
#[derive(Clone, Copy, Debug, Eq)]
pub struct OwnerId {
    pub bytes: [u8; 32],
}

impl OwnerId {
    /// Wraps an identifier.
    pub fn new(bytes: [u8; 32]) -> (id: OwnerId)
        ensures
            id.bytes == bytes,
    {
        OwnerId { bytes }
    }

    /// The identifier's bytes.
    pub fn as_bytes(&self) -> (bytes: &[u8; 32])
        ensures
            *bytes == self.bytes,
    {
        &self.bytes
    }

    /// The identifier made of zero bytes only.
    pub open spec fn zero() -> OwnerId {
        OwnerId { bytes: vstd::array::spec_array_fill_for_copy_type::<u8, 32>(0u8) }
    }

    /// Every byte of `zero()` is 0, and `zero()` is the only identifier of
    /// which that holds.
    pub proof fn zero_is_all_zero_bytes(id: OwnerId)
        ensures
            id == OwnerId::zero() <==> (forall|i: int| 0 <= i < 32 ==> id.bytes[i] == 0u8),
    {
        let z = OwnerId::zero();
        assert(forall|i: int| 0 <= i < 32 ==> z.bytes[i] == 0u8);
        if forall|i: int| 0 <= i < 32 ==> id.bytes[i] == 0u8 {
            assert(id.bytes =~= z.bytes);
        }
    }
}

impl PartialEq for OwnerId {
    fn eq(&self, other: &OwnerId) -> (same: bool) {
        bytes_equal(&self.bytes, &other.bytes)
    }
}

impl PartialEqSpecImpl for OwnerId {
    open spec fn obeys_eq_spec() -> bool {
        true
    }

    open spec fn eq_spec(&self, other: &OwnerId) -> bool {
        *self == *other
    }
}

impl From<[u8; 32]> for OwnerId {
    fn from(bytes: [u8; 32]) -> (id: OwnerId) {
        OwnerId { bytes }
    }
}

impl FromSpecImpl<[u8; 32]> for OwnerId {
    open spec fn obeys_from_spec() -> bool {
        true
    }

    open spec fn from_spec(bytes: [u8; 32]) -> OwnerId {
        OwnerId { bytes }
    }
}

impl Default for OwnerId {
    /// The identity that the hosting environment takes for "nobody": the
    /// all-zero identifier.
    fn default() -> (id: OwnerId)
        ensures
            id == OwnerId::zero(),
    {
        let id = OwnerId { bytes: environment_default_account() };
        proof {
            OwnerId::zero_is_all_zero_bytes(id);
        }
        id
    }
}

/// The bytes of `ink_env::AccountId::default()`, the account that the hosting
/// environment hands out where it has none to name. `AccountId` wraps a
/// `[u8; 32]` and derives `Default`, so every byte is 0. Not proved: the claim
/// rests on that derive.
#[verifier::external_body]
fn environment_default_account() -> (bytes: [u8; 32])
    ensures
        forall|i: int| 0 <= i < 32 ==> bytes[i] == 0u8,
{
    let account = ink_env::AccountId::default();
    *AsRef::<[u8; 32]>::as_ref(&account)
}

} // verus!
