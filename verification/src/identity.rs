//! Identities: who may change a record.

use vstd::prelude::*;

verus! {

/// The number of bytes in an identity.
pub const IDENTITY_BYTES: usize = 32;

/// An already authenticated identity: thirty-two bytes that are only ever
/// compared for equality.
///
/// Proving that a caller owns an identity is the host's business; this
/// library receives the identity as a value and trusts it.
#[derive(Clone, Copy, Debug)]
pub struct Identity {
    bytes: [u8; 32],
}

impl View for Identity {
    type V = Seq<u8>;

    closed spec fn view(&self) -> Seq<u8> {
        self.bytes@
    }
}

impl Identity {
    /// The identity made of `bytes`.
    pub fn new(bytes: [u8; 32]) -> (id: Identity)
        ensures
            id@ == bytes@,
    {
        Identity { bytes }
    }

    /// The bytes this identity is made of.
    pub fn to_bytes(&self) -> (bytes: [u8; 32])
        ensures
            bytes@ == self@,
    {
        self.bytes
    }

    /// An identity is its bytes and nothing else: every view has thirty-two
    /// bytes, and two identities with the same view are the same identity.
    pub proof fn lemma_view_determines_identity(a: Identity, b: Identity)
        ensures
            a@.len() == 32,
            a@ == b@ <==> a == b,
    {
        broadcast use vstd::array::group_array_axioms;

        if a@ == b@ {
            assert(a.bytes@ =~= b.bytes@);
            assert(a.bytes == b.bytes);
        }
    }
}

impl PartialEq for Identity {
    /// Compares the two identities byte by byte.
    fn eq(&self, other: &Identity) -> (same: bool) {
        let mut i: usize = 0;
        while i < IDENTITY_BYTES
            invariant
                i <= IDENTITY_BYTES,
                forall|j: int| 0 <= j < i ==> self.bytes@[j] == other.bytes@[j],
            decreases IDENTITY_BYTES - i,
        {
            if self.bytes[i] != other.bytes[i] {
                return false;
            }
            i += 1;
        }
        proof {
            broadcast use vstd::array::group_array_axioms;

            assert(self.bytes@ =~= other.bytes@);
            assert(self.bytes == other.bytes);
        }
        true
    }
}

impl vstd::std_specs::cmp::PartialEqSpecImpl for Identity {
    open spec fn obeys_eq_spec() -> bool {
        true
    }

    open spec fn eq_spec(&self, other: &Identity) -> bool {
        *self == *other
    }
}

impl Eq for Identity {

}

} // verus!
