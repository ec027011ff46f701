//! Principals: the opaque 32-byte identifiers of traders, admins and
//! liquidators. The ledger never verifies a signature; it only compares
//! principals that arrive already authenticated.

use vstd::prelude::*;
use vstd::std_specs::cmp::PartialEqSpecImpl;

verus! {

/// An opaque identifier of an external actor.
#[derive(Clone, Copy, Debug, Eq)]
pub struct Principal {
    pub bytes: [u8; 32],
}

impl View for Principal {
    type V = Seq<u8>;

    open spec fn view(&self) -> Seq<u8> {
        self.bytes@
    }
}

impl Principal {
    /// The principal with the given identifier bytes.
    pub fn new(bytes: [u8; 32]) -> (p: Principal)
        ensures
            p.bytes == bytes,
    {
        Principal { bytes }
    }

    /// The identifier bytes of this principal.
    pub fn to_bytes(&self) -> (bytes: [u8; 32])
        ensures
            bytes == self.bytes,
    {
        self.bytes
    }

    /// Two principals are the same exactly when their 32 bytes agree.
    pub proof fn lemma_equal_iff_same_bytes(a: Principal, b: Principal)
        ensures
            a@.len() == 32,
            (a == b) <==> (a@ == b@),
    {
        if a@ == b@ {
            assert(a.bytes =~= b.bytes);
        }
    }
}

impl PartialEq for Principal {
    /// Compares the two identifiers byte by byte.
    fn eq(&self, other: &Principal) -> (r: bool) {
        let mut i: usize = 0;
        while i < 32
            invariant
                i <= 32,
                forall|j: int| 0 <= j < i ==> self.bytes[j] == other.bytes[j],
            decreases 32 - i,
        {
            if self.bytes[i] != other.bytes[i] {
                return false;
            }
            i += 1;
        }
        proof {
            assert(self.bytes =~= other.bytes);
        }
        true
    }
}

/// `==` on principals is equality of the identifiers.
impl PartialEqSpecImpl for Principal {
    open spec fn obeys_eq_spec() -> bool {
        true
    }

    open spec fn eq_spec(&self, other: &Principal) -> bool {
        *self == *other
    }
}

} // verus!
