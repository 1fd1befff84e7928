//! Account identifiers.

use vstd::prelude::*;

verus! {

/// Number of bytes in an account identifier.
pub const PUBKEY_BYTES: usize = 32;

/// The identifier of a ledger account: 32 opaque bytes, compared byte for byte.
#[derive(Clone, Copy, Debug, Eq, Hash)]
pub struct Pubkey(pub [u8; 32]);

impl View for Pubkey {
    type V = Seq<u8>;

    open spec fn view(&self) -> Seq<u8> {
        self.0@
    }
}

impl Pubkey {
    /// Wraps 32 bytes as an identifier.
    pub fn new_from_array(bytes: [u8; 32]) -> (key: Pubkey)
        ensures
            key.0 == bytes,
            key@ == bytes@,
    {
        Pubkey(bytes)
    }

    /// The 32 bytes of the identifier.
    pub fn to_bytes(&self) -> (bytes: [u8; 32])
        ensures
            bytes == self.0,
            bytes@ == self@,
    {
        self.0
    }

    /// An identifier is [`PUBKEY_BYTES`] bytes long, and two identifiers are the same
    /// value exactly when their byte sequences agree.
    pub proof fn lemma_view_injective(a: Pubkey, b: Pubkey)
        ensures
            a@.len() == PUBKEY_BYTES,
            (a == b) <==> (a@ == b@),
    {
        if a@ == b@ {
            assert(a.0 =~= b.0);
        }
    }
}

impl PartialEq for Pubkey {
    fn eq(&self, other: &Pubkey) -> (same: bool) {
        let mut i: usize = 0;
        while i < 32
            invariant
                i <= 32,
                forall|j: int| 0 <= j < i ==> self.0@[j] == other.0@[j],
            decreases 32 - i,
        {
            if self.0[i] != other.0[i] {
                return false;
            }
            i += 1;
        }
        assert(self.0 =~= other.0);
        true
    }
}

impl vstd::std_specs::cmp::PartialEqSpecImpl for Pubkey {
    open spec fn obeys_eq_spec() -> bool {
        true
    }

    open spec fn eq_spec(&self, other: &Pubkey) -> bool {
        *self == *other
    }
}

} // verus!
