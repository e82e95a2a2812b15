//! Identities: the principals of the ledger.
//!
//! An identity is an account address or a public key: a fixed-width string
//! of bytes. Possession of the matching private credential is what makes a
//! caller *be* that identity; the ledger itself only ever compares
//! identities for equality and checks membership in the set of co-signers
//! that the caller presented.

use vstd::prelude::*;

verus! {

/// The width in bytes of an identity (an account address / public key).
pub const IDENTITY_BYTES: usize = 32;

/// A principal: an account address or public key, compared only for
/// equality. The ledger never inspects the bytes beyond that.
#[derive(Clone, Copy, PartialEq, Eq, Debug)]
pub struct Identity {
    pub bytes: [u8; IDENTITY_BYTES],
}

impl View for Identity {
    type V = Seq<u8>;

    open spec fn view(&self) -> Seq<u8> {
        self.bytes@
    }
}

impl Identity {
    /// Builds the identity with the given address bytes.
    pub fn new(bytes: [u8; IDENTITY_BYTES]) -> (r: Identity)
        ensures
            r@ == bytes@,
    {
        Identity { bytes }
    }
}

/// Whether two identities are the same principal.
pub fn identity_eq(a: &Identity, b: &Identity) -> (r: bool)
    ensures
        r == (a@ == b@),
{
    let mut i: usize = 0;
    while i < IDENTITY_BYTES
        invariant
            i <= IDENTITY_BYTES,
            forall|j: int| 0 <= j < i ==> a.bytes@[j] == b.bytes@[j],
        decreases IDENTITY_BYTES - i,
    {
        if a.bytes[i] != b.bytes[i] {
            assert(a@[i as int] != b@[i as int]);
            return false;
        }
        i = i + 1;
    }
    assert(a.bytes@ =~= b.bytes@);
    true
}

/// Whether the sequence of presented co-signers contains the given
/// principal: the ledger's notion of "this identity signed the request".
pub open spec fn sig_contains(signers: Seq<Identity>, id: Seq<u8>) -> bool {
    exists|i: int| 0 <= i < signers.len() && signers[i]@ == id
}

/// Whether `id` co-signed the request, given the verified signer set
/// `signers` that the caller presented.
pub fn is_signer(signers: &Vec<Identity>, id: &Identity) -> (r: bool)
    ensures
        r == sig_contains(signers@, id@),
{
    let mut i: usize = 0;
    while i < signers.len()
        invariant
            i <= signers@.len(),
            forall|j: int| 0 <= j < i ==> signers@[j]@ != id@,
        decreases signers@.len() - i,
    {
        if identity_eq(&signers[i], id) {
            assert(sig_contains(signers@, id@));
            return true;
        }
        i = i + 1;
    }
    false
}

} // verus!
