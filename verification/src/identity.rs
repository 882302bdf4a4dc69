use vstd::prelude::*;

verus! {

/// An opaque identity, as the host authorization collaborator reports it
/// after verifying a signature. The engine only ever compares identities
/// against the keys stored in governance or in a redemption request.
#[derive(Clone, Copy, Debug, PartialEq, Eq, Structural)]
pub struct Identity {
    pub id: u64,
}

} // verus!
