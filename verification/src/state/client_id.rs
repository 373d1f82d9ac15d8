//! Who this client is to a server.
use vstd::prelude::*;

use crate::bytes::copy_bytes;
use crate::transport::Verifier;

verus! {

/// The identity string and boot verifier SETCLIENTID presents.
///
/// A new verifier under the same string is a client restart; the same verifier is
/// a reconnect.
#[derive(Debug, PartialEq, Eq)]
pub struct ClientIdentity {
    id: Vec<u8>,
    boot_verifier: Verifier,
}

/// The content of a [`ClientIdentity`].
pub struct ClientIdentityView {
    /// The identity string.
    pub id: Seq<u8>,
    /// The boot verifier.
    pub boot_verifier: Verifier,
}

impl View for ClientIdentity {
    type V = ClientIdentityView;

    closed spec fn view(&self) -> ClientIdentityView {
        ClientIdentityView { id: self.id@, boot_verifier: self.boot_verifier }
    }
}

impl ClientIdentity {
    /// An identity.
    pub fn new(id: Vec<u8>, boot_verifier: Verifier) -> (r: Self)
        ensures
            r@ == (ClientIdentityView { id: id@, boot_verifier }),
    {
        ClientIdentity { id, boot_verifier }
    }

    /// The identity string.
    pub fn id(&self) -> (r: &[u8])
        ensures
            r@ == self@.id,
    {
        self.id.as_slice()
    }

    /// A copy of the identity string.
    pub(crate) fn copied_id(&self) -> (r: Vec<u8>)
        ensures
            r@ == self@.id,
    {
        copy_bytes(self.id.as_slice())
    }

    /// The boot verifier.
    pub fn boot_verifier(&self) -> (r: Verifier)
        ensures
            r == self@.boot_verifier,
    {
        self.boot_verifier
    }
}

} // verus!
