//! A player's key pair.

use vstd::prelude::*;
use crate::schnorr::{generate_secret_key, is_secret_key, public_key_from_secret, public_key_of};

verus! {

/// A public key as the 32 bytes of its encoding. It is freely handed out.
#[derive(Clone, Copy, Debug, PartialEq, Eq)]
pub struct PublicKey {
    pub bytes: [u8; 32],
}

impl View for PublicKey {
    type V = Seq<u8>;

    open spec fn view(&self) -> Seq<u8> {
        self.bytes@
    }
}

impl PublicKey {
    /// Takes a public key as it was published.
    pub fn from_bytes(bytes: [u8; 32]) -> (key: PublicKey)
        ensures
            key@ == bytes@,
    {
        PublicKey { bytes }
    }

    /// The bytes to publish.
    pub fn to_bytes(&self) -> (bytes: [u8; 32])
        ensures
            bytes@ == self@,
    {
        self.bytes
    }
}

/// A player's secret key with the public key that belongs to it. It is owned
/// by one player and never shared.
pub struct Identity {
    secret: [u8; 64],
    public: [u8; 32],
}

impl Identity {
    /// The encoding of the secret key.
    pub closed spec fn secret(&self) -> Seq<u8> {
        self.secret@
    }

    #[verifier::type_invariant]
    spec fn well_formed(&self) -> bool {
        is_secret_key(self.secret@) && self.public@ == public_key_of(self.secret@)
    }

    /// A fresh identity from the operating system's randomness.
    pub fn generate() -> (identity: Identity)
        ensures
            is_secret_key(identity.secret()),
    {
        let secret: [u8; 64] = generate_secret_key();
        let public: [u8; 32] = public_key_from_secret(&secret).unwrap();
        Identity { secret, public }
    }

    /// The identity of the secret key that `bytes` encode: a scalar below
    /// the group order, least significant byte first, followed by 32 bytes
    /// of nonce seed. `None` where the scalar is not below the group order.
    pub fn from_secret_bytes(bytes: &[u8; 64]) -> (identity: Option<Identity>)
        ensures
            identity is Some <==> is_secret_key(bytes@),
            identity is Some ==> identity->0.secret() == bytes@,
    {
        match public_key_from_secret(bytes) {
            Some(public) => Some(Identity { secret: *bytes, public }),
            None => None,
        }
    }

    /// The encoding of the secret key, for safekeeping.
    pub fn secret_bytes(&self) -> (bytes: [u8; 64])
        ensures
            bytes@ == self.secret(),
            is_secret_key(self.secret()),
    {
        proof {
            use_type_invariant(self);
        }
        self.secret
    }

    /// The public key that belongs to the secret key.
    pub fn public_key(&self) -> (key: PublicKey)
        ensures
            key@ == public_key_of(self.secret()),
    {
        proof {
            use_type_invariant(self);
        }
        PublicKey { bytes: self.public }
    }
}

} // verus!
