//! The ways in which an operation of the protocol is rejected.

use vstd::prelude::*;

verus! {

/// Why an operation was rejected. Each failure concerns one player's data;
/// none is retried or hidden.
#[derive(Clone, Copy, Debug, PartialEq, Eq, Structural)]
pub enum CardError {
    /// A signature on the join message does not verify under its signer's
    /// public key, or is not the encoding of a signature at all.
    InvalidSignature,
    /// The draw index is not below `MAX_DRAWS`.
    DrawIndexOutOfRange,
    /// The proof bytes of a record are not the encoding of a proof.
    MalformedProof,
    /// The proof does not show that the pre-output belongs to the public
    /// key and the transcript.
    InvalidProof,
    /// The proof is valid, but the card it yields is not the claimed one.
    CardMismatch,
}

} // verus!
