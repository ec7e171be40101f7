//! The operations of schnorrkel that the protocol rests on, from bytes to
//! bytes. The functions marked `external_body` are taken on trust: each
//! states what the schnorrkel call in its body returns, and the functions
//! without a body name those results.
//!
//! Signing here is derandomised: the nonce of a proof or of a signature is
//! drawn from the transcript, the signer's nonce seed and a ChaCha stream
//! of a given seed, so that equal inputs give equal bytes.

use vstd::prelude::*;
use merlin::Transcript;
use rand::rngs::OsRng;
use rand_chacha::rand_core::SeedableRng;
use rand_chacha::ChaChaRng;
use schnorrkel::context::attach_rng;
use schnorrkel::points::RistrettoBoth;
use schnorrkel::vrf::{VRFInOut, VRFPreOut, VRFProof};
use schnorrkel::{Keypair, SecretKey, Signature};
use crate::bytes::le_value;
use crate::transcript::{new_log, transcript_challenge, transcript_log};

verus! {

/// The order of the Ristretto group: 2^252 + 27742317777372353535851937790883648493.
pub open spec fn group_order() -> nat {
    0x1000000000000000000000000000000014def9dea2f79cd65812631a5cf5d3ednat
}

/// Whether 32 bytes are the canonical encoding of a scalar: the number
/// they encode, least significant byte first, is below the group order.
pub open spec fn is_canonical_scalar(bytes: Seq<u8>) -> bool {
    bytes.len() == 32 && le_value(bytes) < group_order()
}

/// Whether 64 bytes are the encoding of a secret key: a canonical scalar
/// followed by 32 bytes of nonce seed.
pub open spec fn is_secret_key(bytes: Seq<u8>) -> bool {
    bytes.len() == 64 && is_canonical_scalar(bytes.subrange(0, 32))
}

/// Whether 64 bytes are the encoding of a proof: two canonical scalars,
/// the challenge and the response.
pub open spec fn is_proof(bytes: Seq<u8>) -> bool {
    bytes.len() == 64 && is_canonical_scalar(bytes.subrange(0, 32)) && is_canonical_scalar(
        bytes.subrange(32, 64),
    )
}

/// The encoding of the group's identity: 32 zero bytes.
pub open spec fn identity_point() -> Seq<u8> {
    Seq::new(32, |i: int| 0u8)
}

/// The encoding of the public key of the secret key that `secret` encodes.
pub uninterp spec fn public_key_of(secret: Seq<u8>) -> Seq<u8>;

/// Whether 32 bytes are the encoding of a Ristretto point.
pub uninterp spec fn is_ristretto_point(bytes: Seq<u8>) -> bool;

/// What the function yields under the secret key `secret` on a transcript
/// with the log `log`, proved on a transcript with the log `extra` and
/// with nonces seeded by `nonce_seed`: the encodings of the input point,
/// of the output point and of the proof.
pub uninterp spec fn vrf_sign_result(
    secret: Seq<u8>,
    log: Seq<(Seq<u8>, Seq<u8>)>,
    extra: Seq<(Seq<u8>, Seq<u8>)>,
    nonce_seed: Seq<u8>,
) -> (Seq<u8>, Seq<u8>, Seq<u8>);

/// What verification yields for the public key `public`, a transcript with
/// the log `log`, the pre-output, the proof and a proof transcript with
/// the log `extra`: the encodings of the input and the output point where
/// the proof is accepted, `None` where it is not.
pub uninterp spec fn vrf_verify_result(
    public: Seq<u8>,
    log: Seq<(Seq<u8>, Seq<u8>)>,
    pre_output: Seq<u8>,
    proof_bytes: Seq<u8>,
    extra: Seq<(Seq<u8>, Seq<u8>)>,
) -> Option<(Seq<u8>, Seq<u8>)>;

/// The domain separator of the transcript that output bytes are taken
/// from: `VRFResult`.
pub open spec fn output_domain() -> Seq<u8> {
    seq![86u8, 82u8, 70u8, 82u8, 101u8, 115u8, 117u8, 108u8, 116u8]
}

/// The label of the input point in that transcript: `vrf-in`.
pub open spec fn input_label() -> Seq<u8> {
    seq![118u8, 114u8, 102u8, 45u8, 105u8, 110u8]
}

/// The label of the output point in that transcript: `vrf-out`.
pub open spec fn output_label() -> Seq<u8> {
    seq![118u8, 114u8, 102u8, 45u8, 111u8, 117u8, 116u8]
}

/// The eight bytes that a pair of input and output point yields under
/// `context`: the challenge, under the empty label, of a transcript that
/// has absorbed the context under the empty label, then the input point
/// and the output point.
pub open spec fn vrf_output_bytes(input: Seq<u8>, output: Seq<u8>, context: Seq<u8>) -> Seq<u8> {
    transcript_challenge(
        new_log(output_domain()).push((Seq::<u8>::empty(), context)).push(
            (input_label(), input),
        ).push((output_label(), output)),
        Seq::<u8>::empty(),
        8,
    )
}

/// The signature under the secret key `secret` on a transcript with the
/// log `log`, with the nonce seeded by `nonce_seed`.
pub uninterp spec fn signature_of(
    secret: Seq<u8>,
    log: Seq<(Seq<u8>, Seq<u8>)>,
    nonce_seed: Seq<u8>,
) -> Seq<u8>;

/// Whether `signature` is accepted for the public key `public` on a
/// transcript with the log `log`.
pub uninterp spec fn signature_verifies(
    public: Seq<u8>,
    log: Seq<(Seq<u8>, Seq<u8>)>,
    signature: Seq<u8>,
) -> bool;

/// An input point and the output point that belongs to it under some key,
/// each as the 32 bytes of its encoding.
#[derive(Clone, Copy, Debug, PartialEq, Eq)]
pub struct VrfInOut {
    pub(crate) input: [u8; 32],
    pub(crate) output: [u8; 32],
}

impl VrfInOut {
    /// The encoding of the input point.
    pub closed spec fn input(&self) -> Seq<u8> {
        self.input@
    }

    /// The encoding of the output point.
    pub closed spec fn output(&self) -> Seq<u8> {
        self.output@
    }

    #[verifier::type_invariant]
    pub(crate) open spec fn well_formed(&self) -> bool {
        is_ristretto_point(self.input()) && is_ristretto_point(self.output())
    }

    /// The pair of the two encodings, where each is the encoding of a point.
    pub fn from_bytes(input: [u8; 32], output: [u8; 32]) -> (pair: Option<VrfInOut>)
        ensures
            pair is Some <==> is_ristretto_point(input@) && is_ristretto_point(output@),
            pair matches Some(io) ==> io.input() == input@ && io.output() == output@,
    {
        if point_decompresses(&input) && point_decompresses(&output) {
            Some(VrfInOut { input, output })
        } else {
            None
        }
    }

    /// The pre-output: the encoding of the output point.
    pub fn to_preout(&self) -> (pre_output: [u8; 32])
        ensures
            pre_output@ == self.output(),
    {
        self.output
    }
}

/// The encodings of the two points of a pair, if there is one.
pub open spec fn points_of(pair: Option<VrfInOut>) -> Option<(Seq<u8>, Seq<u8>)> {
    match pair {
        Some(io) => Some((io.input(), io.output())),
        None => None,
    }
}

/// `Keypair::generate_with` on the operating system's generator, and
/// `SecretKey::to_bytes`: whatever key comes out, its scalar is reduced, so
/// its bytes are the encoding of a secret key.
#[verifier::external_body]
pub(crate) fn generate_secret_key() -> (secret: [u8; 64])
    ensures
        is_secret_key(secret@),
{
    Keypair::generate_with(OsRng).secret.to_bytes()
}

/// `SecretKey::from_bytes`, which accepts 64 bytes exactly when the first
/// 32 are a canonical scalar, then `SecretKey::to_public` and
/// `PublicKey::to_bytes`.
#[verifier::external_body]
pub(crate) fn public_key_from_secret(secret: &[u8; 64]) -> (public: Option<[u8; 32]>)
    ensures
        public is Some <==> is_secret_key(secret@),
        public is Some ==> public->0@ == public_key_of(secret@),
{
    match SecretKey::from_bytes(secret) {
        Ok(key) => Some(key.to_public().to_bytes()),
        Err(_) => None,
    }
}

/// `RistrettoBoth::from_bytes`, which accepts 32 bytes exactly when they
/// decompress to a point.
#[verifier::external_body]
pub(crate) fn point_decompresses(bytes: &[u8; 32]) -> (ok: bool)
    ensures
        ok == is_ristretto_point(bytes@),
{
    RistrettoBoth::from_bytes(bytes).is_ok()
}

/// `Keypair::vrf_sign_extra`, with the proof transcript given a ChaCha
/// generator by `attach_rng`. The result is a function of the arguments.
/// Both points are encodings of points and the proof is the encoding of a
/// proof. Verification under the signer's public key on equal transcripts
/// accepts the proof and yields the same pair of points, unless the output
/// is the identity, which verification refuses.
#[verifier::external_body]
pub(crate) fn vrf_sign_extra(
    secret: &[u8; 64],
    t: Transcript,
    extra: Transcript,
    nonce_seed: &[u8; 32],
) -> (signed: (VrfInOut, [u8; 64]))
    requires
        is_secret_key(secret@),
    ensures
        (signed.0.input(), signed.0.output(), signed.1@) == vrf_sign_result(
            secret@,
            transcript_log(t),
            transcript_log(extra),
            nonce_seed@,
        ),
        is_ristretto_point(signed.0.input()),
        is_ristretto_point(signed.0.output()),
        is_proof(signed.1@),
        vrf_verify_result(
            public_key_of(secret@),
            transcript_log(t),
            signed.0.output(),
            signed.1@,
            transcript_log(extra),
        ) == if signed.0.output() == identity_point() {
            None
        } else {
            Some((signed.0.input(), signed.0.output()))
        },
{
    let keypair = SecretKey::from_bytes(secret).unwrap().to_keypair();
    let nonces = attach_rng(extra, ChaChaRng::from_seed(*nonce_seed));
    let (io, dleq, _) = keypair.vrf_sign_extra(t, nonces);
    (VrfInOut { input: io.input.to_bytes(), output: io.output.to_bytes() }, dleq.to_bytes())
}

/// `VRFProof::from_bytes`, which accepts 64 bytes exactly when each half
/// is a canonical scalar.
#[verifier::external_body]
pub(crate) fn proof_parses(proof_bytes: &[u8; 64]) -> (ok: bool)
    ensures
        ok == is_proof(proof_bytes@),
{
    VRFProof::from_bytes(proof_bytes).is_ok()
}

/// `PublicKey::vrf_verify_extra`, after `PublicKey::from_bytes` and
/// `VRFProof::from_bytes`. The result is a function of the arguments; it is
/// `None` where the public key does not parse or the proof is refused. A
/// pre-output that is no point, or the identity, is refused before the
/// proof is looked at. An accepted pair consists of encodings of points,
/// and its output is the pre-output that was given.
#[verifier::external_body]
pub(crate) fn vrf_verify_extra(
    public: &[u8; 32],
    t: Transcript,
    pre_output: &[u8; 32],
    proof_bytes: &[u8; 64],
    extra: Transcript,
) -> (verified: Option<VrfInOut>)
    requires
        is_proof(proof_bytes@),
    ensures
        points_of(verified) == vrf_verify_result(
            public@,
            transcript_log(t),
            pre_output@,
            proof_bytes@,
            transcript_log(extra),
        ),
        verified matches Some(io) ==> is_ristretto_point(io.input()) && is_ristretto_point(
            io.output(),
        ) && io.output() == pre_output@,
        !is_ristretto_point(pre_output@) || pre_output@ == identity_point() ==> verified is None,
{
    let public = match schnorrkel::PublicKey::from_bytes(public) {
        Ok(public) => public,
        Err(_) => return None,
    };
    let parsed = VRFProof::from_bytes(proof_bytes).unwrap();
    match public.vrf_verify_extra(t, &VRFPreOut(*pre_output), &parsed, extra) {
        Ok((io, _)) => Some(VrfInOut { input: io.input.to_bytes(), output: io.output.to_bytes() }),
        Err(_) => None,
    }
}

/// `VRFInOut::make_bytes` at eight bytes, on the pair rebuilt by
/// `RistrettoBoth::from_bytes`. It starts a Merlin transcript under
/// `VRFResult`, appends the context under the empty label, the input point
/// under `vrf-in` and the output point under `vrf-out`, and takes eight
/// challenge bytes under the empty label. Merlin panics on a context
/// longer than 32 bits can count.
#[verifier::external_body]
pub(crate) fn vrf_make_bytes(io: &VrfInOut, context: &[u8]) -> (out: [u8; 8])
    requires
        is_ristretto_point(io.input()),
        is_ristretto_point(io.output()),
        context@.len() <= u32::MAX,
    ensures
        out@ == vrf_output_bytes(io.input(), io.output(), context@),
{
    let input = RistrettoBoth::from_bytes(&io.input).unwrap();
    let output = RistrettoBoth::from_bytes(&io.output).unwrap();
    VRFInOut { input, output }.make_bytes::<[u8; 8]>(context)
}

/// `Keypair::sign`, with the transcript given a ChaCha generator by
/// `attach_rng`, and `Signature::to_bytes`. The result is a function of the
/// arguments, and verification under the signer's public key on an equal
/// transcript accepts it.
#[verifier::external_body]
pub(crate) fn sign_transcript(secret: &[u8; 64], t: Transcript, nonce_seed: &[u8; 32]) -> (signature:
    [u8; 64])
    requires
        is_secret_key(secret@),
    ensures
        signature@ == signature_of(secret@, transcript_log(t), nonce_seed@),
        signature_verifies(public_key_of(secret@), transcript_log(t), signature@),
{
    let keypair = SecretKey::from_bytes(secret).unwrap().to_keypair();
    keypair.sign(attach_rng(t, ChaChaRng::from_seed(*nonce_seed))).to_bytes()
}

/// `PublicKey::verify`, after `PublicKey::from_bytes` and
/// `Signature::from_bytes`. The result is a function of the arguments; it
/// is `false` where the key or the signature does not parse, as it is for
/// every signature that is not 64 bytes long.
#[verifier::external_body]
pub(crate) fn verify_signature(public: &[u8; 32], t: Transcript, signature: &[u8]) -> (ok: bool)
    ensures
        ok == signature_verifies(public@, transcript_log(t), signature@),
        ok ==> signature@.len() == 64,
{
    match (schnorrkel::PublicKey::from_bytes(public), Signature::from_bytes(signature)) {
        (Ok(public), Ok(signature)) => public.verify(t, &signature).is_ok(),
        _ => false,
    }
}

} // verus!
