//! The shared seed and the commitment that fixes it.
//!
//! Every player signs the join message. The signatures, in the order of
//! the players, are hashed to 16 bytes. No player who holds fewer than all
//! secret keys can choose the seed.

use vstd::prelude::*;
use merlin::Transcript;
use crate::bytes::{concat, lemma_concat_push};
use crate::error::CardError;
use crate::identity::{Identity, PublicKey};
use crate::schnorr::{
    public_key_of,
    sign_transcript,
    signature_of,
    signature_verifies,
    verify_signature,
};
use crate::transcript::{new_log, transcript_challenge, transcript_log};

verus! {

/// The domain separator of a signing transcript: `SigningContext`.
pub const SIGNING_DOMAIN: [u8; 14] = [83, 105, 103, 110, 105, 110, 103, 67, 111, 110, 116, 101, 120, 116];

/// The label of the context in a signing transcript: empty.
pub const CONTEXT_LABEL: [u8; 0] = [];

/// The context under which players sign the join message: `Card Game Join`.
pub const JOIN_CONTEXT: [u8; 14] = [67, 97, 114, 100, 32, 71, 97, 109, 101, 32, 74, 111, 105, 110];

/// The label of the message in a signing transcript: `sign-bytes`.
pub const MESSAGE_LABEL: [u8; 10] = [115, 105, 103, 110, 45, 98, 121, 116, 101, 115];

/// The domain separator of the transcript that hashes the signatures:
/// `Card Game Seed`.
pub const SEED_DOMAIN: [u8; 14] = [67, 97, 114, 100, 32, 71, 97, 109, 101, 32, 83, 101, 101, 100];

/// The label of the signatures in that transcript: `signatures`.
pub const SIGNATURES_LABEL: [u8; 10] = [115, 105, 103, 110, 97, 116, 117, 114, 101, 115];

/// The label under which the seed is taken from that transcript: `seed`.
pub const SEED_OUTPUT_LABEL: [u8; 4] = [115, 101, 101, 100];

/// The seed of the ChaCha stream that enters a signature's nonce.
pub const SIGNATURE_NONCE_SEED: [u8; 32] = [
    0, 0, 0, 0, 0, 0, 0, 0, 0, 0, 0, 0, 0, 0, 0, 0, 0, 0, 0, 0, 0, 0, 0, 0, 0, 0, 0, 0, 0, 0, 0, 0,
];

/// The most players whose signatures fit into one Merlin message.
pub const MAX_SIGNERS: usize = 0x3ff_ffff;

/// The randomness that all draws of one game are bound to: 16 bytes, fixed
/// before the first draw and never changed.
#[derive(Clone, Copy, Debug, PartialEq, Eq)]
pub struct Seed {
    bytes: [u8; 16],
}

impl View for Seed {
    type V = Seq<u8>;

    closed spec fn view(&self) -> Seq<u8> {
        self.bytes@
    }
}

impl Seed {
    /// Takes a seed as the commitment published it.
    pub fn from_published(bytes: [u8; 16]) -> (seed: Seed)
        ensures
            seed@ == bytes@,
    {
        Seed { bytes }
    }

    /// The bytes to publish.
    pub fn to_bytes(&self) -> (bytes: [u8; 16])
        ensures
            bytes@ == self@,
    {
        self.bytes
    }

    /// A seed is its 16 bytes: seeds of the same bytes are the same seed.
    pub proof fn lemma_seed_is_its_bytes(self, other: Seed)
        ensures
            self@.len() == 16,
            self@ == other@ ==> self == other,
    {
        if self@ == other@ {
            assert(self.bytes =~= other.bytes);
        }
    }
}

/// The log of the transcript on which the join message is signed.
pub open spec fn join_log(message: Seq<u8>) -> Seq<(Seq<u8>, Seq<u8>)> {
    new_log(SIGNING_DOMAIN@).push((CONTEXT_LABEL@, JOIN_CONTEXT@)).push((MESSAGE_LABEL@, message))
}

/// The signature of the secret key `secret` on the join message.
pub open spec fn join_signature(secret: Seq<u8>, message: Seq<u8>) -> Seq<u8> {
    signature_of(secret, join_log(message), SIGNATURE_NONCE_SEED@)
}

/// The signatures of the secret keys `secrets` on the join message, in
/// their order.
pub open spec fn join_signatures(secrets: Seq<Seq<u8>>, message: Seq<u8>) -> Seq<Seq<u8>> {
    Seq::new(secrets.len(), |i: int| join_signature(secrets[i], message))
}

/// Whether there is one signature for each public key, and each is
/// accepted for its key on the join message.
pub open spec fn signatures_verify(
    publics: Seq<Seq<u8>>,
    message: Seq<u8>,
    signatures: Seq<Seq<u8>>,
) -> bool {
    publics.len() == signatures.len() && forall|i: int|
        0 <= i < publics.len() ==> #[trigger] signature_verifies(
            publics[i],
            join_log(message),
            signatures[i],
        )
}

/// The seed that the signatures commit to: the hash to 16 bytes of the
/// signatures one after the other.
pub open spec fn seed_of_signatures(signatures: Seq<Seq<u8>>) -> Seq<u8> {
    transcript_challenge(
        new_log(SEED_DOMAIN@).push((SIGNATURES_LABEL@, concat(signatures))),
        SEED_OUTPUT_LABEL@,
        16,
    )
}

/// The encodings of the public keys in `keys`.
pub open spec fn public_key_views(keys: Seq<PublicKey>) -> Seq<Seq<u8>> {
    Seq::new(keys.len(), |i: int| keys[i]@)
}

/// The byte sequences of the vectors in `items`.
pub open spec fn byte_views(items: Seq<Vec<u8>>) -> Seq<Seq<u8>> {
    Seq::new(items.len(), |i: int| items[i]@)
}

/// The encodings of the secret keys of `identities`.
pub open spec fn secret_views(identities: Seq<Identity>) -> Seq<Seq<u8>> {
    Seq::new(identities.len(), |i: int| identities[i].secret())
}

/// Builds the transcript on which the join message is signed.
pub fn join_transcript(message: &[u8]) -> (t: Transcript)
    requires
        message@.len() <= u32::MAX,
    ensures
        transcript_log(t) == join_log(message@),
{
    let mut t = Transcript::new(&SIGNING_DOMAIN);
    t.append_message(&CONTEXT_LABEL, &JOIN_CONTEXT);
    t.append_message(&MESSAGE_LABEL, message);
    t
}

/// Signs the join message for one player. The signature is a function of
/// the secret key and the message, and it is accepted for the player's
/// public key.
pub fn sign_join_message(identity: &Identity, message: &[u8]) -> (signature: [u8; 64])
    requires
        message@.len() <= u32::MAX,
    ensures
        signature@ == join_signature(identity.secret(), message@),
        signature_verifies(public_key_of(identity.secret()), join_log(message@), signature@),
{
    let secret: [u8; 64] = identity.secret_bytes();
    let t = join_transcript(message);
    sign_transcript(&secret, t, &SIGNATURE_NONCE_SEED)
}

/// Commits to the seed: checks every player's signature on the join
/// message against the player's public key, then hashes the signatures,
/// in the order given, to 16 bytes. One signature too few, too many, of
/// the wrong length or not accepted for its key fails the whole
/// commitment: no seed comes out of it.
pub fn seed_from_signatures(public_keys: &[PublicKey], message: &[u8], signatures: &[Vec<u8>]) -> (result:
    Result<Seed, CardError>)
    requires
        message@.len() <= u32::MAX,
        public_keys@.len() <= MAX_SIGNERS,
    ensures
        result is Ok <==> signatures_verify(
            public_key_views(public_keys@),
            message@,
            byte_views(signatures@),
        ),
        result matches Ok(seed) ==> seed@ == seed_of_signatures(byte_views(signatures@)),
        result matches Ok(seed) ==> seed@.len() == 16,
        result matches Err(e) ==> e == CardError::InvalidSignature,
{
    let n: usize = public_keys.len();
    if signatures.len() != n {
        return Err(CardError::InvalidSignature);
    }
    let ghost publics = public_key_views(public_keys@);
    let ghost views = byte_views(signatures@);
    let mut all: Vec<u8> = Vec::new();
    let mut i: usize = 0;
    while i < n
        invariant
            i <= n,
            n == public_keys@.len(),
            n == signatures@.len(),
            n <= MAX_SIGNERS,
            message@.len() <= u32::MAX,
            publics == public_key_views(public_keys@),
            views == byte_views(signatures@),
            all@ == concat(views.take(i as int)),
            all@.len() == 64 * i,
            forall|j: int|
                0 <= j < i ==> #[trigger] signature_verifies(
                    publics[j],
                    join_log(message@),
                    views[j],
                ),
        decreases n - i,
    {
        let t = join_transcript(message);
        let signature: &Vec<u8> = &signatures[i];
        if !verify_signature(&public_keys[i].bytes, t, signature.as_slice()) {
            assert(!signature_verifies(publics[i as int], join_log(message@), views[i as int]));
            return Err(CardError::InvalidSignature);
        }
        let ghost before = all@;
        let mut k: usize = 0;
        while k < 64
            invariant
                k <= 64,
                signature@.len() == 64,
                all@ == before + signature@.take(k as int),
            decreases 64 - k,
        {
            all.push(signature[k]);
            k += 1;
            assert(signature@.take(k as int) =~= signature@.take(k - 1).push(signature@[k - 1]));
        }
        proof {
            assert(signature@.take(64) =~= signature@);
            assert(views.take(i + 1) =~= views.take(i as int).push(signature@));
            lemma_concat_push(views.take(i as int), signature@);
        }
        i += 1;
    }
    assert(views.take(n as int) =~= views);
    let mut t = Transcript::new(&SEED_DOMAIN);
    t.append_message(&SIGNATURES_LABEL, all.as_slice());
    let mut bytes: [u8; 16] = [0u8; 16];
    t.challenge_bytes(&SEED_OUTPUT_LABEL, &mut bytes);
    Ok(Seed { bytes })
}

/// Derives the seed of a game whose players are all at hand: every
/// identity signs the join message, and the signatures commit to the seed
/// in the order of the identities. The seed is a function of the secret
/// keys, their order and the message.
pub fn derive_seed(identities: &[Identity], message: &[u8]) -> (result: Result<Seed, CardError>)
    requires
        message@.len() <= u32::MAX,
        identities@.len() <= MAX_SIGNERS,
    ensures
        result matches Ok(seed) && seed@ == seed_of_signatures(
            join_signatures(secret_views(identities@), message@),
        ),
{
    let n: usize = identities.len();
    let mut public_keys: Vec<PublicKey> = Vec::new();
    let mut signatures: Vec<Vec<u8>> = Vec::new();
    let mut i: usize = 0;
    while i < n
        invariant
            i <= n,
            n == identities@.len(),
            message@.len() <= u32::MAX,
            public_keys@.len() == i,
            signatures@.len() == i,
            forall|j: int|
                0 <= j < i ==> signatures@[j]@ == join_signature(
                    #[trigger] identities@[j].secret(),
                    message@,
                ),
            forall|j: int|
                0 <= j < i ==> #[trigger] signature_verifies(
                    public_keys@[j]@,
                    join_log(message@),
                    signatures@[j]@,
                ),
        decreases n - i,
    {
        let signature: [u8; 64] = sign_join_message(&identities[i], message);
        public_keys.push(identities[i].public_key());
        signatures.push(vstd::slice::slice_to_vec(&signature));
        i += 1;
    }
    proof {
        assert(byte_views(signatures@) =~= join_signatures(secret_views(identities@), message@));
        assert(signatures_verify(
            public_key_views(public_keys@),
            message@,
            byte_views(signatures@),
        ));
    }
    seed_from_signatures(public_keys.as_slice(), message, signatures.as_slice())
}

} // verus!
