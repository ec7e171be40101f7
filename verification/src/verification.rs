//! Verifying: from a public key, the seed and a disclosed record to the
//! card that the record proves.

use vstd::prelude::*;
use merlin::Transcript;
use crate::dealer::{
    card_of,
    draw_log,
    draw_transcript,
    find_card,
    proof_log,
    CARD_CONTEXT,
    PROOF_DOMAIN,
};
use crate::error::CardError;
use crate::identity::PublicKey;
use crate::params::{DECK_SIZE, MAX_DRAWS};
use crate::record::{record_draw_index, record_pre_output, record_proof, ProofRecord};
use crate::schnorr::{
    identity_point,
    is_proof,
    is_ristretto_point,
    point_decompresses,
    proof_parses,
    vrf_output_bytes,
    vrf_verify_extra,
    vrf_verify_result,
};
use crate::seed::Seed;

verus! {

/// What verification of the 97 bytes `record` yields under the public key
/// `public` and `seed`.
///
/// The draw index is read from the record and must be below `MAX_DRAWS`.
/// The pre-output must be the encoding of a point and the proof the
/// encoding of a proof. The proof must then be accepted for the public
/// key, the transcript of that draw under the seed and the pre-output;
/// bytes that are the encoding of no public key accept no proof. The card
/// is derived from the verified pair of points as the dealer derives it.
pub open spec fn verified_card(public: Seq<u8>, seed: Seq<u8>, record: Seq<u8>) -> Result<
    u16,
    CardError,
> {
    if record_draw_index(record) >= MAX_DRAWS {
        Err(CardError::DrawIndexOutOfRange)
    } else if !is_ristretto_point(record_pre_output(record)) || !is_proof(record_proof(record)) {
        Err(CardError::MalformedProof)
    } else {
        match vrf_verify_result(
            public,
            draw_log(seed, record_draw_index(record)),
            record_pre_output(record),
            record_proof(record),
            proof_log(),
        ) {
            None => Err(CardError::InvalidProof),
            Some(points) => Ok(card_of(vrf_output_bytes(points.0, points.1, CARD_CONTEXT@))),
        }
    }
}

/// Verifies a disclosed record under the discloser's public key and the
/// seed, and returns the card that it proves.
///
/// A card is returned for no record whose pre-output is the group's
/// identity, and the output point from which a card is derived is the
/// pre-output of the record itself.
pub fn verify_card_play(public: &PublicKey, record: &ProofRecord, seed: &Seed) -> (result: Result<
    u16,
    CardError,
>)
    ensures
        result == verified_card(public@, seed@, record@),
        result matches Ok(card) ==> card < DECK_SIZE,
        result is Ok ==> record_pre_output(record@) != identity_point(),
        result matches Ok(card) ==> vrf_verify_result(
            public@,
            draw_log(seed@, record_draw_index(record@)),
            record_pre_output(record@),
            record_proof(record@),
            proof_log(),
        ) matches Some(points) && points.1 == record_pre_output(record@),
{
    let t = match draw_transcript(seed, record.draw_index()) {
        Ok(t) => t,
        Err(e) => {
            return Err(e);
        },
    };
    let pre_output: [u8; 32] = record.pre_output();
    let proof_bytes: [u8; 64] = record.proof_bytes();
    if !point_decompresses(&pre_output) || !proof_parses(&proof_bytes) {
        return Err(CardError::MalformedProof);
    }
    let extra = Transcript::new(&PROOF_DOMAIN);
    match vrf_verify_extra(&public.bytes, t, &pre_output, &proof_bytes, extra) {
        Some(io) => Ok(find_card(&io)),
        None => Err(CardError::InvalidProof),
    }
}

} // verus!
