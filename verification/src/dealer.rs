//! Dealing: from a secret key, the seed and a draw index to a card and the
//! record that proves it.

use vstd::prelude::*;
use merlin::Transcript;
use crate::bytes::{
    le_value,
    lemma_pow256_monotonic,
    lemma_pow256_values,
    lemma_u64_le_bytes_of_byte,
    pow256,
    u64_le_bytes,
};
use crate::error::CardError;
use crate::identity::Identity;
use crate::params::{DECK_SIZE, MAX_DRAWS};
use crate::record::{
    lemma_record_layout,
    record_bytes,
    record_draw_index,
    record_pre_output,
    record_proof,
    ProofRecord,
};
use crate::schnorr::{
    identity_point,
    public_key_of,
    vrf_make_bytes,
    vrf_output_bytes,
    vrf_sign_extra,
    vrf_sign_result,
    VrfInOut,
};
use crate::seed::Seed;
use crate::transcript::{domain_separator_label, new_log, transcript_log};
use crate::verification::verified_card;

verus! {

/// The domain separator of a draw's transcript: `Card Draw Transcript`.
pub const DRAW_DOMAIN: [u8; 20] = [
    67, 97, 114, 100, 32, 68, 114, 97, 119, 32, 84, 114, 97, 110, 115, 99, 114, 105, 112, 116,
];

/// The label of the seed in a draw's transcript: `seed`.
pub const SEED_LABEL: [u8; 4] = [115, 101, 101, 100];

/// The label of the draw index in a draw's transcript: `draw`.
pub const DRAW_LABEL: [u8; 4] = [100, 114, 97, 119];

/// The domain separator of the transcript that a proof is made on: `VRF`.
pub const PROOF_DOMAIN: [u8; 3] = [86, 82, 70];

/// The context under which a card's bytes are taken from the output: `card`.
pub const CARD_CONTEXT: [u8; 4] = [99, 97, 114, 100];

/// The seed of the ChaCha stream that enters a proof's nonce.
pub const NONCE_SEED: [u8; 32] = [
    0, 0, 0, 0, 0, 0, 0, 0, 0, 0, 0, 0, 0, 0, 0, 0, 0, 0, 0, 0, 0, 0, 0, 0, 0, 0, 0, 0, 0, 0, 0, 0,
];

/// The log of the transcript of the draw `draw_num` under `seed`: the
/// domain separator, the seed, and the draw index in eight bytes, least
/// significant first.
pub open spec fn draw_log(seed: Seq<u8>, draw_num: u8) -> Seq<(Seq<u8>, Seq<u8>)> {
    new_log(DRAW_DOMAIN@).push((SEED_LABEL@, seed)).push(
        (DRAW_LABEL@, u64_le_bytes(draw_num as u64)),
    )
}

/// The transcript of a draw holds three messages: the domain separator,
/// the seed, and the draw index followed by seven zero bytes.
pub proof fn lemma_draw_log_entries(seed: Seq<u8>, draw_num: u8)
    ensures
        draw_log(seed, draw_num) == seq![
            (domain_separator_label(), DRAW_DOMAIN@),
            (SEED_LABEL@, seed),
            (DRAW_LABEL@, seq![draw_num, 0u8, 0u8, 0u8, 0u8, 0u8, 0u8, 0u8]),
        ],
{
    lemma_u64_le_bytes_of_byte(draw_num);
    assert(draw_log(seed, draw_num) =~= seq![
        (domain_separator_label(), DRAW_DOMAIN@),
        (SEED_LABEL@, seed),
        (DRAW_LABEL@, seq![draw_num, 0u8, 0u8, 0u8, 0u8, 0u8, 0u8, 0u8]),
    ]);
}

/// The log of the transcript that a draw's proof is made on.
pub open spec fn proof_log() -> Seq<(Seq<u8>, Seq<u8>)> {
    new_log(PROOF_DOMAIN@)
}

/// The card that output bytes stand for: the number they encode, least
/// significant byte first, reduced modulo the size of the deck.
pub open spec fn card_of(output: Seq<u8>) -> u16 {
    (le_value(output) % (DECK_SIZE as nat)) as u16
}

/// The input point, the output point and the proof of the draw `draw_num`
/// under `seed` with the secret key `secret`.
pub open spec fn drawn_points(secret: Seq<u8>, seed: Seq<u8>, draw_num: u8) -> (
    Seq<u8>,
    Seq<u8>,
    Seq<u8>,
) {
    vrf_sign_result(secret, draw_log(seed, draw_num), proof_log(), NONCE_SEED@)
}

/// The card of the draw `draw_num` under `seed` with the secret key `secret`.
pub open spec fn drawn_card(secret: Seq<u8>, seed: Seq<u8>, draw_num: u8) -> u16 {
    let points = drawn_points(secret, seed, draw_num);
    card_of(vrf_output_bytes(points.0, points.1, CARD_CONTEXT@))
}

/// The bytes of the record of the draw `draw_num` under `seed` with the
/// secret key `secret`.
pub open spec fn drawn_record(secret: Seq<u8>, seed: Seq<u8>, draw_num: u8) -> Seq<u8> {
    let points = drawn_points(secret, seed, draw_num);
    record_bytes(points.1, points.2, draw_num)
}

/// Builds the transcript of the draw `draw_num` under `seed`. A draw index
/// that is not below `MAX_DRAWS` is rejected.
pub fn draw_transcript(seed: &Seed, draw_num: u8) -> (result: Result<Transcript, CardError>)
    ensures
        result is Ok <==> draw_num < MAX_DRAWS,
        result matches Ok(t) ==> transcript_log(t) == draw_log(seed@, draw_num),
        result matches Ok(t) ==> transcript_log(t) == seq![
            (domain_separator_label(), DRAW_DOMAIN@),
            (SEED_LABEL@, seed@),
            (DRAW_LABEL@, seq![draw_num, 0u8, 0u8, 0u8, 0u8, 0u8, 0u8, 0u8]),
        ],
        result matches Err(e) ==> e == CardError::DrawIndexOutOfRange,
{
    if draw_num >= MAX_DRAWS {
        return Err(CardError::DrawIndexOutOfRange);
    }
    proof {
        lemma_draw_log_entries(seed@, draw_num);
    }
    let seed_bytes: [u8; 16] = seed.to_bytes();
    let mut t = Transcript::new(&DRAW_DOMAIN);
    t.append_message(&SEED_LABEL, &seed_bytes);
    t.append_u64(&DRAW_LABEL, draw_num as u64);
    Ok(t)
}

/// The card that eight output bytes stand for.
pub fn card_from_bytes(bytes: &[u8; 8]) -> (card: u16)
    ensures
        card == card_of(bytes@),
        card < DECK_SIZE,
{
    let mut value: u64 = 0;
    let mut i: usize = 8;
    while i > 0
        invariant
            i <= 8,
            value == le_value(bytes@.subrange(i as int, 8)),
            value < pow256((8 - i) as nat),
        decreases i,
    {
        i -= 1;
        proof {
            let tail = bytes@.subrange(i as int, 8);
            assert(tail.drop_first() =~= bytes@.subrange(i + 1, 8));
            assert(tail[0] == bytes@[i as int]);
            assert(pow256((8 - i) as nat) == 256 * pow256((8 - i - 1) as nat));
            lemma_pow256_values();
            lemma_pow256_monotonic((8 - i) as nat, 8);
        }
        value = value * 256 + bytes[i] as u64;
    }
    assert(bytes@.subrange(0, 8) =~= bytes@);
    (value % (DECK_SIZE as u64)) as u16
}

/// Derives the card from a pair of input and output point.
pub fn find_card(io: &VrfInOut) -> (card: u16)
    ensures
        card == card_of(vrf_output_bytes(io.input(), io.output(), CARD_CONTEXT@)),
        card < DECK_SIZE,
{
    proof {
        use_type_invariant(io);
    }
    let bytes: [u8; 8] = vrf_make_bytes(io, &CARD_CONTEXT);
    card_from_bytes(&bytes)
}

/// Whether verification of the record of `drawn` under the public key
/// `public` and `seed` yields what it yields for every record of a draw:
/// the card of `drawn`, unless the pre-output of the record is the group's
/// identity. No verifier accepts that pre-output, and verification then
/// fails with `InvalidProof`.
pub open spec fn verifies_unless_identity(public: Seq<u8>, seed: Seq<u8>, drawn: (u16, Seq<u8>)) -> bool {
    verified_card(public, seed, drawn.1) == if record_pre_output(drawn.1) == identity_point() {
        Err::<u16, CardError>(CardError::InvalidProof)
    } else {
        Ok::<u16, CardError>(drawn.0)
    }
}

/// Whether the 97 bytes `record` hold the draw `draw_num` under `seed` with
/// the secret key `secret` where a record holds it: the pre-output in the
/// bytes 0 to 31, the proof in the bytes 32 to 95, the draw index in byte
/// 96.
pub open spec fn record_holds_draw(record: Seq<u8>, secret: Seq<u8>, seed: Seq<u8>, draw_num: u8) -> bool {
    let points = drawn_points(secret, seed, draw_num);
    &&& record.len() == 97
    &&& record_pre_output(record) == points.1
    &&& record_proof(record) == points.2
    &&& record_draw_index(record) == draw_num
}

/// Whether `drawn` is the card and the record of the draw `draw_num` under
/// `seed` with the secret key `secret`.
pub open spec fn is_draw(drawn: (u16, ProofRecord), secret: Seq<u8>, seed: Seq<u8>, draw_num: u8) -> bool {
    &&& drawn.0 == drawn_card(secret, seed, draw_num)
    &&& drawn.1@ == drawn_record(secret, seed, draw_num)
    &&& record_holds_draw(drawn.1@, secret, seed, draw_num)
}

/// Draws the card `draw_num` under `seed` for `identity`: evaluates the
/// function on the draw's transcript, derives the card from the output and
/// packs pre-output, proof and draw index into the record. The result is a
/// function of the secret key, the seed and the draw index. A draw index
/// that is not below `MAX_DRAWS` is rejected before any key is used.
///
/// The record verifies under the identity's public key and the seed, and
/// to the card that was drawn. The one exception is a pre-output that is
/// the group's identity, as every pre-output of the secret key zero is: no
/// verifier accepts it.
pub fn try_draw(identity: &Identity, seed: &Seed, draw_num: u8) -> (result: Result<
    (u16, ProofRecord),
    CardError,
>)
    ensures
        result is Ok <==> draw_num < MAX_DRAWS,
        result matches Err(e) ==> e == CardError::DrawIndexOutOfRange,
        result matches Ok(drawn) ==> {
            &&& is_draw(drawn, identity.secret(), seed@, draw_num)
            &&& record_pre_output(drawn.1@) == drawn_points(identity.secret(), seed@, draw_num).1
            &&& record_proof(drawn.1@) == drawn_points(identity.secret(), seed@, draw_num).2
            &&& record_draw_index(drawn.1@) == draw_num
            &&& drawn.0 < DECK_SIZE
            &&& verifies_unless_identity(
                public_key_of(identity.secret()),
                seed@,
                (drawn.0, drawn.1@),
            )
        },
{
    let t = match draw_transcript(seed, draw_num) {
        Ok(t) => t,
        Err(e) => {
            return Err(e);
        },
    };
    let secret: [u8; 64] = identity.secret_bytes();
    let extra = Transcript::new(&PROOF_DOMAIN);
    let (io, proof_bytes) = vrf_sign_extra(&secret, t, extra, &NONCE_SEED);
    let card: u16 = find_card(&io);
    let pre_output: [u8; 32] = io.to_preout();
    let record = ProofRecord::pack(&pre_output, &proof_bytes, draw_num);
    proof {
        lemma_record_layout(pre_output@, proof_bytes@, draw_num);
    }
    Ok((card, record))
}

/// Draws the first `count` cards under `seed` for `identity`, the draw
/// indices in order from zero. Draws whose index is not below `MAX_DRAWS`
/// are left out, so the hand never holds more than `MAX_DRAWS` cards.
pub fn draw_cards(identity: &Identity, seed: &Seed, count: u8) -> (hand: Vec<(u16, ProofRecord)>)
    ensures
        hand@.len() == if count < MAX_DRAWS {
            count
        } else {
            MAX_DRAWS
        },
        forall|i: int|
            0 <= i < hand@.len() ==> {
                &&& is_draw(#[trigger] hand@[i], identity.secret(), seed@, i as u8)
                &&& hand@[i].0 < DECK_SIZE
                &&& verifies_unless_identity(
                    public_key_of(identity.secret()),
                    seed@,
                    (hand@[i].0, hand@[i].1@),
                )
            },
{
    let mut hand: Vec<(u16, ProofRecord)> = Vec::new();
    let mut draw_num: u8 = 0;
    while draw_num < count
        invariant
            draw_num <= count,
            hand@.len() == if draw_num < MAX_DRAWS {
                draw_num
            } else {
                MAX_DRAWS
            },
            forall|i: int|
                0 <= i < hand@.len() ==> {
                    &&& is_draw(#[trigger] hand@[i], identity.secret(), seed@, i as u8)
                    &&& hand@[i].0 < DECK_SIZE
                    &&& verifies_unless_identity(
                        public_key_of(identity.secret()),
                        seed@,
                        (hand@[i].0, hand@[i].1@),
                    )
                },
        decreases count - draw_num,
    {
        let ghost before = hand@;
        match try_draw(identity, seed, draw_num) {
            Ok(drawn) => {
                hand.push(drawn);
                assert(hand@ == before.push(drawn));
                assert(forall|i: int| 0 <= i < before.len() ==> hand@[i] == before[i]);
                assert(hand@[draw_num as int] == drawn);
                assert(is_draw(hand@[draw_num as int], identity.secret(), seed@, draw_num));
            },
            Err(_) => {},
        }
        draw_num += 1;
    }
    hand
}

} // verus!
