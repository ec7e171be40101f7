//! What holds of the protocol as a whole.

use vstd::prelude::*;
use crate::dealer::{card_of, drawn_card, is_draw};
use crate::disclosure::{checked_card, Disclosure};
use crate::error::CardError;
use crate::params::{DECK_SIZE, MAX_DRAWS};
use crate::record::{record_draw_index, ProofRecord};
use crate::seed::{seed_of_signatures, Seed};
use crate::verification::verified_card;

verus! {

/// A draw is a function of the secret key, the seed and the draw index:
/// two results of the same draw are the same card and the same record.
pub proof fn lemma_draw_is_deterministic(
    first: (u16, ProofRecord),
    second: (u16, ProofRecord),
    secret: Seq<u8>,
    seed: Seq<u8>,
    draw_num: u8,
)
    requires
        is_draw(first, secret, seed, draw_num),
        is_draw(second, secret, seed, draw_num),
    ensures
        first == second,
{
    assert(first.1.bytes =~= second.1.bytes);
}

/// The seed is a function of the signatures and their order: two seeds
/// that the same signatures commit to are the same seed, and it has 16
/// bytes.
pub proof fn lemma_seed_is_deterministic(first: Seed, second: Seed, signatures: Seq<Seq<u8>>)
    requires
        first@ == seed_of_signatures(signatures),
        second@ == seed_of_signatures(signatures),
    ensures
        first == second,
        first@.len() == 16,
{
    first.lemma_seed_is_its_bytes(second);
}

/// Every card lies in the deck: the card that output bytes stand for, the
/// card of every draw, and the card that a verification yields.
pub proof fn lemma_cards_are_in_range(
    output: Seq<u8>,
    secret: Seq<u8>,
    public: Seq<u8>,
    seed: Seq<u8>,
    draw_num: u8,
    record: Seq<u8>,
)
    ensures
        0 <= card_of(output) < DECK_SIZE,
        0 <= drawn_card(secret, seed, draw_num) < DECK_SIZE,
        verified_card(public, seed, record) matches Ok(card) ==> 0 <= card < DECK_SIZE,
{
}

/// Verification never accepts a record for a draw index outside the
/// protocol: whatever the key, the seed and the other bytes, a record
/// whose last byte is not below `MAX_DRAWS` is rejected as out of range.
pub proof fn lemma_index_out_of_range_is_rejected(public: Seq<u8>, seed: Seq<u8>, record: Seq<u8>)
    requires
        record_draw_index(record) >= MAX_DRAWS,
    ensures
        verified_card(public, seed, record) == Err::<u16, CardError>(
            CardError::DrawIndexOutOfRange,
        ),
{
}

/// A claim is accepted only for the card that the record proves, and a
/// false claim on a valid record is told apart from an invalid record.
pub proof fn lemma_claim_is_checked_against_record(
    public: Seq<u8>,
    seed: Seq<u8>,
    claimed: u16,
    record: Seq<u8>,
)
    ensures
        checked_card(public, seed, claimed, record) is Ok <==> verified_card(public, seed, record)
            == Ok::<u16, CardError>(claimed),
        checked_card(public, seed, claimed, record) == Err::<u16, CardError>(
            CardError::CardMismatch,
        ) <==> (verified_card(public, seed, record) matches Ok(card) && card != claimed),
{
}

/// A disclosed card is settled by one check, and a settled card stays
/// settled: neither a new disclosure nor a new check moves a verified or
/// rejected card.
pub proof fn lemma_settled_is_final(
    state: Disclosure,
    claimed: u16,
    record: ProofRecord,
    public: Seq<u8>,
    seed: Seq<u8>,
)
    ensures
        state is Disclosed ==> state.settled(public, seed).is_terminal(),
        state.is_terminal() ==> state.disclosed(claimed, record) == state && state.settled(
            public,
            seed,
        ) == state,
{
}

} // verus!
