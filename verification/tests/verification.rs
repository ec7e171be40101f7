use vrf_cards::dealer::try_draw;
use vrf_cards::disclosure::{check_disclosure, Disclosure};
use vrf_cards::error::CardError;
use vrf_cards::identity::{Identity, PublicKey};
use vrf_cards::params::MAX_DRAWS;
use vrf_cards::record::ProofRecord;
use vrf_cards::seed::Seed;
use vrf_cards::verification::verify_card_play;

fn secret_with(scalar_low: u8, nonce: u8) -> [u8; 64] {
    let mut secret = [0u8; 64];
    secret[0] = scalar_low;
    secret[7] = 0x5a;
    for i in 32..64 {
        secret[i] = nonce;
    }
    secret
}

fn alice() -> Identity {
    Identity::from_secret_bytes(&secret_with(11, 1)).unwrap()
}

fn bob() -> Identity {
    Identity::from_secret_bytes(&secret_with(12, 2)).unwrap()
}

fn seed_of(byte: u8) -> Seed {
    Seed::from_published([byte; 16])
}

#[test]
fn verification_returns_the_drawn_card() {
    for identity in [alice(), bob(), Identity::generate()] {
        let public = identity.public_key();
        for seed_byte in [0u8, 1, 200] {
            let seed = seed_of(seed_byte);
            for index in 0..MAX_DRAWS {
                let (card, record) = try_draw(&identity, &seed, index).unwrap();
                assert_eq!(verify_card_play(&public, &record, &seed), Ok(card));
            }
        }
    }
}

#[test]
fn verification_survives_the_wire() {
    let identity = alice();
    let seed = seed_of(5);
    let (card, record) = try_draw(&identity, &seed, 1).unwrap();
    let wire: [u8; 97] = record.to_bytes();
    let key_wire: [u8; 32] = identity.public_key().to_bytes();
    let seed_wire: [u8; 16] = seed.to_bytes();
    let result = verify_card_play(
        &PublicKey::from_bytes(key_wire),
        &ProofRecord::from_bytes(wire),
        &Seed::from_published(seed_wire),
    );
    assert_eq!(result, Ok(card));
}

#[test]
fn verification_accepts_a_record_of_a_plain_schnorrkel_dealer() {
    let secret = secret_with(33, 4);
    let keypair = schnorrkel::SecretKey::from_bytes(&secret).unwrap().to_keypair();
    let seed_bytes = [8u8; 16];
    let mut t = merlin::Transcript::new(b"Card Draw Transcript");
    t.append_message(b"seed", &seed_bytes);
    t.append_u64(b"draw", 2);
    let (io, dleq, _) = keypair.vrf_sign(t);
    let bytes: [u8; 8] = io.make_bytes(b"card");
    let card = (u64::from_le_bytes(bytes) % 52) as u16;
    let record = ProofRecord::pack(&io.to_preout().to_bytes(), &dleq.to_bytes(), 2);
    let public = PublicKey::from_bytes(keypair.public.to_bytes());
    assert_eq!(verify_card_play(&public, &record, &Seed::from_published(seed_bytes)), Ok(card));
}

#[test]
fn a_plain_schnorrkel_verifier_accepts_our_record() {
    let identity = alice();
    let seed_bytes = [21u8; 16];
    let (card, record) = try_draw(&identity, &Seed::from_published(seed_bytes), 4).unwrap();
    let public = schnorrkel::PublicKey::from_bytes(&identity.public_key().to_bytes()).unwrap();
    let mut t = merlin::Transcript::new(b"Card Draw Transcript");
    t.append_message(b"seed", &seed_bytes);
    t.append_u64(b"draw", 4);
    let pre_output = schnorrkel::vrf::VRFPreOut::from_bytes(&record.pre_output()).unwrap();
    let dleq = schnorrkel::vrf::VRFProof::from_bytes(&record.proof_bytes()).unwrap();
    let (io, _) = public.vrf_verify(t, &pre_output, &dleq).unwrap();
    let bytes: [u8; 8] = io.make_bytes(b"card");
    assert_eq!((u64::from_le_bytes(bytes) % 52) as u16, card);
}

/// Flips every bit of the bytes `from..to` of a record, one at a time, and
/// counts how verification refuses the result.
fn refusals_after_bit_flips(from: usize, to: usize) -> (u32, u32) {
    let identity = alice();
    let public = identity.public_key();
    let seed = seed_of(9);
    let (card, record) = try_draw(&identity, &seed, 0).unwrap();
    assert_eq!(verify_card_play(&public, &record, &seed), Ok(card));
    let mut malformed = 0;
    let mut invalid = 0;
    for byte in from..to {
        for bit in 0..8 {
            let mut bytes = record.to_bytes();
            bytes[byte] ^= 1 << bit;
            match verify_card_play(&public, &ProofRecord::from_bytes(bytes), &seed) {
                Err(CardError::MalformedProof) => malformed += 1,
                Err(CardError::InvalidProof) => invalid += 1,
                other => panic!("byte {} bit {}: {:?}", byte, bit, other),
            }
        }
    }
    (malformed, invalid)
}

#[test]
fn flipping_a_bit_of_the_challenge_low_half_fails_verification() {
    let (malformed, invalid) = refusals_after_bit_flips(32, 48);
    assert_eq!(malformed, 0);
    assert_eq!(invalid, 128);
}

#[test]
fn flipping_a_bit_of_the_challenge_high_half_fails_verification() {
    let (malformed, invalid) = refusals_after_bit_flips(48, 64);
    assert_eq!(malformed + invalid, 128);
    // The four top bits of a scalar take it above the group order.
    assert!(malformed >= 3);
}

#[test]
fn flipping_a_bit_of_the_response_low_half_fails_verification() {
    let (malformed, invalid) = refusals_after_bit_flips(64, 80);
    assert_eq!(malformed, 0);
    assert_eq!(invalid, 128);
}

#[test]
fn flipping_a_bit_of_the_response_high_half_fails_verification() {
    let (malformed, invalid) = refusals_after_bit_flips(80, 96);
    assert_eq!(malformed + invalid, 128);
    assert!(malformed >= 3);
}

#[test]
fn flipping_a_bit_of_the_pre_output_fails_verification() {
    let identity = bob();
    let public = identity.public_key();
    let seed = seed_of(10);
    let (_, record) = try_draw(&identity, &seed, 0).unwrap();
    for byte in 0..32 {
        let mut bytes = record.to_bytes();
        bytes[byte] ^= 0x10;
        let is_point = schnorrkel::points::RistrettoBoth::from_bytes(&bytes[..32]).is_ok();
        let expected = if is_point { CardError::InvalidProof } else { CardError::MalformedProof };
        assert_eq!(
            verify_card_play(&public, &ProofRecord::from_bytes(bytes), &seed),
            Err(expected)
        );
    }
}

#[test]
fn a_pre_output_that_is_no_point_is_malformed() {
    let identity = alice();
    let public = identity.public_key();
    let seed = seed_of(10);
    let (_, record) = try_draw(&identity, &seed, 0).unwrap();
    let proof_bytes = record.proof_bytes();
    for no_point in [[255u8; 32], [1u8; 32]] {
        assert!(schnorrkel::points::RistrettoBoth::from_bytes(&no_point).is_err());
        assert_eq!(
            verify_card_play(&public, &ProofRecord::pack(&no_point, &proof_bytes, 0), &seed),
            Err(CardError::MalformedProof)
        );
    }
    // Another key is a point, but not the output of this draw.
    assert_eq!(
        verify_card_play(&public, &ProofRecord::pack(&bob().public_key().to_bytes(), &proof_bytes, 0), &seed),
        Err(CardError::InvalidProof)
    );
}

#[test]
fn the_identity_as_pre_output_is_refused() {
    let identity = alice();
    let public = identity.public_key();
    let seed = seed_of(10);
    let (_, record) = try_draw(&identity, &seed, 0).unwrap();
    let forged = ProofRecord::pack(&[0u8; 32], &record.proof_bytes(), 0);
    assert_eq!(verify_card_play(&public, &forged, &seed), Err(CardError::InvalidProof));
}

#[test]
fn a_record_fails_under_another_index() {
    let identity = alice();
    let public = identity.public_key();
    let seed = seed_of(3);
    for index in 0..MAX_DRAWS {
        let (_, record) = try_draw(&identity, &seed, index).unwrap();
        for other in 0..MAX_DRAWS {
            if other == index {
                continue;
            }
            let mut bytes = record.to_bytes();
            bytes[96] = other;
            assert_eq!(
                verify_card_play(&public, &ProofRecord::from_bytes(bytes), &seed),
                Err(CardError::InvalidProof)
            );
        }
    }
}

#[test]
fn a_record_with_an_index_out_of_range_is_rejected() {
    let identity = alice();
    let public = identity.public_key();
    let seed = seed_of(3);
    let (_, record) = try_draw(&identity, &seed, 4).unwrap();
    for index in [5u8, 6, 100, 255] {
        let mut bytes = record.to_bytes();
        bytes[96] = index;
        assert_eq!(
            verify_card_play(&public, &ProofRecord::from_bytes(bytes), &seed),
            Err(CardError::DrawIndexOutOfRange)
        );
    }
    // The index is looked at before the proof.
    let mut garbage = [255u8; 97];
    garbage[96] = 5;
    assert_eq!(
        verify_card_play(&public, &ProofRecord::from_bytes(garbage), &seed),
        Err(CardError::DrawIndexOutOfRange)
    );
}

#[test]
fn a_record_fails_under_another_seed() {
    let identity = alice();
    let public = identity.public_key();
    let (_, record) = try_draw(&identity, &seed_of(1), 0).unwrap();
    assert_eq!(verify_card_play(&public, &record, &seed_of(2)), Err(CardError::InvalidProof));
}

#[test]
fn a_record_fails_under_another_key() {
    let seed = seed_of(1);
    let (_, record) = try_draw(&alice(), &seed, 0).unwrap();
    assert_eq!(
        verify_card_play(&bob().public_key(), &record, &seed),
        Err(CardError::InvalidProof)
    );
}

#[test]
fn a_record_fails_under_bytes_that_are_no_key() {
    let seed = seed_of(1);
    let (_, record) = try_draw(&alice(), &seed, 0).unwrap();
    let no_key = PublicKey::from_bytes([255u8; 32]);
    assert_eq!(verify_card_play(&no_key, &record, &seed), Err(CardError::InvalidProof));
}

#[test]
fn scalars_at_and_above_the_group_order_are_malformed() {
    // The group order, least significant byte first.
    let order: [u8; 32] = [
        0xed, 0xd3, 0xf5, 0x5c, 0x1a, 0x63, 0x12, 0x58, 0xd6, 0x9c, 0xf7, 0xa2, 0xde, 0xf9, 0xde,
        0x14, 0, 0, 0, 0, 0, 0, 0, 0, 0, 0, 0, 0, 0, 0, 0, 0x10,
    ];
    let mut below = order;
    below[0] -= 1;
    let public = alice().public_key();
    let seed = seed_of(0);
    let record_of = |challenge: &[u8; 32], response: &[u8; 32]| {
        let mut proof_bytes = [0u8; 64];
        proof_bytes[..32].copy_from_slice(challenge);
        proof_bytes[32..].copy_from_slice(response);
        ProofRecord::pack(&public.to_bytes(), &proof_bytes, 0)
    };
    let zero = [0u8; 32];
    assert_eq!(
        verify_card_play(&public, &record_of(&order, &zero), &seed),
        Err(CardError::MalformedProof)
    );
    assert_eq!(
        verify_card_play(&public, &record_of(&zero, &order), &seed),
        Err(CardError::MalformedProof)
    );
    assert_eq!(
        verify_card_play(&public, &record_of(&[255u8; 32], &zero), &seed),
        Err(CardError::MalformedProof)
    );
    // One below the order parses; the proof is then wrong, not malformed.
    assert_eq!(
        verify_card_play(&public, &record_of(&below, &below), &seed),
        Err(CardError::InvalidProof)
    );
    assert_eq!(
        verify_card_play(&public, &record_of(&zero, &zero), &seed),
        Err(CardError::InvalidProof)
    );
}

#[test]
fn the_zero_key_draws_what_no_verifier_accepts() {
    let identity = Identity::from_secret_bytes(&[0u8; 64]).unwrap();
    assert_eq!(identity.public_key().to_bytes(), [0u8; 32]);
    let seed = seed_of(1);
    let (_, record) = try_draw(&identity, &seed, 0).unwrap();
    assert_eq!(record.pre_output(), [0u8; 32]);
    assert_eq!(
        verify_card_play(&identity.public_key(), &record, &seed),
        Err(CardError::InvalidProof)
    );
}

#[test]
fn distinct_seeds_mostly_give_distinct_cards() {
    let identity = alice();
    let mut differing = 0;
    let pairs = 100;
    for i in 0..pairs {
        let mut first = [0u8; 16];
        let mut second = [0u8; 16];
        first[0] = (i % 256) as u8;
        first[1] = (i / 256) as u8;
        second[0] = first[0];
        second[1] = first[1];
        second[15] = 1;
        let a = try_draw(&identity, &Seed::from_published(first), 0).unwrap().0;
        let b = try_draw(&identity, &Seed::from_published(second), 0).unwrap().0;
        if a != b {
            differing += 1;
        }
    }
    // About 1 - 1/52 of the pairs differ: 98 of 100 on average.
    assert!(differing >= 88, "only {} of {} pairs differ", differing, pairs);
}

#[test]
fn cards_cover_the_deck() {
    let identity = bob();
    let mut seen = [false; 52];
    for i in 0..300u32 {
        let mut seed = [0u8; 16];
        seed[..4].copy_from_slice(&i.to_le_bytes());
        let card = try_draw(&identity, &Seed::from_published(seed), (i % 5) as u8).unwrap().0;
        seen[card as usize] = true;
    }
    assert!(seen.iter().all(|&s| s));
}

#[test]
fn disclosure_with_the_true_card_is_accepted() {
    let identity = alice();
    let seed = seed_of(6);
    let (card, record) = try_draw(&identity, &seed, 0).unwrap();
    assert_eq!(check_disclosure(&identity.public_key(), &seed, card, &record), Ok(card));
}

#[test]
fn disclosure_with_a_false_card_is_a_mismatch() {
    let identity = alice();
    let seed = seed_of(6);
    let (card, record) = try_draw(&identity, &seed, 0).unwrap();
    let claimed = (card + 1) % 52;
    assert_eq!(
        check_disclosure(&identity.public_key(), &seed, claimed, &record),
        Err(CardError::CardMismatch)
    );
    assert_eq!(
        check_disclosure(&identity.public_key(), &seed, 52, &record),
        Err(CardError::CardMismatch)
    );
}

#[test]
fn disclosure_with_a_bad_record_is_not_a_mismatch() {
    let identity = alice();
    let seed = seed_of(6);
    let (card, record) = try_draw(&identity, &seed, 0).unwrap();
    let mut bytes = record.to_bytes();
    bytes[40] ^= 1;
    let damaged = ProofRecord::from_bytes(bytes);
    let result = check_disclosure(&identity.public_key(), &seed, card, &damaged);
    assert!(matches!(result, Err(CardError::InvalidProof) | Err(CardError::MalformedProof)));
    let mut bytes = record.to_bytes();
    bytes[96] = 9;
    assert_eq!(
        check_disclosure(&identity.public_key(), &seed, card, &ProofRecord::from_bytes(bytes)),
        Err(CardError::DrawIndexOutOfRange)
    );
}

#[test]
fn disclosure_goes_from_drawn_to_verified() {
    let identity = alice();
    let seed = seed_of(6);
    let (card, record) = try_draw(&identity, &seed, 0).unwrap();
    let drawn = Disclosure::Drawn;
    let disclosed = drawn.disclose(card, record);
    assert_eq!(disclosed, Disclosure::Disclosed { claimed: card, record });
    let settled = disclosed.settle(&identity.public_key(), &seed);
    assert_eq!(settled, Disclosure::Verified { card });
}

#[test]
fn disclosure_goes_from_drawn_to_rejected() {
    let identity = alice();
    let seed = seed_of(6);
    let (card, record) = try_draw(&identity, &seed, 0).unwrap();
    let lie = Disclosure::Drawn.disclose((card + 7) % 52, record);
    assert_eq!(
        lie.settle(&identity.public_key(), &seed),
        Disclosure::Rejected { reason: CardError::CardMismatch }
    );
    let forged = Disclosure::Drawn.disclose(card, record);
    assert_eq!(
        forged.settle(&bob().public_key(), &seed),
        Disclosure::Rejected { reason: CardError::InvalidProof }
    );
}

#[test]
fn disclosure_does_not_leave_a_final_state() {
    let identity = alice();
    let seed = seed_of(6);
    let (card, record) = try_draw(&identity, &seed, 0).unwrap();
    let verified = Disclosure::Verified { card };
    assert_eq!(verified.disclose(3, record), verified);
    assert_eq!(verified.settle(&bob().public_key(), &seed), verified);
    let rejected = Disclosure::Rejected { reason: CardError::CardMismatch };
    assert_eq!(rejected.disclose(card, record), rejected);
    assert_eq!(rejected.settle(&identity.public_key(), &seed), rejected);
}

#[test]
fn disclosure_needs_both_steps() {
    let identity = alice();
    let seed = seed_of(6);
    let (card, record) = try_draw(&identity, &seed, 0).unwrap();
    assert_eq!(Disclosure::Drawn.settle(&identity.public_key(), &seed), Disclosure::Drawn);
    let disclosed = Disclosure::Drawn.disclose(card, record);
    assert_eq!(disclosed.disclose(0, record), disclosed);
}
