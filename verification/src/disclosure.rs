//! Disclosure: a player publishes a card with its record, and the claim is
//! settled once.

use vstd::prelude::*;
use crate::error::CardError;
use crate::identity::PublicKey;
use crate::record::ProofRecord;
use crate::seed::Seed;
use crate::verification::{verified_card, verify_card_play};

verus! {

/// What checking a claimed card against the 97 bytes `record` yields
/// under the public key `public` and `seed`: the card where the record
/// verifies to it, `CardMismatch` where it verifies to another card, and
/// the verification's own error where it does not verify.
pub open spec fn checked_card(public: Seq<u8>, seed: Seq<u8>, claimed: u16, record: Seq<u8>) -> Result<
    u16,
    CardError,
> {
    match verified_card(public, seed, record) {
        Ok(card) => if card == claimed {
            Ok(card)
        } else {
            Err(CardError::CardMismatch)
        },
        Err(e) => Err(e),
    }
}

/// Checks a disclosed card against its record. A record that does not
/// verify and a record that verifies to another card are told apart: the
/// first is forged or damaged, the second was disclosed with a false claim.
pub fn check_disclosure(public: &PublicKey, seed: &Seed, claimed: u16, record: &ProofRecord) -> (result:
    Result<u16, CardError>)
    ensures
        result == checked_card(public@, seed@, claimed, record@),
{
    match verify_card_play(public, record, seed) {
        Ok(card) => {
            if card == claimed {
                Ok(card)
            } else {
                Err(CardError::CardMismatch)
            }
        },
        Err(e) => Err(e),
    }
}

/// Where one drawn card stands between the draw and the settlement of its
/// disclosure.
#[derive(Clone, Copy, Debug, PartialEq, Eq)]
pub enum Disclosure {
    /// The card is held by the player and nobody else has seen it.
    Drawn,
    /// The player has published the card and the record.
    Disclosed { claimed: u16, record: ProofRecord },
    /// The record verified to the claimed card.
    Verified { card: u16 },
    /// The disclosure was refused, for the reason given.
    Rejected { reason: CardError },
}

impl Disclosure {
    /// Whether the state is final: verified or rejected.
    pub open spec fn is_terminal(&self) -> bool {
        self is Verified || self is Rejected
    }

    /// The state after the player publishes `claimed` with `record`. Only
    /// a drawn card can be disclosed; every other state stays as it is.
    pub open spec fn disclosed(self, claimed: u16, record: ProofRecord) -> Disclosure {
        match self {
            Disclosure::Drawn => Disclosure::Disclosed { claimed, record },
            _ => self,
        }
    }

    /// The state after the disclosure is checked under the public key
    /// `public` and `seed`. Only a disclosed card can be settled; every
    /// other state stays as it is.
    pub open spec fn settled(self, public: Seq<u8>, seed: Seq<u8>) -> Disclosure {
        match self {
            Disclosure::Disclosed { claimed, record } => match checked_card(
                public,
                seed,
                claimed,
                record@,
            ) {
                Ok(card) => Disclosure::Verified { card },
                Err(reason) => Disclosure::Rejected { reason },
            },
            _ => self,
        }
    }

    /// Publishes `claimed` with `record`.
    pub fn disclose(self, claimed: u16, record: ProofRecord) -> (next: Disclosure)
        ensures
            next == self.disclosed(claimed, record),
    {
        match self {
            Disclosure::Drawn => Disclosure::Disclosed { claimed, record },
            _ => self,
        }
    }

    /// Checks the disclosure under the discloser's public key and the seed.
    pub fn settle(self, public: &PublicKey, seed: &Seed) -> (next: Disclosure)
        ensures
            next == self.settled(public@, seed@),
    {
        match self {
            Disclosure::Disclosed { claimed, record } => {
                match check_disclosure(public, seed, claimed, &record) {
                    Ok(card) => Disclosure::Verified { card },
                    Err(reason) => Disclosure::Rejected { reason },
                }
            },
            _ => self,
        }
    }
}

} // verus!
