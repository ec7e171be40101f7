//! Verifiable card dealing.
//!
//! Every player deals their own cards with a verifiable random function:
//! the card is derived from the function's output under the player's
//! secret key on a transcript that binds a shared seed and a draw index.
//! The disclosed proof record lets anyone who holds the player's public key
//! and the seed recompute the card. A player knows its own cards before
//! it discloses them: the protocol makes cards verifiable, not hidden.
//!
//! The flow of a game: the players' identities (`identity`) sign a join
//! message and the signatures commit to the seed (`seed`); each player
//! draws cards with records (`dealer`, `record`); a disclosed record is
//! verified (`verification`) and checked against the claimed card
//! (`disclosure`). `game` runs one table through these steps. `schnorr`
//! and `transcript` hold what the library takes from schnorrkel and
//! Merlin, and `guarantees` what holds of the protocol as a whole.

pub mod params;
pub mod error;
pub mod bytes;
pub mod transcript;
pub mod schnorr;
pub mod identity;
pub mod record;
pub mod seed;
pub mod dealer;
pub mod verification;
pub mod disclosure;
pub mod game;
pub mod guarantees;

pub use dealer::{draw_cards, draw_transcript, find_card, try_draw};
pub use disclosure::{check_disclosure, Disclosure};
pub use error::CardError;
pub use game::{Player, PokerGame};
pub use identity::{Identity, PublicKey};
pub use params::{DECK_SIZE, MAX_DRAWS};
pub use record::ProofRecord;
pub use seed::{derive_seed, seed_from_signatures, sign_join_message, Seed};
pub use verification::verify_card_play;
