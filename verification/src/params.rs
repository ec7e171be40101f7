//! Constants that every participant of a game agrees on.

use vstd::prelude::*;

verus! {

/// Number of cards in the deck. A card is a number below this.
pub const DECK_SIZE: u16 = 52;

/// Number of draws a player may make. A draw index is a number below this.
pub const MAX_DRAWS: u8 = 5;

} // verus!
