//! A game at one table: players by number, each with an identity and the
//! card it drew.

use vstd::prelude::*;
use vstd::set_lib::{lemma_int_range, lemma_len_subset, set_int_range};
use crate::dealer::{
    drawn_card,
    drawn_record,
    record_holds_draw,
    try_draw,
    verifies_unless_identity,
};
use crate::disclosure::{check_disclosure, checked_card};
use crate::error::CardError;
use crate::identity::{Identity, PublicKey};
use crate::record::{record_pre_output, ProofRecord};
use crate::schnorr::{identity_point, is_secret_key, public_key_of, signature_verifies};
use crate::seed::{
    byte_views,
    join_log,
    join_signature,
    join_signatures,
    public_key_views,
    seed_from_signatures,
    seed_of_signatures,
    sign_join_message,
    signatures_verify,
    Seed,
};
use crate::verification::{verified_card, verify_card_play};

verus! {

/// A player: an identity and, once drawn, the card with its record.
pub struct Player {
    identity: Identity,
    hand: Option<(u16, ProofRecord)>,
}

impl Player {
    /// The encoding of the player's secret key.
    pub closed spec fn secret(&self) -> Seq<u8> {
        self.identity.secret()
    }

    /// The card that the player holds, with the bytes of its record.
    pub closed spec fn hand(&self) -> Option<(u16, Seq<u8>)> {
        match self.hand {
            Some(drawn) => Some((drawn.0, drawn.1@)),
            None => None,
        }
    }

    /// A player with a fresh identity and no card.
    pub fn new() -> (player: Player)
        ensures
            is_secret_key(player.secret()),
            player.hand() is None,
    {
        Player { identity: Identity::generate(), hand: None }
    }

    /// A player with the given identity and no card.
    pub fn from_identity(identity: Identity) -> (player: Player)
        ensures
            player.secret() == identity.secret(),
            player.hand() is None,
    {
        Player { identity, hand: None }
    }

    /// The player's public key.
    pub fn public_key(&self) -> (key: PublicKey)
        ensures
            key@ == public_key_of(self.secret()),
    {
        self.identity.public_key()
    }

    /// Draws the player's card under `seed`: the draw with index zero. A
    /// card drawn before is replaced.
    pub fn draw(&mut self, seed: &Seed)
        ensures
            final(self).secret() == old(self).secret(),
            final(self).hand() == Some(
                (
                    drawn_card(old(self).secret(), seed@, 0),
                    drawn_record(old(self).secret(), seed@, 0),
                ),
            ),
            record_holds_draw(
                drawn_record(old(self).secret(), seed@, 0),
                old(self).secret(),
                seed@,
                0,
            ),
            verifies_unless_identity(
                public_key_of(old(self).secret()),
                seed@,
                (
                    drawn_card(old(self).secret(), seed@, 0),
                    drawn_record(old(self).secret(), seed@, 0),
                ),
            ),
    {
        match try_draw(&self.identity, seed, 0) {
            Ok(drawn) => {
                self.hand = Some(drawn);
            },
            Err(_) => {},
        }
    }

    /// The card that the player holds and its record, to disclose them.
    /// `None` before the draw.
    pub fn reveal_card(&self) -> (revealed: Option<(u16, ProofRecord)>)
        ensures
            revealed is Some <==> self.hand() is Some,
            revealed matches Some(shown) ==> self.hand() == Some((shown.0, shown.1@)),
    {
        self.hand
    }

    /// Verifies a record under the player's public key and `seed`, and
    /// returns the card that it proves.
    pub fn verify_card(&self, record: &ProofRecord, seed: &Seed) -> (result: Result<u16, CardError>)
        ensures
            result == verified_card(public_key_of(self.secret()), seed@, record@),
    {
        let key = self.identity.public_key();
        verify_card_play(&key, record, seed)
    }
}

/// A player at the table under its number.
struct Seat {
    id: u8,
    player: Player,
}

/// What a seat holds: the player's number, the encoding of the player's
/// secret key, and the card with the bytes of its record once drawn.
pub struct SeatView {
    pub id: u8,
    pub secret: Seq<u8>,
    pub hand: Option<(u16, Seq<u8>)>,
}

impl View for Seat {
    type V = SeatView;

    closed spec fn view(&self) -> SeatView {
        SeatView { id: self.id, secret: self.player.secret(), hand: self.player.hand() }
    }
}

/// Whether the seat `i` is the first of `seats` with the number `id`.
pub open spec fn is_seat_of(seats: Seq<SeatView>, id: u8, i: int) -> bool {
    &&& 0 <= i < seats.len()
    &&& seats[i].id == id
    &&& forall|j: int| 0 <= j < i ==> seats[j].id != id
}

/// Whether some seat of `seats` has the number `id`.
pub open spec fn has_seat(seats: Seq<SeatView>, id: u8) -> bool {
    exists|i: int| 0 <= i < seats.len() && seats[i].id == id
}

/// Whether `after` is `before` with `seat` seated under the number `id`:
/// in the place of the first seat with that number, or at the end where
/// there is none.
pub open spec fn is_seated(before: Seq<SeatView>, after: Seq<SeatView>, id: u8, seat: SeatView) -> bool {
    &&& !has_seat(before, id) ==> after == before.push(seat)
    &&& forall|i: int| is_seat_of(before, id, i) ==> after == before.update(i, seat)
}

/// The seat after its player drew the card under `seed`.
pub open spec fn seat_after_draw(seat: SeatView, seed: Seq<u8>) -> SeatView {
    SeatView {
        id: seat.id,
        secret: seat.secret,
        hand: Some((drawn_card(seat.secret, seed, 0), drawn_record(seat.secret, seed, 0))),
    }
}

/// Whether the card at `seat`, as far as one is held, is with its record
/// what the first draw under `seed` discloses: the record holds the draw
/// at its places, and verification under the key of the seat's player
/// yields the card, unless the pre-output is the group's identity.
pub open spec fn seat_holds_draw(seat: SeatView, seed: Seq<u8>) -> bool {
    seat.hand matches Some(shown) ==> record_holds_draw(shown.1, seat.secret, seed, 0)
        && verifies_unless_identity(public_key_of(seat.secret), seed, shown)
}

/// Whether no two of `seats` have the same number.
pub open spec fn numbers_are_distinct(seats: Seq<SeatView>) -> bool {
    forall|i: int, j: int|
        0 <= i < seats.len() && 0 <= j < seats.len() && i != j ==> seats[i].id != seats[j].id
}

/// Whether no card at `seats` has a record whose pre-output is the
/// group's identity, the one pre-output of a draw that no verifier
/// accepts.
pub open spec fn no_identity_shown(seats: Seq<SeatView>) -> bool {
    forall|j: int|
        0 <= j < seats.len() ==> (#[trigger] seats[j].hand matches Some(shown)
            ==> record_pre_output(shown.1) != identity_point())
}

/// Seats whose numbers are all different are at most 256.
pub proof fn lemma_distinct_numbers_are_few(seats: Seq<SeatView>)
    requires
        numbers_are_distinct(seats),
    ensures
        seats.len() <= 256,
{
    let numbers = Seq::new(seats.len(), |i: int| seats[i].id as int);
    assert(numbers.no_duplicates());
    numbers.unique_seq_to_set();
    lemma_int_range(0, 256);
    assert(numbers.to_set().subset_of(set_int_range(0, 256))) by {
        assert forall|number: int| numbers.to_set().contains(number) implies set_int_range(
            0,
            256,
        ).contains(number) by {
            let i = choose|i: int| 0 <= i < numbers.len() && numbers[i] == number;
            assert(numbers[i] == seats[i].id as int);
        }
    }
    lemma_len_subset(numbers.to_set(), set_int_range(0, 256));
}

/// The seats after every player drew the card under `seed`.
pub open spec fn seats_after_draws(seats: Seq<SeatView>, seed: Seq<u8>) -> Seq<SeatView> {
    Seq::new(seats.len(), |i: int| seat_after_draw(seats[i], seed))
}

/// The encodings of the secret keys at `seats`, in their order.
pub open spec fn seat_secrets(seats: Seq<SeatView>) -> Seq<Seq<u8>> {
    Seq::new(seats.len(), |i: int| seats[i].secret)
}

/// The lead after the player at `seat` has shown its card, where `lead`
/// was the lead before: the number of the leading player and the leading
/// card. A player without a card shows none. A card that is checked takes
/// the lead where it is higher than the leading card; a card that is
/// refused ends the showdown.
pub open spec fn lead_after_seat(lead: (u8, u16), seat: SeatView, seed: Seq<u8>) -> Result<
    (u8, u16),
    CardError,
> {
    match seat.hand {
        None => Ok(lead),
        Some(shown) => match checked_card(public_key_of(seat.secret), seed, shown.0, shown.1) {
            Ok(card) => if card > lead.1 {
                Ok((seat.id, card))
            } else {
                Ok(lead)
            },
            Err(e) => Err(e),
        },
    }
}

/// The lead after the first `n` of `seats` have shown their cards in
/// order, starting from player 0 with card 0.
pub open spec fn lead_after(seats: Seq<SeatView>, seed: Seq<u8>, n: nat) -> Result<
    (u8, u16),
    CardError,
>
    decreases n,
{
    if n == 0 {
        Ok((0u8, 0u16))
    } else {
        match lead_after(seats, seed, (n - 1) as nat) {
            Ok(lead) => lead_after_seat(lead, seats[n - 1], seed),
            Err(e) => Err(e),
        }
    }
}

/// The lead after the first `n` of `seats` have shown their cards in
/// order, where every card counts as it is shown.
pub open spec fn lead_of_cards(seats: Seq<SeatView>, n: nat) -> (u8, u16)
    decreases n,
{
    if n == 0 {
        (0u8, 0u16)
    } else {
        let lead = lead_of_cards(seats, (n - 1) as nat);
        match seats[n - 1].hand {
            Some(shown) => if shown.0 > lead.1 {
                (seats[n - 1].id, shown.0)
            } else {
                lead
            },
            None => lead,
        }
    }
}

/// Where every record verifies to the card it was shown with, no card is
/// refused and the lead goes to the cards as they are shown.
pub proof fn lemma_lead_of_proven_cards(seats: Seq<SeatView>, seed: Seq<u8>, n: nat)
    requires
        n <= seats.len(),
        forall|j: int|
            0 <= j < n ==> (#[trigger] seats[j].hand matches Some(shown) ==> verified_card(
                public_key_of(seats[j].secret),
                seed,
                shown.1,
            ) == Ok::<u16, CardError>(shown.0)),
    ensures
        lead_after(seats, seed, n) == Ok::<(u8, u16), CardError>(lead_of_cards(seats, n)),
    decreases n,
{
    if n > 0 {
        lemma_lead_of_proven_cards(seats, seed, (n - 1) as nat);
        assert(seats[n - 1].hand matches Some(shown) ==> verified_card(
            public_key_of(seats[n - 1].secret),
            seed,
            shown.1,
        ) == Ok::<u16, CardError>(shown.0));
    }
}

/// The players of one table, in the order in which their numbers were
/// first seated. A number is seated once: seating a player under a number
/// that is taken replaces the player who had it.
pub struct PokerGame {
    seats: Vec<Seat>,
}

/// The views of `seats`, in their order.
spec fn views_of(seats: Seq<Seat>) -> Seq<SeatView> {
    Seq::new(seats.len(), |i: int| seats[i]@)
}

impl View for PokerGame {
    type V = Seq<SeatView>;

    closed spec fn view(&self) -> Seq<SeatView> {
        views_of(self.seats@)
    }
}

/// The index of the first of `seats` with the number `id`.
fn find_seat(seats: &Vec<Seat>, id: u8) -> (found: Option<usize>)
    ensures
        found is Some <==> has_seat(views_of(seats@), id),
        found matches Some(i) ==> is_seat_of(views_of(seats@), id, i as int),
{
    let mut i: usize = 0;
    while i < seats.len()
        invariant
            i <= seats@.len(),
            forall|j: int| 0 <= j < i ==> views_of(seats@)[j].id != id,
        decreases seats@.len() - i,
    {
        if seats[i].id == id {
            assert(views_of(seats@)[i as int].id == id);
            return Some(i);
        }
        i += 1;
    }
    None
}

impl PokerGame {
    #[verifier::type_invariant]
    spec fn well_formed(&self) -> bool {
        numbers_are_distinct(self@)
    }

    /// A table without players.
    pub fn new() -> (game: PokerGame)
        ensures
            game@ == Seq::<SeatView>::empty(),
    {
        let game = PokerGame { seats: Vec::new() };
        assert(game@ =~= Seq::<SeatView>::empty());
        game
    }

    /// Seats `player` under the number `id`. A player that was seated
    /// under that number before is replaced, in its place; else the new
    /// player takes the next seat. No number is seated twice, before or
    /// after.
    pub fn seat_player(&mut self, id: u8, player: Player)
        ensures
            is_seated(
                old(self)@,
                final(self)@,
                id,
                SeatView { id, secret: player.secret(), hand: player.hand() },
            ),
            numbers_are_distinct(old(self)@),
            numbers_are_distinct(final(self)@),
    {
        proof {
            use_type_invariant(&*self);
        }
        let ghost before = self@;
        let ghost seated = SeatView { id, secret: player.secret(), hand: player.hand() };
        let mut seats: Vec<Seat> = Vec::new();
        core::mem::swap(&mut self.seats, &mut seats);
        match find_seat(&seats, id) {
            Some(i) => {
                seats[i] = Seat { id, player };
                assert(views_of(seats@) =~= before.update(i as int, seated));
            },
            None => {
                seats.push(Seat { id, player });
                assert(views_of(seats@) =~= before.push(seated));
            },
        }
        assert(numbers_are_distinct(views_of(seats@)));
        core::mem::swap(&mut self.seats, &mut seats);
    }

    /// Seats a player with a fresh identity and no card under the number
    /// `id`, as `seat_player` does. Whatever key was generated, it is the
    /// encoding of a secret key.
    pub fn add_player(&mut self, id: u8)
        ensures
            exists|secret: Seq<u8>|
                is_secret_key(secret) && #[trigger] is_seated(
                    old(self)@,
                    final(self)@,
                    id,
                    SeatView { id, secret, hand: None },
                ),
            numbers_are_distinct(old(self)@),
            numbers_are_distinct(final(self)@),
    {
        let player = Player::new();
        let ghost seated = SeatView { id, secret: player.secret(), hand: None };
        self.seat_player(id, player);
        assert(is_seated(old(self)@, self@, id, seated));
    }

    /// Commits to the seed of the table: every player signs the join
    /// message, and the signatures are hashed in the order of the seats.
    /// The seed is a function of the players' secret keys, their order and
    /// the message: a table that is to play more than once with the same
    /// players signs a new message every time.
    pub fn commit_seed(&self, join_message: &[u8]) -> (result: Result<Seed, CardError>)
        requires
            join_message@.len() <= u32::MAX,
        ensures
            result matches Ok(seed) && seed@ == seed_of_signatures(
                join_signatures(seat_secrets(self@), join_message@),
            ),
    {
        proof {
            use_type_invariant(self);
            lemma_distinct_numbers_are_few(self@);
        }
        let n: usize = self.seats.len();
        let mut public_keys: Vec<PublicKey> = Vec::new();
        let mut signatures: Vec<Vec<u8>> = Vec::new();
        let mut i: usize = 0;
        while i < n
            invariant
                i <= n,
                n == self.seats@.len(),
                n == self@.len(),
                join_message@.len() <= u32::MAX,
                public_keys@.len() == i,
                signatures@.len() == i,
                forall|j: int|
                    0 <= j < i ==> signatures@[j]@ == join_signature(
                        #[trigger] self@[j].secret,
                        join_message@,
                    ),
                forall|j: int|
                    0 <= j < i ==> #[trigger] signature_verifies(
                        public_keys@[j]@,
                        join_log(join_message@),
                        signatures@[j]@,
                    ),
            decreases n - i,
        {
            let signature: [u8; 64] = sign_join_message(&self.seats[i].player.identity, join_message);
            public_keys.push(self.seats[i].player.public_key());
            signatures.push(vstd::slice::slice_to_vec(&signature));
            i += 1;
        }
        proof {
            assert(byte_views(signatures@) =~= join_signatures(seat_secrets(self@), join_message@));
            assert(signatures_verify(
                public_key_views(public_keys@),
                join_message@,
                byte_views(signatures@),
            ));
        }
        seed_from_signatures(public_keys.as_slice(), join_message, signatures.as_slice())
    }

    /// Lets the player with the number `id` draw its card under `seed`.
    /// Without such a player nothing changes.
    pub fn draw(&mut self, id: u8, seed: &Seed)
        ensures
            !has_seat(old(self)@, id) ==> final(self)@ == old(self)@,
            forall|i: int|
                is_seat_of(old(self)@, id, i) ==> final(self)@ == old(self)@.update(
                    i,
                    seat_after_draw(old(self)@[i], seed@),
                ) && seat_holds_draw(seat_after_draw(old(self)@[i], seed@), seed@),
            numbers_are_distinct(old(self)@),
            numbers_are_distinct(final(self)@),
    {
        proof {
            use_type_invariant(&*self);
        }
        let ghost before = self@;
        let mut seats: Vec<Seat> = Vec::new();
        core::mem::swap(&mut self.seats, &mut seats);
        match find_seat(&seats, id) {
            Some(i) => {
                seats[i].player.draw(seed);
                assert(views_of(seats@) =~= before.update(
                    i as int,
                    seat_after_draw(before[i as int], seed@),
                ));
            },
            None => {},
        }
        assert(numbers_are_distinct(views_of(seats@)));
        core::mem::swap(&mut self.seats, &mut seats);
    }

    /// The card and the record that the player with the number
    /// `player_id` discloses. `None` without such a player, and before the
    /// player has drawn.
    pub fn reveal_card_game(&self, player_id: u8) -> (revealed: Option<(u16, ProofRecord)>)
        ensures
            !has_seat(self@, player_id) ==> revealed is None,
            forall|i: int|
                is_seat_of(self@, player_id, i) ==> (revealed is Some <==> self@[i].hand is Some)
                    && (revealed matches Some(shown) ==> self@[i].hand == Some(
                    (shown.0, shown.1@),
                )),
    {
        match find_seat(&self.seats, player_id) {
            Some(i) => self.seats[i].player.reveal_card(),
            None => None,
        }
    }

    /// Verifies a record under the public key of the player with the
    /// number `player_id` and `seed`, and returns the card that it proves.
    /// `None` without such a player.
    pub fn verify_card_game(&self, player_id: u8, record: &ProofRecord, seed: &Seed) -> (result:
        Option<Result<u16, CardError>>)
        ensures
            !has_seat(self@, player_id) ==> result is None,
            forall|i: int|
                is_seat_of(self@, player_id, i) ==> result == Some(
                    verified_card(public_key_of(self@[i].secret), seed@, record@),
                ),
    {
        match find_seat(&self.seats, player_id) {
            Some(i) => Some(self.seats[i].player.verify_card(record, seed)),
            None => None,
        }
    }

    /// Plays one round under `seed`: every player draws its card; then the
    /// players show their cards in the order of the seats, each is checked
    /// against its record, and a card takes the lead where it is higher
    /// than the leading card. The round starts with player 0 leading with
    /// card 0. It returns the number of the leading player and the leading
    /// card, or the reason for which the first refused card was refused.
    ///
    /// No card is refused unless the pre-output of its record is the
    /// group's identity: without such a record the round is won by the
    /// first player who holds the highest card above 0.
    pub fn play(&mut self, seed: &Seed) -> (result: Result<(u8, u16), CardError>)
        ensures
            final(self)@ == seats_after_draws(old(self)@, seed@),
            forall|j: int|
                0 <= j < final(self)@.len() ==> seat_holds_draw(#[trigger] final(self)@[j], seed@),
            result == lead_after(final(self)@, seed@, final(self)@.len()),
            no_identity_shown(final(self)@) ==> result == Ok::<(u8, u16), CardError>(
                lead_of_cards(final(self)@, final(self)@.len()),
            ),
            numbers_are_distinct(final(self)@),
    {
        proof {
            use_type_invariant(&*self);
        }
        let ghost before = self@;
        let mut seats: Vec<Seat> = Vec::new();
        core::mem::swap(&mut self.seats, &mut seats);
        let n: usize = seats.len();
        let mut i: usize = 0;
        while i < n
            invariant
                i <= n,
                n == seats@.len(),
                n == before.len(),
                forall|j: int| 0 <= j < i ==> views_of(seats@)[j] == seat_after_draw(before[j], seed@),
                forall|j: int| 0 <= j < i ==> seat_holds_draw(seat_after_draw(before[j], seed@), seed@),
                forall|j: int| i <= j < n ==> views_of(seats@)[j] == before[j],
            decreases n - i,
        {
            let ghost seats_before = seats@;
            seats[i].player.draw(seed);
            assert(seats@[i as int]@ == seat_after_draw(seats_before[i as int]@, seed@));
            assert(forall|j: int| 0 <= j < n && j != i ==> seats@[j] == #[trigger] seats_before[j]);
            assert forall|j: int| 0 <= j < i + 1 implies views_of(seats@)[j] == seat_after_draw(
                before[j],
                seed@,
            ) by {
                assert(views_of(seats_before)[j] == seats_before[j]@);
                if j < i {
                    assert(seats@[j] == seats_before[j]);
                }
            }
            assert forall|j: int| i + 1 <= j < n implies views_of(seats@)[j] == before[j] by {
                assert(seats@[j] == seats_before[j]);
                assert(views_of(seats_before)[j] == seats_before[j]@);
            }
            i += 1;
        }
        let ghost after = views_of(seats@);
        assert(after =~= seats_after_draws(before, seed@));
        assert(numbers_are_distinct(after));
        let mut lead: (u8, u16) = (0, 0);
        let mut refused: Option<CardError> = None;
        let mut k: usize = 0;
        while k < n && refused.is_none()
            invariant
                k <= n,
                n == seats@.len(),
                n == after.len(),
                after == views_of(seats@),
                refused is None ==> lead_after(after, seed@, k as nat) == Ok::<(u8, u16), CardError>(
                    lead,
                ),
                refused matches Some(e) ==> lead_after(after, seed@, n as nat) == Err::<
                    (u8, u16),
                    CardError,
                >(e),
            decreases n - k + if refused is None { 1int } else { 0int },
        {
            let seat = &seats[k];
            assert(after[k as int] == seat@);
            match seat.player.reveal_card() {
                Some(shown) => {
                    let key = seat.player.public_key();
                    match check_disclosure(&key, seed, shown.0, &shown.1) {
                        Ok(card) => {
                            if card > lead.1 {
                                lead = (seat.id, card);
                            }
                            k += 1;
                        },
                        Err(e) => {
                            proof {
                                lemma_lead_stays_refused(after, seed@, (k + 1) as nat, n as nat);
                            }
                            refused = Some(e);
                        },
                    }
                },
                None => {
                    k += 1;
                },
            }
        }
        proof {
            if no_identity_shown(after) {
                lemma_lead_of_proven_cards(after, seed@, n as nat);
            }
        }
        core::mem::swap(&mut self.seats, &mut seats);
        match refused {
            Some(e) => Err(e),
            None => Ok(lead),
        }
    }
}

/// Once a card is refused, the showdown stays refused for that reason.
pub proof fn lemma_lead_stays_refused(seats: Seq<SeatView>, seed: Seq<u8>, m: nat, n: nat)
    requires
        m <= n,
        lead_after(seats, seed, m) is Err,
    ensures
        lead_after(seats, seed, n) == lead_after(seats, seed, m),
    decreases n,
{
    if m < n {
        lemma_lead_stays_refused(seats, seed, m, (n - 1) as nat);
    }
}

} // verus!
