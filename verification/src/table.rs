//! The table shared by the rulesets that deal one deck to up to four
//! players: seating, dealing the starting hands, drawing and discarding.
//!
//! Every card that leaves the wall goes into exactly one hand, so the
//! multiset of cards on the table (wall plus hands) is what the contracts
//! below keep track of.

use vstd::multiset::Multiset;
use vstd::prelude::*;

use crate::random;

verus! {

broadcast use vstd::seq_lib::group_to_multiset_ensures, vstd::multiset::group_multiset_axioms;

/// The most players a table seats.
pub const MAX_PLAYER_COUNT: u8 = 4;

/// How many cards each player receives at the start of a game.
pub const STARTING_HAND_SIZE: usize = 16;

/// A card of some ruleset: it can tell whether it is a flower, and two
/// cards compare by their fields.
pub trait GameCard: Copy + Sized {
    spec fn spec_is_flower(&self) -> bool;

    fn is_flower_card(&self) -> (r: bool)
        ensures
            r == self.spec_is_flower(),
    ;

    fn same_card(&self, other: &Self) -> (r: bool)
        ensures
            r == (*self == *other),
    ;
}

/// The address a player connected from, as the bits of an IPv4 or IPv6
/// address.
#[derive(Clone, Copy, Debug, PartialEq, Eq, Structural)]
pub struct PlayerIp {
    pub is_v6: bool,
    pub bits: u128,
}

/// A seated player.
#[derive(Debug)]
pub struct TablePlayer<C, U> {
    pub player_ip_addr: PlayerIp,
    /// 1 for the first seated player, 2 for the second, and so on.
    pub player_id: u8,
    /// The cards the player may still play.
    pub player_hand_cards: Vec<C>,
    /// The melds the player has laid down.
    pub player_used_cards: Vec<U>,
}

/// The seats, the wall of unused cards and the two game flags.
#[derive(Debug)]
pub struct GameTable<C, U> {
    pub players: Vec<TablePlayer<C, U>>,
    pub is_game_start: bool,
    pub is_game_finish: bool,
    /// Cards that nobody has drawn yet.
    pub unused_card: Vec<C>,
}

/// `s` with the first occurrence of `x` taken out (unchanged when `x` does
/// not occur).
pub open spec fn remove_first<C>(s: Seq<C>, x: C) -> Seq<C>
    decreases s.len(),
{
    if s.len() == 0 {
        s
    } else if s[0] == x {
        s.drop_first()
    } else {
        seq![s[0]] + remove_first(s.drop_first(), x)
    }
}

/// `i` is where `x` first occurs in `s`.
pub open spec fn is_first_index<C>(s: Seq<C>, x: C, i: int) -> bool {
    &&& 0 <= i < s.len()
    &&& s[i] == x
    &&& forall|j: int| 0 <= j < i ==> s[j] != x
}

/// All the cards in the hands of the players in `ps`.
pub open spec fn hands_pool<C, U>(ps: Seq<TablePlayer<C, U>>) -> Multiset<C>
    decreases ps.len(),
{
    if ps.len() == 0 {
        Multiset::empty()
    } else {
        hands_pool(ps.drop_last()).add(ps.last().player_hand_cards@.to_multiset())
    }
}

/// The next player to move after `current`, among `count` players numbered
/// from 1: after the last comes the first again.
pub open spec fn spec_next_turn(current: u8, count: u8) -> u8 {
    if current >= count {
        1
    } else {
        (current + 1) as u8
    }
}

pub proof fn lemma_remove_first_at<C>(s: Seq<C>, x: C, i: int)
    requires
        is_first_index(s, x, i),
    ensures
        remove_first(s, x) == s.remove(i),
    decreases s.len(),
{
    if i == 0 {
        assert(s.drop_first() =~= s.remove(0));
    } else {
        let t = s.drop_first();
        assert(is_first_index(t, x, i - 1)) by {
            assert forall|j: int| 0 <= j < i - 1 implies t[j] != x by {
                assert(t[j] == s[j + 1]);
            }
        }
        lemma_remove_first_at(t, x, i - 1);
        assert(seq![s[0]] + t.remove(i - 1) =~= s.remove(i));
    }
}

pub proof fn lemma_hands_pool_update<C, U>(
    ps: Seq<TablePlayer<C, U>>,
    i: int,
    p: TablePlayer<C, U>,
)
    requires
        0 <= i < ps.len(),
    ensures
        hands_pool(ps.update(i, p)).add(ps[i].player_hand_cards@.to_multiset()) =~= hands_pool(
            ps,
        ).add(p.player_hand_cards@.to_multiset()),
    decreases ps.len(),
{
    let q = ps.update(i, p);
    assert(q.len() == ps.len());
    assert(hands_pool(q) == hands_pool(q.drop_last()).add(q.last().player_hand_cards@.to_multiset()));
    assert(hands_pool(ps) == hands_pool(ps.drop_last()).add(ps.last().player_hand_cards@.to_multiset()));
    if i == ps.len() - 1 {
        assert(q.drop_last() =~= ps.drop_last());
        assert(q.last() == p);
    } else {
        assert(q.drop_last() =~= ps.drop_last().update(i, p));
        assert(q.last() == ps.last());
        assert(ps.drop_last()[i] == ps[i]);
        lemma_hands_pool_update(ps.drop_last(), i, p);
        let a = hands_pool(q.drop_last());
        let b = hands_pool(ps.drop_last());
        let l = ps.last().player_hand_cards@.to_multiset();
        let mi = ps[i].player_hand_cards@.to_multiset();
        let mp = p.player_hand_cards@.to_multiset();
        assert(a.add(mi) == b.add(mp));
        assert(a.add(l).add(mi) =~= b.add(l).add(mp)) by {
            assert forall|x: C| #[trigger] a.add(l).add(mi).count(x) == b.add(l).add(mp).count(x) by {
                assert(a.add(mi).count(x) == b.add(mp).count(x));
            }
        }
    }
}

proof fn lemma_empty_hands<C, U>(ps: Seq<TablePlayer<C, U>>)
    requires
        forall|i: int| 0 <= i < ps.len() ==> (#[trigger] ps[i]).player_hand_cards@.len() == 0,
    ensures
        hands_pool(ps) =~= Multiset::empty(),
    decreases ps.len(),
{
    if ps.len() > 0 {
        lemma_empty_hands(ps.drop_last());
        assert(ps.last().player_hand_cards@ =~= Seq::<C>::empty());
    }
}

/// A table whose wall is `deck`, a deck without duplicates, and whose
/// players hold no cards has every card of the deck in play exactly once,
/// and nothing else.
pub proof fn lemma_fresh_table_pool<C, U>(t: GameTable<C, U>, deck: Seq<C>)
    requires
        t.unused_card@ == deck,
        deck.no_duplicates(),
        forall|i: int| 0 <= i < t.players@.len() ==> (#[trigger] t.players@[i]).player_hand_cards@.len() == 0,
    ensures
        forall|c: C| #[trigger] t.unused_card@.to_multiset().add(hands_pool(t.players@)).count(c) == if deck.contains(c) {
            1nat
        } else {
            0nat
        },
        t.unused_card@.to_multiset().add(hands_pool(t.players@)).len() == deck.len(),
{
    lemma_empty_hands(t.players@);
    deck.lemma_multiset_has_no_duplicates();
    assert(t.unused_card@.to_multiset().add(hands_pool(t.players@)) =~= deck.to_multiset());
}

impl<C: GameCard, U> GameTable<C, U> {
    /// The seats are filled in order, each player carrying its seat number.
    pub open spec fn wf(&self) -> bool {
        &&& self.players@.len() <= MAX_PLAYER_COUNT
        &&& forall|i: int|
            0 <= i < self.players@.len() ==> #[trigger] self.players@[i].player_id == i + 1
    }

    /// Every card on the table: the wall and all the hands.
    pub open spec fn card_pool(&self) -> Multiset<C> {
        self.unused_card@.to_multiset().add(hands_pool(self.players@))
    }

    /// The hand of the player in seat `i` (counted from 0).
    pub open spec fn hand(&self, i: int) -> Seq<C> {
        self.players@[i].player_hand_cards@
    }

    /// Seats, addresses and melds are those of `other`.
    pub open spec fn same_seats(&self, other: &Self) -> bool {
        &&& self.players@.len() == other.players@.len()
        &&& forall|i: int|
            0 <= i < self.players@.len() ==> {
                &&& #[trigger] self.players@[i].player_id == other.players@[i].player_id
                &&& self.players@[i].player_ip_addr == other.players@[i].player_ip_addr
                &&& self.players@[i].player_used_cards@ == other.players@[i].player_used_cards@
            }
    }

    /// An empty table over the wall `deck`.
    pub fn new_table(deck: Vec<C>) -> (t: Self)
        ensures
            t.wf(),
            t.players@.len() == 0,
            !t.is_game_start,
            !t.is_game_finish,
            t.unused_card@ == deck@,
    {
        GameTable { players: Vec::new(), is_game_start: false, is_game_finish: false, unused_card: deck }
    }

    /// The answer to seating a player: its number, or `None` when all the
    /// seats are taken.
    pub open spec fn seat_answer(&self) -> Option<u8> {
        if self.players@.len() < MAX_PLAYER_COUNT {
            Some((self.players@.len() + 1) as u8)
        } else {
            None
        }
    }

    /// This table follows `old` by seating a player that connected from
    /// `ip`: when a seat is free the player takes the next one, with no
    /// cards; otherwise nothing changes.
    pub open spec fn after_seating(&self, old: &Self, ip: PlayerIp) -> bool {
        &&& self.wf()
        &&& self.unused_card@ == old.unused_card@
        &&& self.is_game_start == old.is_game_start
        &&& self.is_game_finish == old.is_game_finish
        &&& self.card_pool() == old.card_pool()
        &&& if old.players@.len() < MAX_PLAYER_COUNT {
            &&& self.players@.len() == old.players@.len() + 1
            &&& self.players@.drop_last() == old.players@
            &&& self.players@.last().player_ip_addr == ip
            &&& self.players@.last().player_hand_cards@.len() == 0
            &&& self.players@.last().player_used_cards@.len() == 0
        } else {
            self.players@ == old.players@
        }
    }

    /// Seats a new player and returns its number, or `None` when all the
    /// seats are taken.
    pub fn add_player(&mut self, player_ip_addr: PlayerIp) -> (r: Option<u8>)
        requires
            old(self).wf(),
        ensures
            r == old(self).seat_answer(),
            final(self).after_seating(old(self), player_ip_addr),
    {
        let current_player_count = self.players.len();
        if current_player_count < MAX_PLAYER_COUNT as usize {
            let player_id: u8 = (current_player_count + 1) as u8;
            let ghost before = self.players@;
            self.players.push(
                TablePlayer {
                    player_ip_addr,
                    player_id,
                    player_hand_cards: Vec::new(),
                    player_used_cards: Vec::new(),
                },
            );
            proof {
                assert(self.players@.drop_last() =~= before);
                assert(self.players@.last().player_hand_cards@.to_multiset() =~= Multiset::empty());
                assert(hands_pool(self.players@) =~= hands_pool(before));
            }
            Some(player_id)
        } else {
            None
        }
    }

    /// Where `card` first occurs in the wall.
    fn find_in_wall(&self, card: &C) -> (r: Option<usize>)
        ensures
            match r {
                Some(i) => is_first_index(self.unused_card@, *card, i as int),
                None => !self.unused_card@.contains(*card),
            },
    {
        let mut index: usize = 0;
        while index < self.unused_card.len()
            invariant
                index <= self.unused_card@.len(),
                forall|j: int| 0 <= j < index ==> self.unused_card@[j] != *card,
            decreases self.unused_card@.len() - index,
        {
            if self.unused_card[index].same_card(card) {
                return Some(index);
            }
            index = index + 1;
        }
        None
    }

    /// Takes the first copy of `card` out of the wall and puts it at the end
    /// of the hand in seat `seat`.
    fn move_to_hand(&mut self, seat: usize, card: C)
        requires
            old(self).wf(),
            seat < old(self).players@.len(),
            old(self).unused_card@.contains(card),
        ensures
            final(self).wf(),
            final(self).same_seats(old(self)),
            final(self).is_game_start == old(self).is_game_start,
            final(self).is_game_finish == old(self).is_game_finish,
            final(self).unused_card@ == remove_first(old(self).unused_card@, card),
            final(self).unused_card@.len() == old(self).unused_card@.len() - 1,
            final(self).hand(seat as int) == old(self).hand(seat as int).push(card),
            forall|j: int|
                0 <= j < final(self).players@.len() && j != seat ==> #[trigger] final(self).hand(j)
                    == old(self).hand(j),
            final(self).card_pool() == old(self).card_pool(),
    {
        let ghost before = *self;
        let index = match self.find_in_wall(&card) {
            Some(i) => i,
            None => {
                proof {
                    assert(false);
                }
                0
            },
        };
        proof {
            lemma_remove_first_at(self.unused_card@, card, index as int);
        }
        let taken = self.unused_card.remove(index);
        self.players[seat].player_hand_cards.push(taken);
        proof {
            let ps = before.players@;
            let np = self.players@[seat as int];
            lemma_hands_pool_update(ps, seat as int, np);
            assert(self.players@ =~= ps.update(seat as int, np));
            assert(np.player_hand_cards@ == ps[seat as int].player_hand_cards@.push(card));
            assert(np.player_hand_cards@.to_multiset() =~= ps[seat as int].player_hand_cards@.to_multiset().insert(card));
            let hn = hands_pool(self.players@);
            let ho = hands_pool(ps);
            let mo = ps[seat as int].player_hand_cards@.to_multiset();
            assert(hn.add(mo) == ho.add(mo.insert(card)));
            assert(hn =~= ho.insert(card)) by {
                assert forall|x: C| #[trigger] hn.count(x) == ho.insert(card).count(x) by {
                    assert(hn.add(mo).count(x) == ho.add(mo.insert(card)).count(x));
                }
            }
            assert(self.unused_card@.to_multiset() =~= before.unused_card@.to_multiset().remove(card));
            assert(before.unused_card@.to_multiset().count(card) > 0);
            assert(self.card_pool() =~= before.card_pool());
        }
    }

    /// Draws a card at random from the wall into the hand in seat `seat`.
    fn draw_random_into(&mut self, seat: usize) -> (c: C)
        requires
            old(self).wf(),
            seat < old(self).players@.len(),
            old(self).unused_card@.len() > 0,
        ensures
            final(self).wf(),
            final(self).same_seats(old(self)),
            final(self).is_game_start == old(self).is_game_start,
            final(self).is_game_finish == old(self).is_game_finish,
            old(self).unused_card@.contains(c),
            final(self).unused_card@ == remove_first(old(self).unused_card@, c),
            final(self).unused_card@.len() == old(self).unused_card@.len() - 1,
            final(self).hand(seat as int) == old(self).hand(seat as int).push(c),
            forall|j: int|
                0 <= j < final(self).players@.len() && j != seat ==> #[trigger] final(self).hand(j)
                    == old(self).hand(j),
            final(self).card_pool() == old(self).card_pool(),
    {
        let card = match random::choose_card(&self.unused_card) {
            Some(c) => c,
            None => {
                proof {
                    assert(false);
                }
                self.unused_card[0]
            },
        };
        self.move_to_hand(seat, card);
        card
    }
}


impl<C: GameCard, U> GameTable<C, U> {
    /// Every hand in `self` starts with the matching hand of `other` and is
    /// `extra` cards longer.
    pub open spec fn hands_grown_by(&self, other: &Self, extra: int) -> bool {
        forall|i: int|
            0 <= i < self.players@.len() ==> {
                &&& #[trigger] self.hand(i).len() == other.hand(i).len() + extra
                &&& self.hand(i).subrange(0, other.hand(i).len() as int) == other.hand(i)
            }
    }

    /// Deals `count` random cards from the wall to the player in seat `seat`.
    fn deal_cards_to_seat(&mut self, seat: usize, count: usize)
        requires
            old(self).wf(),
            seat < old(self).players@.len(),
            old(self).unused_card@.len() >= count,
        ensures
            final(self).wf(),
            final(self).same_seats(old(self)),
            final(self).is_game_start == old(self).is_game_start,
            final(self).is_game_finish == old(self).is_game_finish,
            final(self).card_pool() == old(self).card_pool(),
            final(self).unused_card@.len() == old(self).unused_card@.len() - count,
            final(self).hand(seat as int).len() == old(self).hand(seat as int).len() + count,
            final(self).hand(seat as int).subrange(0, old(self).hand(seat as int).len() as int)
                == old(self).hand(seat as int),
            forall|j: int|
                0 <= j < final(self).players@.len() && j != seat ==> #[trigger] final(self).hand(j)
                    == old(self).hand(j),
    {
        let ghost start = *self;
        let mut k: usize = 0;
        while k < count
            invariant
                k <= count,
                seat < self.players@.len(),
                self.wf(),
                self.same_seats(&start),
                self.is_game_start == start.is_game_start,
                self.is_game_finish == start.is_game_finish,
                self.card_pool() == start.card_pool(),
                self.unused_card@.len() == start.unused_card@.len() - k,
                start.unused_card@.len() >= count,
                self.hand(seat as int).len() == start.hand(seat as int).len() + k,
                self.hand(seat as int).subrange(0, start.hand(seat as int).len() as int)
                    == start.hand(seat as int),
                forall|j: int|
                    0 <= j < self.players@.len() && j != seat ==> #[trigger] self.hand(j)
                        == start.hand(j),
            decreases count - k,
        {
            let ghost before = *self;
            self.draw_random_into(seat);
            proof {
                assert(self.hand(seat as int).subrange(0, start.hand(seat as int).len() as int)
                    =~= before.hand(seat as int).subrange(0, start.hand(seat as int).len() as int));
                assert forall|j: int|
                    0 <= j < self.players@.len() && j != seat implies #[trigger] self.hand(j)
                        == start.hand(j) by {
                    assert(before.hand(j) == start.hand(j));
                }
            }
            k = k + 1;
        }
    }

    /// Deals four cards to each seat in turn.
    fn deal_round(&mut self)
        requires
            old(self).wf(),
            old(self).unused_card@.len() >= 4 * old(self).players@.len(),
        ensures
            final(self).wf(),
            final(self).same_seats(old(self)),
            final(self).is_game_start == old(self).is_game_start,
            final(self).is_game_finish == old(self).is_game_finish,
            final(self).card_pool() == old(self).card_pool(),
            final(self).unused_card@.len() == old(self).unused_card@.len() - 4
                * old(self).players@.len(),
            final(self).hands_grown_by(old(self), 4),
    {
        let ghost start = *self;
        let player_count = self.players.len();
        let mut seat: usize = 0;
        while seat < player_count
            invariant
                seat <= player_count,
                player_count == self.players@.len(),
                self.wf(),
                self.same_seats(&start),
                self.is_game_start == start.is_game_start,
                self.is_game_finish == start.is_game_finish,
                self.card_pool() == start.card_pool(),
                start.unused_card@.len() >= 4 * player_count,
                self.unused_card@.len() == start.unused_card@.len() - 4 * seat,
                forall|q: int|
                    0 <= q < seat ==> {
                        &&& #[trigger] self.hand(q).len() == start.hand(q).len() + 4
                        &&& self.hand(q).subrange(0, start.hand(q).len() as int) == start.hand(q)
                    },
                forall|q: int| seat <= q < player_count ==> #[trigger] self.hand(q) == start.hand(q),
            decreases player_count - seat,
        {
            let ghost before = *self;
            self.deal_cards_to_seat(seat, 4);
            proof {
                assert forall|q: int| 0 <= q < seat + 1 implies {
                    &&& #[trigger] self.hand(q).len() == start.hand(q).len() + 4
                    &&& self.hand(q).subrange(0, start.hand(q).len() as int) == start.hand(q)
                } by {
                    if q < seat {
                        assert(self.hand(q) == before.hand(q));
                    } else {
                        assert(before.hand(q) == start.hand(q));
                    }
                }
                assert forall|q: int| seat + 1 <= q < player_count implies #[trigger] self.hand(q)
                    == start.hand(q) by {
                    assert(self.hand(q) == before.hand(q));
                }
            }
            seat = seat + 1;
        }
    }

    /// Starts the game: shuffles the wall, then deals four rounds of four
    /// cards to every seat, so that each player holds sixteen new cards.
    pub fn deal_starting_hands(&mut self)
        requires
            old(self).wf(),
            old(self).unused_card@.len() >= STARTING_HAND_SIZE * old(self).players@.len(),
        ensures
            final(self).wf(),
            final(self).same_seats(old(self)),
            final(self).is_game_start,
            final(self).is_game_finish == old(self).is_game_finish,
            final(self).card_pool() == old(self).card_pool(),
            final(self).unused_card@.len() == old(self).unused_card@.len() - STARTING_HAND_SIZE
                * old(self).players@.len(),
            final(self).hands_grown_by(old(self), STARTING_HAND_SIZE as int),
    {
        self.is_game_start = true;
        random::shuffle_cards(&mut self.unused_card);
        let ghost start = *self;
        proof {
            assert(self.card_pool() =~= old(self).card_pool());
            assert forall|i: int| 0 <= i < self.players@.len() implies {
                &&& #[trigger] self.hand(i).len() == start.hand(i).len() + 4 * 0
                &&& self.hand(i).subrange(0, start.hand(i).len() as int) == start.hand(i)
            } by {
                assert(self.hand(i).subrange(0, start.hand(i).len() as int) =~= start.hand(i));
            }
        }
        let player_count = self.players.len();
        let mut round: usize = 0;
        while round < 4
            invariant
                round <= 4,
                player_count == self.players@.len(),
                self.wf(),
                self.same_seats(&start),
                self.is_game_start,
                self.is_game_finish == start.is_game_finish,
                self.card_pool() == start.card_pool(),
                start.unused_card@.len() >= 16 * player_count,
                self.unused_card@.len() == start.unused_card@.len() - round * (4 * player_count),
                self.hands_grown_by(&start, 4 * round as int),
            decreases 4 - round,
        {
            let ghost before = *self;
            proof {
                assert(round * (4 * player_count) <= 3 * (4 * player_count)) by (nonlinear_arith)
                    requires
                        round < 4,
                ;
            }
            self.deal_round();
            proof {
                assert((round + 1) * (4 * player_count) == round * (4 * player_count) + 4
                    * player_count) by (nonlinear_arith);
                assert forall|i: int| 0 <= i < self.players@.len() implies {
                    &&& #[trigger] self.hand(i).len() == start.hand(i).len() + 4 * (round + 1)
                    &&& self.hand(i).subrange(0, start.hand(i).len() as int) == start.hand(i)
                } by {
                    assert(self.hand(i).len() == before.hand(i).len() + 4);
                    assert(before.hand(i).len() == start.hand(i).len() + 4 * round);
                    assert(self.hand(i).subrange(0, start.hand(i).len() as int) =~= self.hand(
                        i,
                    ).subrange(0, before.hand(i).len() as int).subrange(
                        0,
                        start.hand(i).len() as int,
                    ));
                }
            }
            round = round + 1;
        }
        proof {
            assert(self.hands_grown_by(&start, 16));
            assert(start.players@ == old(self).players@);
            assert forall|i: int| 0 <= i < self.players@.len() implies {
                &&& #[trigger] self.hand(i).len() == old(self).hand(i).len() + 16
                &&& self.hand(i).subrange(0, old(self).hand(i).len() as int) == old(self).hand(i)
            } by {
                assert(start.hand(i) == old(self).hand(i));
            }
            assert(self.hands_grown_by(old(self), 16));
            assert(self.hands_grown_by(old(self), STARTING_HAND_SIZE as int));
        }
    }
}


/// The player to move after `current` when `count` players sit at the table.
pub fn next_turn(current: u8, count: u8) -> (r: u8)
    ensures
        r == spec_next_turn(current, count),
{
    if current >= count {
        1
    } else {
        current + 1
    }
}

/// The player to move after `steps` turns, starting from `current`.
pub open spec fn turn_after(current: u8, count: u8, steps: nat) -> u8
    decreases steps,
{
    if steps == 0 {
        current
    } else {
        spec_next_turn(turn_after(current, count, (steps - 1) as nat), count)
    }
}

pub proof fn lemma_turn_after_formula(current: u8, count: u8, steps: nat)
    requires
        1 <= current <= count,
    ensures
        1 <= turn_after(current, count, steps) <= count,
        turn_after(current, count, steps) == ((current - 1 + steps) % (count as int)) + 1,
    decreases steps,
{
    let c = count as int;
    if steps == 0 {
        vstd::arithmetic::div_mod::lemma_small_mod((current - 1) as nat, count as nat);
    } else {
        lemma_turn_after_formula(current, count, (steps - 1) as nat);
        let m: int = current - 1 + (steps - 1);
        let prev = turn_after(current, count, (steps - 1) as nat);
        assert(prev == m % c + 1);
        vstd::arithmetic::div_mod::lemma_fundamental_div_mod(m, c);
        vstd::arithmetic::div_mod::lemma_fundamental_div_mod(m + 1, c);
        if prev < count {
            vstd::arithmetic::div_mod::lemma_mod_add_multiples_vanish(m % c + 1, c);
            assert((m + 1) % c == m % c + 1) by {
                vstd::arithmetic::div_mod::lemma_add_mod_noop(m, 1, c);
                vstd::arithmetic::div_mod::lemma_small_mod(1, count as nat);
                vstd::arithmetic::div_mod::lemma_small_mod((m % c + 1) as nat, count as nat);
            }
        } else {
            assert((m + 1) % c == 0) by {
                vstd::arithmetic::div_mod::lemma_add_mod_noop(m, 1, c);
                vstd::arithmetic::div_mod::lemma_mod_self_0(c);
                if c == 1 {
                    vstd::arithmetic::div_mod::lemma_mod_self_0(1);
                } else {
                    vstd::arithmetic::div_mod::lemma_small_mod(1, count as nat);
                }
            }
        }
    }
}

/// Turns pass from seat to seat in order: from any seat, the seat `k`
/// places further on moves after `k` turns, wrapping past the last seat;
/// so after as many turns as there are players the turn comes back.
pub proof fn lemma_turn_order(current: u8, count: u8, steps: nat)
    requires
        1 <= current <= count,
    ensures
        1 <= turn_after(current, count, steps) <= count,
        turn_after(current, count, steps) == ((current - 1 + steps) % (count as int)) + 1,
        turn_after(current, count, count as nat) == current,
{
    lemma_turn_after_formula(current, count, steps);
    lemma_turn_after_formula(current, count, count as nat);
    vstd::arithmetic::div_mod::lemma_mod_add_multiples_vanish(current - 1, count as int);
    vstd::arithmetic::div_mod::lemma_small_mod((current - 1) as nat, count as nat);
}

impl<C: GameCard, U> GameTable<C, U> {
    /// The wall holds a card that is not a flower.
    pub open spec fn wall_has_non_flower(&self) -> bool {
        exists|i: int| 0 <= i < self.unused_card@.len() && !#[trigger] self.unused_card@[i].spec_is_flower()
    }

    /// The player in seat `seat` draws a random card that is not a flower;
    /// `None` when the wall holds none, in which case nothing changes.
    pub fn draw_non_flower(&mut self, seat: usize) -> (r: Option<C>)
        requires
            old(self).wf(),
            seat < old(self).players@.len(),
        ensures
            final(self).wf(),
            final(self).same_seats(old(self)),
            final(self).is_game_start == old(self).is_game_start,
            final(self).is_game_finish == old(self).is_game_finish,
            final(self).card_pool() == old(self).card_pool(),
            r is Some <==> old(self).wall_has_non_flower(),
            r is None ==> final(self).unused_card@ == old(self).unused_card@ && forall|j: int|
                0 <= j < final(self).players@.len() ==> #[trigger] final(self).hand(j) == old(self).hand(j),
            r matches Some(c) ==> {
                &&& !c.spec_is_flower()
                &&& old(self).unused_card@.contains(c)
                &&& final(self).unused_card@ == remove_first(old(self).unused_card@, c)
                &&& final(self).hand(seat as int) == old(self).hand(seat as int).push(c)
                &&& forall|j: int|
                    0 <= j < final(self).players@.len() && j != seat ==> #[trigger] final(self).hand(j) == old(self).hand(j)
            },
    {
        let mut candidates: Vec<C> = Vec::new();
        let mut i: usize = 0;
        while i < self.unused_card.len()
            invariant
                i <= self.unused_card@.len(),
                forall|k: int|
                    0 <= k < candidates@.len() ==> self.unused_card@.contains(
                        #[trigger] candidates@[k],
                    ) && !candidates@[k].spec_is_flower(),
                candidates@.len() == 0 ==> forall|j: int|
                    0 <= j < i ==> #[trigger] self.unused_card@[j].spec_is_flower(),
            decreases self.unused_card@.len() - i,
        {
            let c = self.unused_card[i];
            if !c.is_flower_card() {
                candidates.push(c);
                proof {
                    assert(self.unused_card@[i as int] == c);
                }
            }
            i = i + 1;
        }
        match random::choose_card(&candidates) {
            Some(card) => {
                proof {
                    let k = choose|k: int| 0 <= k < candidates@.len() && candidates@[k] == card;
                    assert(self.unused_card@.contains(candidates@[k]));
                    let w = choose|w: int| 0 <= w < self.unused_card@.len() && self.unused_card@[w] == card;
                    assert(!self.unused_card@[w].spec_is_flower());
                }
                self.move_to_hand(seat, card);
                Some(card)
            },
            None => {
                proof {
                    assert(!self.wall_has_non_flower());
                }
                None
            },
        }
    }

    /// The player in seat `seat` discards `card`: when the hand holds it,
    /// its first copy leaves the hand (and the table) and the result is
    /// `true`; otherwise nothing changes and the result is `false`.
    pub fn throw_card(&mut self, seat: usize, card: C) -> (r: bool)
        requires
            old(self).wf(),
            seat < old(self).players@.len(),
        ensures
            final(self).wf(),
            final(self).same_seats(old(self)),
            final(self).is_game_start == old(self).is_game_start,
            final(self).is_game_finish == old(self).is_game_finish,
            final(self).unused_card@ == old(self).unused_card@,
            r == old(self).hand(seat as int).contains(card),
            r ==> final(self).hand(seat as int) == remove_first(old(self).hand(seat as int), card)
                && final(self).card_pool().insert(card) == old(self).card_pool(),
            !r ==> final(self).hand(seat as int) == old(self).hand(seat as int),
            forall|j: int|
                0 <= j < final(self).players@.len() && j != seat ==> #[trigger] final(self).hand(j)
                    == old(self).hand(j),
    {
        let ghost before = *self;
        let mut index: usize = 0;
        let hand_len = self.players[seat].player_hand_cards.len();
        while index < hand_len
            invariant
                seat < self.players@.len(),
                hand_len == self.hand(seat as int).len(),
                index <= hand_len,
                forall|j: int| 0 <= j < index ==> self.hand(seat as int)[j] != card,
            ensures
                index < hand_len ==> self.hand(seat as int)[index as int] == card,
                index <= hand_len,
                forall|j: int| 0 <= j < index ==> self.hand(seat as int)[j] != card,
            decreases hand_len - index,
        {
            if self.players[seat].player_hand_cards[index].same_card(&card) {
                break;
            }
            index = index + 1;
        }
        if index < hand_len {
            proof {
                assert(is_first_index(self.hand(seat as int), card, index as int));
                lemma_remove_first_at(self.hand(seat as int), card, index as int);
            }
            self.players[seat].player_hand_cards.remove(index);
            proof {
                let ps = before.players@;
                let np = self.players@[seat as int];
                lemma_hands_pool_update(ps, seat as int, np);
                assert(self.players@ =~= ps.update(seat as int, np));
                let mo = ps[seat as int].player_hand_cards@.to_multiset();
                let mn = np.player_hand_cards@.to_multiset();
                assert(mn =~= mo.remove(card));
                assert(mo.count(card) > 0);
                let hn = hands_pool(self.players@);
                let ho = hands_pool(ps);
                assert(hn.add(mo) == ho.add(mn));
                assert(hn.insert(card) =~= ho) by {
                    assert forall|x: C| #[trigger] hn.insert(card).count(x) == ho.count(x) by {
                        assert(hn.add(mo).count(x) == ho.add(mn).count(x));
                    }
                }
                assert(self.card_pool().insert(card) =~= before.card_pool());
            }
            true
        } else {
            proof {
                assert(!before.hand(seat as int).contains(card)) by {
                    if before.hand(seat as int).contains(card) {
                        let k = choose|k: int| 0 <= k < hand_len && before.hand(seat as int)[k] == card;
                        assert(self.hand(seat as int)[k] != card);
                    }
                }
            }
            false
        }
    }
}

/// A copy of the cards in `v`.
pub fn copy_cards<C: Copy>(v: &Vec<C>) -> (r: Vec<C>)
    ensures
        r@ == v@,
{
    let mut r: Vec<C> = Vec::new();
    let mut i: usize = 0;
    while i < v.len()
        invariant
            i <= v@.len(),
            r@ == v@.take(i as int),
        decreases v@.len() - i,
    {
        r.push(v[i]);
        proof {
            assert(r@ =~= v@.take(i + 1));
        }
        i = i + 1;
    }
    proof {
        assert(r@ =~= v@);
    }
    r
}

} // verus!
