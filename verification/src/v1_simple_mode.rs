//! The V1Simple game: players join and leave by address and number, queue
//! the actions of the two kinds of rounds, and the rounds take those
//! actions in turn.
//!
//! Waiting on the queues is the caller's part: the game loop asks which
//! round comes next, and each round looks at its queue once per call, so
//! that the caller calls again until the round is done.

use vstd::multiset::Multiset;
use vstd::prelude::*;
use vstd::std_specs::cmp::PartialEqSpecImpl;
use vstd::string::StringExecFns;

use crate::random;
use crate::shared;
use crate::table::{is_first_index, lemma_remove_first_at, remove_first};
use crate::v1_simple_shared::{
    all_flowers, all_words, Either, GameActionAfter, GameActionPlayerRound, GameActionWaitRound,
    PMJCard, PMJCardFlowers, PMJCardTypes, PMJCardWords,
};

verus! {

broadcast use vstd::seq_lib::group_to_multiset_ensures, vstd::multiset::group_multiset_axioms;

/// The address and port a player connected from.
#[derive(Clone, Copy, Debug, PartialEq, Eq, Structural)]
pub struct PlayerAddr {
    pub is_v6: bool,
    pub ip: u128,
    pub port: u16,
}

/// A player: where it connected from, its number and its cards. Two players
/// are the same player when address and number agree.
#[derive(Debug)]
pub struct PMJPlayer {
    pub ip: PlayerAddr,
    pub number: u8,
    pub cards: Vec<PMJCard>,
}

/// An action a player queued for the waiting round.
#[derive(Clone, Copy, Debug)]
pub struct PlayerWaitRoundAction {
    pub player_ip: PlayerAddr,
    pub player_number: u8,
    pub action: GameActionWaitRound,
}

/// A discard a player queued.
#[derive(Clone, Copy, Debug)]
pub struct AfterAction {
    pub player_ip: PlayerAddr,
    pub player_number: u8,
    pub action: GameActionAfter,
}

/// An action a player queued for its own round.
#[derive(Clone, Copy, Debug)]
pub struct PlayerPlayerRoundAction {
    pub player_ip: PlayerAddr,
    pub player_number: u8,
    pub action: GameActionPlayerRound,
}

impl PartialEq for PMJPlayer {
    /// Two players are the same player when address and number agree.
    fn eq(&self, other: &Self) -> (r: bool) {
        self.ip == other.ip && self.number == other.number
    }
}

impl Eq for PMJPlayer {}

impl PartialEqSpecImpl for PMJPlayer {
    open spec fn obeys_eq_spec() -> bool {
        true
    }

    open spec fn eq_spec(&self, other: &PMJPlayer) -> bool {
        self.ip == other.ip && self.number == other.number
    }
}

impl PartialEq for PlayerWaitRoundAction {
    /// Two queued actions are the same when player number and action agree.
    fn eq(&self, other: &Self) -> (r: bool) {
        self.player_number == other.player_number && self.action == other.action
    }
}

impl Eq for PlayerWaitRoundAction {}

impl PartialEqSpecImpl for PlayerWaitRoundAction {
    open spec fn obeys_eq_spec() -> bool {
        true
    }

    open spec fn eq_spec(&self, other: &PlayerWaitRoundAction) -> bool {
        self.player_number == other.player_number && self.action == other.action
    }
}

impl PartialEq for AfterAction {
    /// Two queued discards are the same when player number and action agree.
    fn eq(&self, other: &Self) -> (r: bool) {
        self.player_number == other.player_number && self.action == other.action
    }
}

impl Eq for AfterAction {}

impl PartialEqSpecImpl for AfterAction {
    open spec fn obeys_eq_spec() -> bool {
        true
    }

    open spec fn eq_spec(&self, other: &AfterAction) -> bool {
        self.player_number == other.player_number && self.action == other.action
    }
}

impl PartialEq for PlayerPlayerRoundAction {
    /// Two queued actions are the same when player number and action agree.
    fn eq(&self, other: &Self) -> (r: bool) {
        self.player_number == other.player_number && self.action == other.action
    }
}

impl Eq for PlayerPlayerRoundAction {}

impl PartialEqSpecImpl for PlayerPlayerRoundAction {
    open spec fn obeys_eq_spec() -> bool {
        true
    }

    open spec fn eq_spec(&self, other: &PlayerPlayerRoundAction) -> bool {
        self.player_number == other.player_number && self.action == other.action
    }
}

/// The two kinds of rounds.
#[derive(Clone, Copy, Debug, PartialEq, Eq, Structural)]
pub enum GameRoundType {
    /// The player's own round: it may draw; it may not eat, pung, kong or
    /// replace a flower.
    PlayerRoound,
    /// The waiting round: the others may eat, pung, kong or replace a
    /// flower; nobody draws.
    WaitRound,
}

/// Where the game stands.
#[derive(Debug)]
pub struct GameStatus {
    pub rounds_count: u16,
    pub round_type: GameRoundType,
    /// In a waiting round, the number of the player who acted last.
    pub current_player_number: u8,
    pub is_round_finish: bool,
    pub is_game_finish: bool,
    /// The card discarded last.
    pub last_throw_card: Option<PMJCard>,
    pub game_winner: Option<PMJPlayer>,
}

/// The state of a V1Simple room, with the three queues of actions that
/// players sent.
#[derive(Debug)]
pub struct PositiveMahjong {
    pub players: Vec<PMJPlayer>,
    pub player_count: u8,
    pub max_player_count: u8,
    pub is_start: bool,
    pub unuse_cards: Vec<PMJCard>,
    pub game_status: GameStatus,
    pub msg_queue_wait: Vec<PlayerWaitRoundAction>,
    pub msg_queue_player: Vec<PlayerPlayerRoundAction>,
    pub msg_queue_after: Vec<AfterAction>,
}

// ---------------------------------------------------------------------
// The deck
// ---------------------------------------------------------------------

/// The card at position `i` of a new deck: characters, bamboos and dots
/// (rank 1 in its four copies, then rank 2, ...), the honours (each in its
/// four copies) and the eight flowers.
pub open spec fn deck_card(i: int) -> PMJCard {
    if i < 48 {
        let r = i % 16;
        PMJCard {
            card_type: if i / 16 == 0 {
                PMJCardTypes::TenThousand
            } else if i / 16 == 1 {
                PMJCardTypes::Line
            } else {
                PMJCardTypes::Dots
            },
            card_number: (r / 4 + 1) as u8,
            card_id: (r % 4 + 1) as u8,
        }
    } else if i < 76 {
        let r = i - 48;
        PMJCard {
            card_type: PMJCardTypes::Words(all_words()[r / 4]),
            card_number: 0,
            card_id: (r % 4 + 1) as u8,
        }
    } else {
        PMJCard { card_type: PMJCardTypes::Flower(all_flowers()[i - 76]), card_number: 0, card_id: 1 }
    }
}

/// The 84 cards of a new deck, in order.
pub open spec fn full_deck() -> Seq<PMJCard> {
    Seq::new(84, |i: int| deck_card(i))
}

/// A tile that a deck holds: a suited tile of rank 1 to 4, copy 1 to 4; an
/// honour without rank, copy 1 to 4; a flower without rank, copy 1.
pub open spec fn is_valid_tile(c: PMJCard) -> bool {
    match c.card_type {
        PMJCardTypes::TenThousand => 1 <= c.card_number <= 4 && 1 <= c.card_id <= 4,
        PMJCardTypes::Line => 1 <= c.card_number <= 4 && 1 <= c.card_id <= 4,
        PMJCardTypes::Dots => 1 <= c.card_number <= 4 && 1 <= c.card_id <= 4,
        PMJCardTypes::Words(_) => c.card_number == 0 && 1 <= c.card_id <= 4,
        PMJCardTypes::Flower(_) => c.card_number == 0 && c.card_id == 1,
    }
}

/// Where an honour stands among the honours.
pub open spec fn word_index(w: PMJCardWords) -> int {
    match w {
        PMJCardWords::East => 0,
        PMJCardWords::South => 1,
        PMJCardWords::West => 2,
        PMJCardWords::North => 3,
        PMJCardWords::RedDragon => 4,
        PMJCardWords::GreenDragon => 5,
        PMJCardWords::WhiteDragon => 6,
    }
}

/// Where a flower stands among the flowers.
pub open spec fn flower_index(f: PMJCardFlowers) -> int {
    match f {
        PMJCardFlowers::Spring => 0,
        PMJCardFlowers::Summer => 1,
        PMJCardFlowers::Fall => 2,
        PMJCardFlowers::Winter => 3,
        PMJCardFlowers::Plum => 4,
        PMJCardFlowers::Orchid => 5,
        PMJCardFlowers::Bamboo => 6,
        PMJCardFlowers::Chrysanthemum => 7,
    }
}

/// Where a valid tile stands in a new deck.
pub open spec fn deck_position(c: PMJCard) -> int {
    let r = 4 * (c.card_number - 1) + (c.card_id - 1);
    match c.card_type {
        PMJCardTypes::TenThousand => r,
        PMJCardTypes::Line => 16 + r,
        PMJCardTypes::Dots => 32 + r,
        PMJCardTypes::Words(w) => 48 + 4 * word_index(w) + (c.card_id - 1),
        PMJCardTypes::Flower(f) => 76 + flower_index(f),
    }
}

proof fn lemma_words_indexed(k: int)
    requires
        0 <= k < 7,
    ensures
        word_index(all_words()[k]) == k,
{
}

proof fn lemma_flowers_indexed(k: int)
    requires
        0 <= k < 8,
    ensures
        flower_index(all_flowers()[k]) == k,
{
}

proof fn lemma_deck_card_position(i: int)
    requires
        0 <= i < 84,
    ensures
        is_valid_tile(deck_card(i)),
        deck_position(deck_card(i)) == i,
{
    if 48 <= i < 76 {
        lemma_words_indexed((i - 48) / 4);
    } else if 76 <= i {
        lemma_flowers_indexed(i - 76);
    }
}

proof fn lemma_position_deck_card(c: PMJCard)
    requires
        is_valid_tile(c),
    ensures
        0 <= deck_position(c) < 84,
        deck_card(deck_position(c)) == c,
{
    match c.card_type {
        PMJCardTypes::Words(w) => {
            lemma_words_indexed(word_index(w));
        },
        PMJCardTypes::Flower(f) => {
            lemma_flowers_indexed(flower_index(f));
        },
        _ => {},
    }
}

/// A new deck holds every valid tile exactly once, and nothing else: 84
/// cards, the last 8 of them the flowers.
pub proof fn lemma_full_deck()
    ensures
        full_deck().len() == 84,
        forall|c: PMJCard| full_deck().contains(c) <==> is_valid_tile(c),
        full_deck().no_duplicates(),
        forall|i: int| 0 <= i < 84 ==> ((#[trigger] full_deck()[i]).card_type is Flower <==> 76 <= i),
{
    assert forall|c: PMJCard| full_deck().contains(c) <==> is_valid_tile(c) by {
        if is_valid_tile(c) {
            lemma_position_deck_card(c);
            assert(full_deck()[deck_position(c)] == c);
        }
        if full_deck().contains(c) {
            let i = choose|i: int| 0 <= i < 84 && full_deck()[i] == c;
            lemma_deck_card_position(i);
        }
    }
    assert forall|i: int, j: int| 0 <= i < 84 && 0 <= j < 84 && i != j implies full_deck()[i]
        != full_deck()[j] by {
        lemma_deck_card_position(i);
        lemma_deck_card_position(j);
    }
}

fn suit_kind(k: u8) -> (t: PMJCardTypes)
    requires
        k < 3,
    ensures
        t == deck_card(16 * k).card_type,
{
    if k == 0 {
        PMJCardTypes::TenThousand
    } else if k == 1 {
        PMJCardTypes::Line
    } else {
        PMJCardTypes::Dots
    }
}

/// A new deck, in the order of `full_deck`.
pub fn new_deck() -> (d: Vec<PMJCard>)
    ensures
        d@ == full_deck(),
{
    let mut d: Vec<PMJCard> = Vec::new();
    let mut k: u8 = 0;
    while k < 3
        invariant
            k <= 3,
            d@ == full_deck().take(16 * k),
        decreases 3 - k,
    {
        let card_type = suit_kind(k);
        let mut number: u8 = 1;
        while number < 5
            invariant
                k < 3,
                1 <= number <= 5,
                card_type == deck_card(16 * k).card_type,
                d@ == full_deck().take(16 * k + 4 * (number - 1)),
            decreases 5 - number,
        {
            let mut card_id: u8 = 1;
            while card_id < 5
                invariant
                    k < 3,
                    1 <= number <= 4,
                    1 <= card_id <= 5,
                    card_type == deck_card(16 * k).card_type,
                    d@ == full_deck().take(16 * k + 4 * (number - 1) + (card_id - 1)),
                decreases 5 - card_id,
            {
                let ghost i: int = 16 * k + 4 * (number - 1) + (card_id - 1);
                d.push(PMJCard { card_type, card_number: number, card_id });
                proof {
                    assert(i / 16 == k as int);
                    assert(i % 16 == 4 * (number - 1) + (card_id - 1));
                    assert((i % 16) / 4 == number - 1);
                    assert((i % 16) % 4 == card_id - 1);
                    assert(d@ =~= full_deck().take(i + 1));
                }
                card_id = card_id + 1;
            }
            number = number + 1;
        }
        k = k + 1;
    }
    let words = PMJCardWords::get_all();
    let mut w: usize = 0;
    while w < words.len()
        invariant
            words@ == all_words(),
            w <= 7,
            d@ == full_deck().take(48 + 4 * w),
        decreases 7 - w,
    {
        let word = words[w];
        let mut card_id: u8 = 1;
        while card_id < 5
            invariant
                words@ == all_words(),
                w < 7,
                word == all_words()[w as int],
                1 <= card_id <= 5,
                d@ == full_deck().take(48 + 4 * w + (card_id - 1)),
            decreases 5 - card_id,
        {
            let ghost i: int = 48 + 4 * w + (card_id - 1);
            d.push(PMJCard { card_type: PMJCardTypes::Words(word), card_number: 0, card_id });
            proof {
                assert((i - 48) / 4 == w as int);
                assert((i - 48) % 4 == card_id - 1);
                assert(d@ =~= full_deck().take(i + 1));
            }
            card_id = card_id + 1;
        }
        w = w + 1;
    }
    let flowers = PMJCardFlowers::get_all();
    let mut f: usize = 0;
    while f < flowers.len()
        invariant
            flowers@ == all_flowers(),
            f <= 8,
            d@ == full_deck().take(76 + f),
        decreases 8 - f,
    {
        d.push(PMJCard { card_type: PMJCardTypes::Flower(flowers[f]), card_number: 0, card_id: 1 });
        proof {
            assert(d@ =~= full_deck().take(76 + f + 1));
        }
        f = f + 1;
    }
    proof {
        assert(d@ =~= full_deck());
    }
    d
}

// ---------------------------------------------------------------------
// The room
// ---------------------------------------------------------------------

pub open spec fn text_full() -> Seq<char> {
    "人數已達上限！"@
}

pub open spec fn text_started() -> Seq<char> {
    "遊戲已開始！"@
}

pub open spec fn text_no_player() -> Seq<char> {
    "無此玩家！"@
}

pub open spec fn text_not_started() -> Seq<char> {
    "遊戲未開始！"@
}

pub open spec fn text_no_flower() -> Seq<char> {
    "無花可補！"@
}

pub open spec fn text_not_your_round() -> Seq<char> {
    "無此玩家或非此玩家回合！"@
}

/// `e` is the error whose text is `t`.
pub open spec fn is_left_text<B>(e: Either<String, B>, t: Seq<char>) -> bool {
    e matches Either::Left(s) && s@ == t
}

/// A player with address `ip` and number `number` sits in `ps`.
pub open spec fn seated(ps: Seq<PMJPlayer>, ip: PlayerAddr, number: u8) -> bool {
    exists|i: int| 0 <= i < ps.len() && (#[trigger] ps[i]).ip == ip && ps[i].number == number
}

/// The players of `ps` other than the one with address `ip` and number
/// `number`.
pub open spec fn others(ps: Seq<PMJPlayer>, ip: PlayerAddr, number: u8) -> Seq<PMJPlayer> {
    ps.filter(not_player(ip, number))
}

/// Holds of every player but the one with address `ip` and number `number`.
pub open spec fn not_player(ip: PlayerAddr, number: u8) -> spec_fn(PMJPlayer) -> bool {
    |p: PMJPlayer| !(p.ip == ip && p.number == number)
}

proof fn lemma_filter_drops<A>(s: Seq<A>, pred: spec_fn(A) -> bool, k: int)
    requires
        0 <= k < s.len(),
        !pred(s[k]),
    ensures
        s.filter(pred).len() < s.len(),
    decreases s.len(),
{
    reveal(Seq::filter);
    s.drop_last().lemma_filter_len(pred);
    if k < s.len() - 1 {
        lemma_filter_drops(s.drop_last(), pred, k);
    }
}

/// An answer with its text as a sequence of characters.
pub open spec fn answer_view<B>(e: Either<String, B>) -> Either<Seq<char>, B> {
    match e {
        Either::Left(s) => Either::Left(s@),
        Either::Right(b) => Either::Right(b),
    }
}

impl PositiveMahjong {
    /// The answer to a request to seat a player: the room is full, or the
    /// game has started, or the number of the new player.
    pub open spec fn add_player_answer(&self) -> Either<Seq<char>, u8> {
        if self.player_count >= self.max_player_count {
            Either::Left(text_full())
        } else if self.is_start {
            Either::Left(text_started())
        } else {
            Either::Right((self.player_count + 1) as u8)
        }
    }

    /// This room follows `old` by a request to seat a player that connected
    /// from `ip`: when the request is granted the player joins last, with
    /// the next number and no cards; otherwise nobody joins.
    pub open spec fn after_add_player(&self, old: &Self, ip: PlayerAddr) -> bool {
        &&& self.wf()
        &&& self.is_start == old.is_start
        &&& self.unuse_cards@ == old.unuse_cards@
        &&& if old.add_player_answer() is Left {
            &&& self.players@ == old.players@
            &&& self.player_count == old.player_count
        } else {
            &&& self.player_count == old.player_count + 1
            &&& self.players@.len() == old.players@.len() + 1
            &&& self.players@.drop_last() == old.players@
            &&& self.players@.last().ip == ip
            &&& self.players@.last().number == old.player_count + 1
            &&& self.players@.last().cards@.len() == 0
        }
    }

    /// The answer to a request to take out the player with address `ip`
    /// and number `number`: the game has started, or done, or no such
    /// player.
    pub open spec fn remove_player_answer(&self, ip: PlayerAddr, number: u8) -> Either<Seq<char>, ()> {
        if self.is_start {
            Either::Left(text_started())
        } else if seated(self.players@, ip, number) {
            Either::Right(())
        } else {
            Either::Left(text_no_player())
        }
    }

    /// This room follows `old` by a request to take out the player with
    /// address `ip` and number `number`: when it is granted every player
    /// that matches leaves and the count drops by one; otherwise nothing
    /// changes.
    pub open spec fn after_remove_player(&self, old: &Self, ip: PlayerAddr, number: u8) -> bool {
        &&& self.wf()
        &&& self.is_start == old.is_start
        &&& self.unuse_cards@ == old.unuse_cards@
        &&& if old.remove_player_answer(ip, number) is Right {
            &&& self.players@ == others(old.players@, ip, number)
            &&& self.player_count == old.player_count - 1
        } else {
            &&& self.players@ == old.players@
            &&& self.player_count == old.player_count
        }
    }
}

proof fn lemma_filter_keeps_all<A>(s: Seq<A>, pred: spec_fn(A) -> bool)
    requires
        forall|i: int| 0 <= i < s.len() ==> pred(#[trigger] s[i]),
    ensures
        s.filter(pred) == s,
    decreases s.len(),
{
    reveal(Seq::filter);
    if s.len() > 0 {
        lemma_filter_keeps_all(s.drop_last(), pred);
        assert(s.drop_last().push(s.last()) =~= s);
    }
}

/// Taking out a player right after it joined gives back the room's players
/// and count as they were, when no player with the same address and number
/// sat there before.
pub proof fn lemma_remove_undoes_add(
    s0: PositiveMahjong,
    s1: PositiveMahjong,
    s2: PositiveMahjong,
    ip: PlayerAddr,
    n: u8,
)
    requires
        s0.wf(),
        s0.add_player_answer() == Either::<Seq<char>, u8>::Right(n),
        s1.after_add_player(&s0, ip),
        !seated(s0.players@, ip, n),
        s2.after_remove_player(&s1, ip, n),
    ensures
        s1.remove_player_answer(ip, n) == Either::<Seq<char>, ()>::Right(()),
        s2.players@ == s0.players@,
        s2.player_count == s0.player_count,
{
    let ps = s0.players@;
    let pred = not_player(ip, n);
    assert(s1.players@ == ps.push(s1.players@.last())) by {
        assert(s1.players@ =~= s1.players@.drop_last().push(s1.players@.last()));
    }
    assert(s1.players@[ps.len() as int] == s1.players@.last());
    assert(seated(s1.players@, ip, n));
    assert(!pred(s1.players@.last()));
    assert(s1.players@.filter(pred) == ps.filter(pred)) by {
        reveal(Seq::filter);
        assert(s1.players@.drop_last() =~= ps);
    }
    assert forall|i: int| 0 <= i < ps.len() implies pred(#[trigger] ps[i]) by {
        if !pred(ps[i]) {
            assert(ps[i].ip == ip && ps[i].number == n);
            assert(seated(ps, ip, n));
        }
    }
    lemma_filter_keeps_all(ps, pred);
}

impl PositiveMahjong {
    /// At most `max_player_count` (four) players have joined, and each one
    /// that left took away at least one seat.
    pub open spec fn wf(&self) -> bool {
        &&& self.max_player_count == 4
        &&& self.players@.len() <= self.player_count <= self.max_player_count
    }

    /// The cards of the player at index `i`.
    pub open spec fn cards(&self, i: int) -> Seq<PMJCard> {
        self.players@[i].cards@
    }

    /// An empty room over a new deck.
    pub fn new() -> (r: Self)
        ensures
            r.wf(),
            r.players@.len() == 0,
            r.player_count == 0,
            !r.is_start,
            r.unuse_cards@ == full_deck(),
            r.game_status.rounds_count == 0,
            r.game_status.round_type == GameRoundType::WaitRound,
            r.game_status.current_player_number == 0,
            !r.game_status.is_round_finish,
            !r.game_status.is_game_finish,
            r.game_status.last_throw_card is None,
            r.game_status.game_winner is None,
            r.msg_queue_wait@.len() == 0,
            r.msg_queue_player@.len() == 0,
            r.msg_queue_after@.len() == 0,
    {
        PositiveMahjong {
            players: Vec::new(),
            player_count: 0,
            max_player_count: 4,
            is_start: false,
            unuse_cards: new_deck(),
            game_status: GameStatus {
                rounds_count: 0,
                round_type: GameRoundType::WaitRound,
                current_player_number: 0,
                is_round_finish: false,
                is_game_finish: false,
                last_throw_card: None,
                game_winner: None,
            },
            msg_queue_wait: Vec::new(),
            msg_queue_player: Vec::new(),
            msg_queue_after: Vec::new(),
        }
    }

    fn is_seated(&self, ip: PlayerAddr, number: u8) -> (r: bool)
        ensures
            r == seated(self.players@, ip, number),
    {
        let mut i: usize = 0;
        while i < self.players.len()
            invariant
                i <= self.players@.len(),
                forall|k: int|
                    0 <= k < i ==> !((#[trigger] self.players@[k]).ip == ip
                        && self.players@[k].number == number),
            decreases self.players@.len() - i,
        {
            if self.players[i].ip == ip && self.players[i].number == number {
                return true;
            }
            i = i + 1;
        }
        false
    }

    /// Seats a player that connected from `ip`: its number, or the reason
    /// it cannot join (the room is full, or the game has started).
    pub fn add_player(&mut self, ip: PlayerAddr) -> (r: Either<String, u8>)
        requires
            old(self).wf(),
        ensures
            answer_view(r) == old(self).add_player_answer(),
            final(self).after_add_player(old(self), ip),
    {
        if self.player_count >= self.max_player_count {
            Either::Left(String::from_str("人數已達上限！"))
        } else if self.is_start {
            Either::Left(String::from_str("遊戲已開始！"))
        } else {
            self.player_count = self.player_count + 1;
            let ghost before = self.players@;
            self.players.push(PMJPlayer { ip, number: self.player_count, cards: Vec::new() });
            proof {
                assert(self.players@.drop_last() =~= before);
            }
            Either::Right(self.player_count)
        }
    }

    /// Takes the player with address `ip` and number `number` out of the
    /// room, unless the game has started or no such player sits there.
    pub fn remove_player(&mut self, ip: PlayerAddr, number: u8) -> (r: Either<String, ()>)
        requires
            old(self).wf(),
        ensures
            answer_view(r) == old(self).remove_player_answer(ip, number),
            final(self).after_remove_player(old(self), ip, number),
    {
        if self.is_start {
            return Either::Left(String::from_str("遊戲已開始！"));
        }
        if !self.is_seated(ip, number) {
            return Either::Left(String::from_str("無此玩家！"));
        }
        let ghost before = self.players@;
        let ghost pred = not_player(ip, number);
        let mut kept: Vec<PMJPlayer> = Vec::new();
        let mut taken = Vec::new();
        std::mem::swap(&mut taken, &mut self.players);
        let mut i: usize = 0;
        let n = taken.len();
        proof {
            assert(taken@ == before);
        }
        while i < n
            invariant
                n == before.len(),
                0 <= i <= n,
                taken@ == before.skip(i as int),
                pred == not_player(ip, number),
                kept@ == before.take(i as int).filter(pred),
            decreases n - i,
        {
            let p = taken.remove(0);
            proof {
                assert(p == before[i as int]);
                assert(before.take(i + 1).drop_last() =~= before.take(i as int));
                assert(taken@ =~= before.skip(i + 1));
            }
            let ghost pv = p;
            if !(p.ip == ip && p.number == number) {
                kept.push(p);
            }
            proof {
                reveal(Seq::filter);
                let t = before.take(i + 1);
                assert(t.drop_last() =~= before.take(i as int));
                assert(t.last() == before[i as int]);
                assert(pred(pv) == !(pv.ip == ip && pv.number == number));
                assert(t.filter(pred) == if pred(t.last()) {
                    t.drop_last().filter(pred).push(t.last())
                } else {
                    t.drop_last().filter(pred)
                });
            }
            i = i + 1;
        }
        proof {
            assert(before.take(n as int) =~= before);
        }
        self.players = kept;
        proof {
            let k = choose|k: int|
                0 <= k < before.len() && (#[trigger] before[k]).ip == ip && before[k].number == number;
            lemma_filter_drops(before, pred, k);
        }
        self.player_count = self.player_count - 1;
        Either::Right(())
    }

    pub fn is_start(&self) -> (r: bool)
        ensures
            r == self.is_start,
    {
        self.is_start
    }
}


// ---------------------------------------------------------------------
// Cards in hands
// ---------------------------------------------------------------------

/// All the cards the players in `ps` hold.
pub open spec fn player_pool(ps: Seq<PMJPlayer>) -> Multiset<PMJCard>
    decreases ps.len(),
{
    if ps.len() == 0 {
        Multiset::empty()
    } else {
        player_pool(ps.drop_last()).add(ps.last().cards@.to_multiset())
    }
}

proof fn lemma_player_pool_update(ps: Seq<PMJPlayer>, i: int, p: PMJPlayer)
    requires
        0 <= i < ps.len(),
    ensures
        player_pool(ps.update(i, p)).add(ps[i].cards@.to_multiset()) =~= player_pool(ps).add(
            p.cards@.to_multiset(),
        ),
    decreases ps.len(),
{
    let q = ps.update(i, p);
    assert(q.len() == ps.len());
    assert(player_pool(q) == player_pool(q.drop_last()).add(q.last().cards@.to_multiset()));
    assert(player_pool(ps) == player_pool(ps.drop_last()).add(ps.last().cards@.to_multiset()));
    if i == ps.len() - 1 {
        assert(q.drop_last() =~= ps.drop_last());
        assert(q.last() == p);
    } else {
        assert(q.drop_last() =~= ps.drop_last().update(i, p));
        assert(q.last() == ps.last());
        assert(ps.drop_last()[i] == ps[i]);
        lemma_player_pool_update(ps.drop_last(), i, p);
        let a = player_pool(q.drop_last());
        let b = player_pool(ps.drop_last());
        let l = ps.last().cards@.to_multiset();
        let mi = ps[i].cards@.to_multiset();
        let mp = p.cards@.to_multiset();
        assert(a.add(mi) == b.add(mp));
        assert(a.add(l).add(mi) =~= b.add(l).add(mp)) by {
            assert forall|x: PMJCard| #[trigger] a.add(l).add(mi).count(x) == b.add(l).add(mp).count(x) by {
                assert(a.add(mi).count(x) == b.add(mp).count(x));
            }
        }
    }
}

proof fn lemma_empty_player_pool(ps: Seq<PMJPlayer>)
    requires
        forall|i: int| 0 <= i < ps.len() ==> (#[trigger] ps[i]).cards@.len() == 0,
    ensures
        player_pool(ps) =~= Multiset::empty(),
    decreases ps.len(),
{
    if ps.len() > 0 {
        lemma_empty_player_pool(ps.drop_last());
        assert(ps.last().cards@ =~= Seq::<PMJCard>::empty());
    }
}

/// Dealing keeps every tile in play exactly once: when the wall of a room is
/// a new deck and its players hold no cards, any later room with the same
/// cards in it (as seating the players and starting the game leave it)
/// holds each valid tile once, 84 in all, and nothing else.
pub proof fn lemma_deal_keeps_every_tile(before: PositiveMahjong, after: PositiveMahjong)
    requires
        before.unuse_cards@ == full_deck(),
        forall|i: int| 0 <= i < before.players@.len() ==> #[trigger] before.cards(i).len() == 0,
        after.card_pool() == before.card_pool(),
    ensures
        forall|c: PMJCard| #[trigger] after.card_pool().count(c) == if is_valid_tile(c) {
            1nat
        } else {
            0nat
        },
        after.card_pool().len() == 84,
{
    lemma_full_deck();
    assert forall|i: int| 0 <= i < before.players@.len() implies (#[trigger] before.players@[i]).cards@.len()
        == 0 by {
        assert(before.cards(i).len() == 0);
    }
    lemma_empty_player_pool(before.players@);
    full_deck().lemma_multiset_has_no_duplicates();
    assert(before.card_pool() =~= full_deck().to_multiset());
}

impl PositiveMahjong {
    /// Every card in the room: the wall and all the hands.
    pub open spec fn card_pool(&self) -> Multiset<PMJCard> {
        self.unuse_cards@.to_multiset().add(player_pool(self.players@))
    }

    /// Everything but the hands and the wall is as in `other`; addresses and
    /// numbers too.
    pub open spec fn same_but_cards(&self, other: &Self) -> bool {
        &&& self.players@.len() == other.players@.len()
        &&& forall|i: int|
            0 <= i < self.players@.len() ==> {
                &&& #[trigger] self.players@[i].ip == other.players@[i].ip
                &&& self.players@[i].number == other.players@[i].number
            }
        &&& self.player_count == other.player_count
        &&& self.max_player_count == other.max_player_count
        &&& self.is_start == other.is_start
        &&& self.game_status == other.game_status
        &&& self.msg_queue_wait@ == other.msg_queue_wait@
        &&& self.msg_queue_player@ == other.msg_queue_player@
        &&& self.msg_queue_after@ == other.msg_queue_after@
    }

    /// Nothing changed.
    pub open spec fn same_state(&self, other: &Self) -> bool {
        &&& self.same_but_cards(other)
        &&& self.unuse_cards@ == other.unuse_cards@
        &&& forall|i: int| 0 <= i < self.players@.len() ==> #[trigger] self.cards(i) == other.cards(i)
    }

    /// The player at index `seat` takes a random card from the wall.
    fn take_one_card(&mut self, seat: usize) -> (c: PMJCard)
        requires
            old(self).wf(),
            seat < old(self).players@.len(),
            old(self).unuse_cards@.len() > 0,
        ensures
            final(self).wf(),
            final(self).same_but_cards(old(self)),
            old(self).unuse_cards@.contains(c),
            final(self).unuse_cards@ == remove_first(old(self).unuse_cards@, c),
            final(self).unuse_cards@.len() == old(self).unuse_cards@.len() - 1,
            final(self).cards(seat as int) == old(self).cards(seat as int).push(c),
            forall|j: int|
                0 <= j < final(self).players@.len() && j != seat ==> #[trigger] final(self).cards(j)
                    == old(self).cards(j),
            final(self).card_pool() == old(self).card_pool(),
    {
        let ghost before = *self;
        let card = match random::choose_card(&self.unuse_cards) {
            Some(c) => c,
            None => {
                proof {
                    assert(false);
                }
                self.unuse_cards[0]
            },
        };
        let mut index: usize = 0;
        while index < self.unuse_cards.len()
            invariant
                index <= self.unuse_cards@.len(),
                self.unuse_cards@ == before.unuse_cards@,
                self.unuse_cards@.contains(card),
                forall|j: int| 0 <= j < index ==> self.unuse_cards@[j] != card,
            ensures
                index < self.unuse_cards@.len(),
                is_first_index(self.unuse_cards@, card, index as int),
            decreases self.unuse_cards@.len() - index,
        {
            if self.unuse_cards[index] == card {
                break;
            }
            index = index + 1;
        }
        proof {
            lemma_remove_first_at(self.unuse_cards@, card, index as int);
        }
        let taken = self.unuse_cards.remove(index);
        self.players[seat].cards.push(taken);
        proof {
            let ps = before.players@;
            let np = self.players@[seat as int];
            lemma_player_pool_update(ps, seat as int, np);
            assert(self.players@ =~= ps.update(seat as int, np));
            let hn = player_pool(self.players@);
            let ho = player_pool(ps);
            let mo = ps[seat as int].cards@.to_multiset();
            assert(np.cards@.to_multiset() =~= mo.insert(card));
            assert(hn.add(mo) == ho.add(mo.insert(card)));
            assert(hn =~= ho.insert(card)) by {
                assert forall|x: PMJCard| #[trigger] hn.count(x) == ho.insert(card).count(x) by {
                    assert(hn.add(mo).count(x) == ho.add(mo.insert(card)).count(x));
                }
            }
            assert(self.unuse_cards@.to_multiset() =~= before.unuse_cards@.to_multiset().remove(card));
            assert(before.unuse_cards@.to_multiset().count(card) > 0);
            assert(self.card_pool() =~= before.card_pool());
        }
        card
    }

    /// The player at index `player_number` takes four random cards from the
    /// wall.
    pub fn get_one_unuse_card(&mut self, player_number: usize)
        requires
            old(self).wf(),
            player_number < old(self).players@.len(),
            old(self).unuse_cards@.len() >= 4,
        ensures
            final(self).wf(),
            final(self).same_but_cards(old(self)),
            final(self).card_pool() == old(self).card_pool(),
            final(self).unuse_cards@.len() == old(self).unuse_cards@.len() - 4,
            final(self).cards(player_number as int).len() == old(self).cards(player_number as int).len() + 4,
            final(self).cards(player_number as int).subrange(0, old(self).cards(player_number as int).len() as int)
                == old(self).cards(player_number as int),
            forall|j: int|
                0 <= j < final(self).players@.len() && j != player_number ==> #[trigger] final(self).cards(j)
                    == old(self).cards(j),
    {
        let ghost start = *self;
        let mut k: usize = 0;
        while k < 4
            invariant
                k <= 4,
                player_number < self.players@.len(),
                self.wf(),
                self.same_but_cards(&start),
                self.card_pool() == start.card_pool(),
                start.unuse_cards@.len() >= 4,
                self.unuse_cards@.len() == start.unuse_cards@.len() - k,
                self.cards(player_number as int).len() == start.cards(player_number as int).len() + k,
                self.cards(player_number as int).subrange(0, start.cards(player_number as int).len() as int)
                    == start.cards(player_number as int),
                forall|j: int|
                    0 <= j < self.players@.len() && j != player_number ==> #[trigger] self.cards(j)
                        == start.cards(j),
            decreases 4 - k,
        {
            let ghost before = *self;
            self.take_one_card(player_number);
            proof {
                assert(self.cards(player_number as int).subrange(0, start.cards(player_number as int).len() as int)
                    =~= before.cards(player_number as int).subrange(0, start.cards(player_number as int).len() as int));
                assert forall|j: int|
                    0 <= j < self.players@.len() && j != player_number implies #[trigger] self.cards(j)
                        == start.cards(j) by {
                    assert(before.cards(j) == start.cards(j));
                }
            }
            k = k + 1;
        }
    }

    /// Every hand starts with the matching hand of `other` and is longer by
    /// `extra`, or by `first_extra` for the first player.
    pub open spec fn hands_grown_by(&self, other: &Self, first_extra: int, extra: int) -> bool {
        forall|i: int|
            0 <= i < self.players@.len() ==> {
                &&& #[trigger] self.cards(i).len() == other.cards(i).len() + if i == 0 {
                    first_extra
                } else {
                    extra
                }
                &&& self.cards(i).subrange(0, other.cards(i).len() as int) == other.cards(i)
            }
    }

    #[verifier::spinoff_prover]
    fn deal_round(&mut self)
        requires
            old(self).wf(),
            old(self).unuse_cards@.len() >= 4 * old(self).players@.len(),
        ensures
            final(self).wf(),
            final(self).same_but_cards(old(self)),
            final(self).card_pool() == old(self).card_pool(),
            final(self).unuse_cards@.len() == old(self).unuse_cards@.len() - 4 * old(self).players@.len(),
            final(self).hands_grown_by(old(self), 4, 4),
    {
        let ghost start = *self;
        let n = self.players.len();
        let mut seat: usize = 0;
        while seat < n
            invariant
                seat <= n,
                n == self.players@.len(),
                self.wf(),
                self.same_but_cards(&start),
                self.card_pool() == start.card_pool(),
                start.unuse_cards@.len() >= 4 * n,
                self.unuse_cards@.len() == start.unuse_cards@.len() - 4 * seat,
                forall|q: int|
                    0 <= q < seat ==> {
                        &&& #[trigger] self.cards(q).len() == start.cards(q).len() + 4
                        &&& self.cards(q).subrange(0, start.cards(q).len() as int) == start.cards(q)
                    },
                forall|q: int| seat <= q < n ==> #[trigger] self.cards(q) == start.cards(q),
            decreases n - seat,
        {
            let ghost before = *self;
            self.get_one_unuse_card(seat);
            proof {
                assert forall|q: int| 0 <= q < seat + 1 implies {
                    &&& #[trigger] self.cards(q).len() == start.cards(q).len() + 4
                    &&& self.cards(q).subrange(0, start.cards(q).len() as int) == start.cards(q)
                } by {
                    if q < seat {
                        assert(self.cards(q) == before.cards(q));
                    } else {
                        assert(before.cards(q) == start.cards(q));
                    }
                }
                assert forall|q: int| seat + 1 <= q < n implies #[trigger] self.cards(q) == start.cards(q) by {
                    assert(self.cards(q) == before.cards(q));
                }
            }
            seat = seat + 1;
        }
    }

    /// Deals the starting hands: the wall is shuffled, every player takes
    /// four cards four times over, and the first player (the dealer) takes
    /// four more. The game loop, which the caller runs, follows.
    pub fn start_game(&mut self)
        requires
            old(self).wf(),
            old(self).players@.len() >= 1,
            old(self).unuse_cards@.len() >= 16 * old(self).players@.len() + 4,
        ensures
            final(self).wf(),
            final(self).same_but_cards(old(self)),
            final(self).card_pool() == old(self).card_pool(),
            final(self).unuse_cards@.len() == old(self).unuse_cards@.len() - 16 * old(self).players@.len() - 4,
            final(self).hands_grown_by(old(self), 20, 16),
    {
        random::shuffle_cards(&mut self.unuse_cards);
        let ghost start = *self;
        proof {
            assert(self.card_pool() =~= old(self).card_pool());
            assert forall|i: int| 0 <= i < self.players@.len() implies {
                &&& #[trigger] self.cards(i).len() == start.cards(i).len() + 0
                &&& self.cards(i).subrange(0, start.cards(i).len() as int) == start.cards(i)
            } by {
                assert(self.cards(i).subrange(0, start.cards(i).len() as int) =~= start.cards(i));
            }
        }
        let n = self.players.len();
        let mut round: usize = 0;
        while round < 4
            invariant
                round <= 4,
                n == self.players@.len(),
                n >= 1,
                self.wf(),
                self.same_but_cards(&start),
                self.card_pool() == start.card_pool(),
                start.unuse_cards@.len() >= 16 * n + 4,
                self.unuse_cards@.len() == start.unuse_cards@.len() - round * (4 * n),
                self.hands_grown_by(&start, 4 * round as int, 4 * round as int),
            decreases 4 - round,
        {
            let ghost before = *self;
            proof {
                assert(round * (4 * n) <= 3 * (4 * n)) by (nonlinear_arith)
                    requires
                        round < 4,
                ;
            }
            self.deal_round();
            proof {
                assert((round + 1) * (4 * n) == round * (4 * n) + 4 * n) by (nonlinear_arith);
                assert forall|i: int| 0 <= i < self.players@.len() implies {
                    &&& #[trigger] self.cards(i).len() == start.cards(i).len() + 4 * (round + 1)
                    &&& self.cards(i).subrange(0, start.cards(i).len() as int) == start.cards(i)
                } by {
                    assert(self.cards(i).len() == before.cards(i).len() + 4);
                    assert(before.cards(i).len() == start.cards(i).len() + 4 * round);
                    assert(self.cards(i).subrange(0, start.cards(i).len() as int) =~= self.cards(
                        i,
                    ).subrange(0, before.cards(i).len() as int).subrange(0, start.cards(i).len() as int));
                }
            }
            round = round + 1;
        }
        let ghost dealt = *self;
        self.get_one_unuse_card(0);
        proof {
            assert forall|i: int| 0 <= i < self.players@.len() implies {
                &&& #[trigger] self.cards(i).len() == old(self).cards(i).len() + if i == 0 {
                    20int
                } else {
                    16int
                }
                &&& self.cards(i).subrange(0, old(self).cards(i).len() as int) == old(self).cards(i)
            } by {
                assert(start.cards(i) == old(self).cards(i));
                assert(dealt.cards(i).len() == start.cards(i).len() + 16);
                if i == 0 {
                    assert(self.cards(i).subrange(0, start.cards(i).len() as int) =~= self.cards(
                        i,
                    ).subrange(0, dealt.cards(i).len() as int).subrange(0, start.cards(i).len() as int));
                } else {
                    assert(self.cards(i) == dealt.cards(i));
                }
            }
            assert(self.card_pool() == old(self).card_pool());
            assert(self.hands_grown_by(old(self), 20, 16));
        }
    }
}


// ---------------------------------------------------------------------
// Requests of the players
// ---------------------------------------------------------------------

/// `p` and `q` carry the same address, number and cards.
pub open spec fn same_player(p: PMJPlayer, q: PMJPlayer) -> bool {
    p.ip == q.ip && p.number == q.number && p.cards@ == q.cards@
}

fn copy_player(p: &PMJPlayer) -> (q: PMJPlayer)
    ensures
        same_player(*p, q),
{
    PMJPlayer { ip: p.ip, number: p.number, cards: crate::table::copy_cards(&p.cards) }
}

/// The hand `cards` holds a flower.
pub open spec fn has_flower(cards: Seq<PMJCard>) -> bool {
    exists|i: int| 0 <= i < cards.len() && (#[trigger] cards[i]).card_type is Flower
}

impl PositiveMahjong {
    /// A request to replace flowers. Before the game starts it is refused;
    /// a player that does not sit in the room is refused; a player whose
    /// hand (looked up at the index given by its number) holds a flower is
    /// answered that it has no flower to replace; any other player gets a
    /// plain yes. Nothing changes in any case.
    pub fn replacing_a_flower(&mut self, player_ip: PlayerAddr, player_number: u8) -> (r: Either<String, ()>)
        requires
            old(self).wf(),
            old(self).is_start && seated(old(self).players@, player_ip, player_number)
                ==> (player_number as int) < old(self).players@.len(),
        ensures
            final(self).wf(),
            final(self).same_state(old(self)),
            !old(self).is_start ==> is_left_text(r, text_not_started()),
            old(self).is_start && !seated(old(self).players@, player_ip, player_number)
                ==> is_left_text(r, text_no_player()),
            old(self).is_start && seated(old(self).players@, player_ip, player_number) ==> {
                if has_flower(old(self).cards(player_number as int)) {
                    is_left_text(r, text_no_flower())
                } else {
                    r is Right
                }
            },
    {
        if !self.is_start {
            return Either::Left(String::from_str("遊戲未開始！"));
        }
        if !self.is_seated(player_ip, player_number) {
            return Either::Left(String::from_str("無此玩家！"));
        }
        let player = &self.players[player_number as usize];
        let mut flower_count: usize = 0;
        let mut i: usize = 0;
        while i < player.cards.len()
            invariant
                i <= player.cards@.len(),
                flower_count <= i,
                (flower_count > 0) == exists|k: int| 0 <= k < i && (#[trigger] player.cards@[k]).card_type is Flower,
            decreases player.cards@.len() - i,
        {
            match player.cards[i].card_type {
                PMJCardTypes::Flower(_) => {
                    flower_count = flower_count + 1;
                },
                _ => {},
            }
            i = i + 1;
        }
        if flower_count > 0 {
            Either::Left(String::from_str("無花可補！"))
        } else {
            Either::Right(())
        }
    }

    /// The cards of a player, looked up at the index given by its number:
    /// refused before the game starts and for a player not in the room.
    pub fn get_cards(&self, player_ip: PlayerAddr, player_number: u8) -> (r: Either<String, Vec<PMJCard>>)
        requires
            self.is_start && seated(self.players@, player_ip, player_number) ==> (player_number as int)
                < self.players@.len(),
        ensures
            !self.is_start ==> is_left_text(r, text_not_started()),
            self.is_start && !seated(self.players@, player_ip, player_number) ==> is_left_text(
                r,
                text_no_player(),
            ),
            self.is_start && seated(self.players@, player_ip, player_number) ==> (r matches Either::Right(
                cards,
            ) && cards@ == self.cards(player_number as int)),
    {
        if !self.is_start {
            Either::Left(String::from_str("遊戲未開始！"))
        } else if self.is_seated(player_ip, player_number) {
            Either::Right(crate::table::copy_cards(&self.players[player_number as usize].cards))
        } else {
            Either::Left(String::from_str("無此玩家！"))
        }
    }

    /// A copy of where the game stands.
    pub fn get_game_status(&self) -> (r: GameStatus)
        ensures
            r.rounds_count == self.game_status.rounds_count,
            r.round_type == self.game_status.round_type,
            r.current_player_number == self.game_status.current_player_number,
            r.is_round_finish == self.game_status.is_round_finish,
            r.is_game_finish == self.game_status.is_game_finish,
            r.last_throw_card == self.game_status.last_throw_card,
            r.game_winner is Some == self.game_status.game_winner is Some,
            r.game_winner matches Some(w) ==> same_player(w, self.game_status.game_winner->0),
    {
        GameStatus {
            rounds_count: self.game_status.rounds_count,
            round_type: self.game_status.round_type,
            current_player_number: self.game_status.current_player_number,
            is_round_finish: self.game_status.is_round_finish,
            is_game_finish: self.game_status.is_game_finish,
            last_throw_card: self.game_status.last_throw_card,
            game_winner: match &self.game_status.game_winner {
                Some(w) => Some(copy_player(w)),
                None => None,
            },
        }
    }

    /// Looks in the hand of the player at index `player_number` for a card
    /// of the given kind and rank; the search is not written yet, so the
    /// answer is always that none was found.
    pub fn check_win_have_card(&self, player_number: u8, card_type: PMJCardTypes, card_number: u8) -> (r: Option<u8>)
        requires
            (player_number as int) < self.players@.len(),
        ensures
            r is None,
    {
        let _player = &self.players[player_number as usize];
        None
    }

    /// Switches between the player's round and the waiting round.
    pub fn change_game_round_type(&mut self)
        ensures
            final(self).game_status.round_type == match old(self).game_status.round_type {
                GameRoundType::PlayerRoound => GameRoundType::WaitRound,
                GameRoundType::WaitRound => GameRoundType::PlayerRoound,
            },
            final(self).game_status.rounds_count == old(self).game_status.rounds_count,
            final(self).game_status.current_player_number == old(self).game_status.current_player_number,
            final(self).game_status.is_round_finish == old(self).game_status.is_round_finish,
            final(self).game_status.is_game_finish == old(self).game_status.is_game_finish,
            final(self).game_status.last_throw_card == old(self).game_status.last_throw_card,
            final(self).game_status.game_winner == old(self).game_status.game_winner,
            final(self).players == old(self).players,
            final(self).player_count == old(self).player_count,
            final(self).max_player_count == old(self).max_player_count,
            final(self).is_start == old(self).is_start,
            final(self).unuse_cards == old(self).unuse_cards,
            final(self).msg_queue_wait == old(self).msg_queue_wait,
            final(self).msg_queue_player == old(self).msg_queue_player,
            final(self).msg_queue_after == old(self).msg_queue_after,
    {
        match self.game_status.round_type {
            GameRoundType::PlayerRoound => {
                self.game_status.round_type = GameRoundType::WaitRound;
            },
            GameRoundType::WaitRound => {
                self.game_status.round_type = GameRoundType::PlayerRoound;
            },
        }
    }

    /// Queues an action of a player's own round, once the game has started
    /// and the player sits in the room.
    pub fn player_round_action(&mut self, player_ip: PlayerAddr, player_number: u8, action: GameActionPlayerRound) -> (r: Either<String, ()>)
        ensures
            final(self).msg_queue_wait@ == old(self).msg_queue_wait@,
            final(self).msg_queue_after@ == old(self).msg_queue_after@,
            final(self).players@ == old(self).players@,
            final(self).unuse_cards@ == old(self).unuse_cards@,
            final(self).is_start == old(self).is_start,
            final(self).player_count == old(self).player_count,
            final(self).max_player_count == old(self).max_player_count,
            final(self).game_status == old(self).game_status,
            !old(self).is_start ==> is_left_text(r, text_not_started()) && final(self).msg_queue_player@ == old(self).msg_queue_player@,
            old(self).is_start && !seated(old(self).players@, player_ip, player_number) ==> is_left_text(r, text_not_your_round())
                && final(self).msg_queue_player@ == old(self).msg_queue_player@,
            old(self).is_start && seated(old(self).players@, player_ip, player_number) ==> r is Right
                && final(self).msg_queue_player@ == old(self).msg_queue_player@.push(
                PlayerPlayerRoundAction { player_ip, player_number, action },
            ),
    {
        if !self.is_start {
            Either::Left(String::from_str("遊戲未開始！"))
        } else if self.is_seated(player_ip, player_number) {
            self.msg_queue_player.push(PlayerPlayerRoundAction { player_ip, player_number, action });
            Either::Right(())
        } else {
            Either::Left(String::from_str("無此玩家或非此玩家回合！"))
        }
    }

    /// Queues an action of the waiting round, once the game has started and
    /// the player sits in the room.
    pub fn wait_round_action(&mut self, player_ip: PlayerAddr, player_number: u8, action: GameActionWaitRound) -> (r: Either<String, ()>)
        ensures
            final(self).msg_queue_player@ == old(self).msg_queue_player@,
            final(self).msg_queue_after@ == old(self).msg_queue_after@,
            final(self).players@ == old(self).players@,
            final(self).unuse_cards@ == old(self).unuse_cards@,
            final(self).is_start == old(self).is_start,
            final(self).player_count == old(self).player_count,
            final(self).max_player_count == old(self).max_player_count,
            final(self).game_status == old(self).game_status,
            !old(self).is_start ==> is_left_text(r, text_not_started()) && final(self).msg_queue_wait@ == old(self).msg_queue_wait@,
            old(self).is_start && !seated(old(self).players@, player_ip, player_number) ==> is_left_text(r, text_not_your_round())
                && final(self).msg_queue_wait@ == old(self).msg_queue_wait@,
            old(self).is_start && seated(old(self).players@, player_ip, player_number) ==> r is Right
                && final(self).msg_queue_wait@ == old(self).msg_queue_wait@.push(
                PlayerWaitRoundAction { player_ip, player_number, action },
            ),
    {
        if !self.is_start {
            Either::Left(String::from_str("遊戲未開始！"))
        } else if self.is_seated(player_ip, player_number) {
            self.msg_queue_wait.push(PlayerWaitRoundAction { player_ip, player_number, action });
            Either::Right(())
        } else {
            Either::Left(String::from_str("無此玩家或非此玩家回合！"))
        }
    }

    /// Queues the discard that ends a player's own round, once the game has
    /// started and the player sits in the room.
    pub fn player_round_after_action(&mut self, player_ip: PlayerAddr, player_number: u8, action: GameActionAfter) -> (r: Either<String, ()>)
        ensures
            final(self).msg_queue_player@ == old(self).msg_queue_player@,
            final(self).msg_queue_wait@ == old(self).msg_queue_wait@,
            final(self).players@ == old(self).players@,
            final(self).unuse_cards@ == old(self).unuse_cards@,
            final(self).is_start == old(self).is_start,
            final(self).player_count == old(self).player_count,
            final(self).max_player_count == old(self).max_player_count,
            final(self).game_status == old(self).game_status,
            !old(self).is_start ==> is_left_text(r, text_not_started()) && final(self).msg_queue_after@ == old(self).msg_queue_after@,
            old(self).is_start && !seated(old(self).players@, player_ip, player_number) ==> is_left_text(r, text_not_your_round())
                && final(self).msg_queue_after@ == old(self).msg_queue_after@,
            old(self).is_start && seated(old(self).players@, player_ip, player_number) ==> r is Right
                && final(self).msg_queue_after@ == old(self).msg_queue_after@.push(
                AfterAction { player_ip, player_number, action },
            ),
    {
        self.queue_after_action(player_ip, player_number, action)
    }

    /// Queues the discard that follows an action of the waiting round, once
    /// the game has started and the player sits in the room.
    pub fn wait_round_after_action(&mut self, player_ip: PlayerAddr, player_number: u8, action: GameActionAfter) -> (r: Either<String, ()>)
        ensures
            final(self).msg_queue_player@ == old(self).msg_queue_player@,
            final(self).msg_queue_wait@ == old(self).msg_queue_wait@,
            final(self).players@ == old(self).players@,
            final(self).unuse_cards@ == old(self).unuse_cards@,
            final(self).is_start == old(self).is_start,
            final(self).player_count == old(self).player_count,
            final(self).max_player_count == old(self).max_player_count,
            final(self).game_status == old(self).game_status,
            !old(self).is_start ==> is_left_text(r, text_not_started()) && final(self).msg_queue_after@ == old(self).msg_queue_after@,
            old(self).is_start && !seated(old(self).players@, player_ip, player_number) ==> is_left_text(r, text_not_your_round())
                && final(self).msg_queue_after@ == old(self).msg_queue_after@,
            old(self).is_start && seated(old(self).players@, player_ip, player_number) ==> r is Right
                && final(self).msg_queue_after@ == old(self).msg_queue_after@.push(
                AfterAction { player_ip, player_number, action },
            ),
    {
        self.queue_after_action(player_ip, player_number, action)
    }

    fn queue_after_action(&mut self, player_ip: PlayerAddr, player_number: u8, action: GameActionAfter) -> (r: Either<String, ()>)
        ensures
            final(self).msg_queue_player@ == old(self).msg_queue_player@,
            final(self).msg_queue_wait@ == old(self).msg_queue_wait@,
            final(self).players@ == old(self).players@,
            final(self).unuse_cards@ == old(self).unuse_cards@,
            final(self).is_start == old(self).is_start,
            final(self).player_count == old(self).player_count,
            final(self).max_player_count == old(self).max_player_count,
            final(self).game_status == old(self).game_status,
            !old(self).is_start ==> is_left_text(r, text_not_started()) && final(self).msg_queue_after@ == old(self).msg_queue_after@,
            old(self).is_start && !seated(old(self).players@, player_ip, player_number) ==> is_left_text(r, text_not_your_round())
                && final(self).msg_queue_after@ == old(self).msg_queue_after@,
            old(self).is_start && seated(old(self).players@, player_ip, player_number) ==> r is Right
                && final(self).msg_queue_after@ == old(self).msg_queue_after@.push(
                AfterAction { player_ip, player_number, action },
            ),
    {
        if !self.is_start {
            Either::Left(String::from_str("遊戲未開始！"))
        } else if self.is_seated(player_ip, player_number) {
            self.msg_queue_after.push(AfterAction { player_ip, player_number, action });
            Either::Right(())
        } else {
            Either::Left(String::from_str("無此玩家或非此玩家回合！"))
        }
    }
}


// ---------------------------------------------------------------------
// The rounds
// ---------------------------------------------------------------------

/// The hand holds a card of kind `t` and rank `n`, whichever copy.
pub open spec fn holds_rank(hand: Seq<PMJCard>, t: PMJCardTypes, n: int) -> bool {
    exists|i: int| 0 <= i < hand.len() && (#[trigger] hand[i]).card_type == t && hand[i].card_number == n
}

/// The rule for eating in the waiting round: `card` is the card discarded
/// last, it has a rank, and the hand holds the ranks next to it: one below
/// and one above for 2 to 8, the rank 2 for 1 (the rule looks for it
/// twice), and the ranks 8 and 7 for 9.
pub open spec fn may_eat(hand: Seq<PMJCard>, last_throw: Option<PMJCard>, card: PMJCard) -> bool {
    let n = card.card_number as int;
    let t = card.card_type;
    &&& last_throw == Some(card)
    &&& n > 0
    &&& {
        ||| 1 < n < 9 && holds_rank(hand, t, n - 1) && holds_rank(hand, t, n + 1)
        ||| n == 1 && holds_rank(hand, t, n + 1)
        ||| n == 9 && holds_rank(hand, t, n - 1) && holds_rank(hand, t, n - 2)
    }
}

/// The queue holds an own-round action of the player numbered
/// `player_number`.
pub open spec fn queued_draw(q: Seq<PlayerPlayerRoundAction>, player_number: u8) -> bool {
    exists|i: int| 0 <= i < q.len() && (#[trigger] q[i]).player_number == player_number
}

/// The queue holds a discard of the player numbered `player_number`.
pub open spec fn queued_discard(q: Seq<AfterAction>, player_number: u8) -> bool {
    exists|i: int| 0 <= i < q.len() && (#[trigger] q[i]).player_number == player_number
}

/// What one look at the queue of the waiting round found.
#[derive(Clone, Copy, Debug, PartialEq, Eq, Structural)]
pub enum WaitRoundScan {
    /// Nobody may eat yet; `need_after_throw` tells whether another player
    /// has acted, after which the player of the turn has to discard.
    Waiting { need_after_throw: bool },
    /// The player numbered `player_number` may eat `card`; what follows an
    /// accepted eat is not part of the rules yet.
    EatAccepted { player_number: u8, card: PMJCard },
}

impl PositiveMahjong {
    /// The discard `a` can be taken from the hand at index `player_number`:
    /// it is that player's and the hand holds the card.
    pub open spec fn throw_ok(&self, a: AfterAction, player_number: u8) -> bool {
        &&& a.player_number == player_number
        &&& a.action matches GameActionAfter::Throw(card) && self.cards(player_number as int).contains(card)
    }

    /// The action `a` of the waiting round after the turn of the player
    /// numbered `player_number` is an eat that the rule allows.
    pub open spec fn eat_ok(&self, a: PlayerWaitRoundAction, player_number: u8) -> bool {
        &&& a.player_number != player_number
        &&& a.action matches GameActionWaitRound::Eat(card) && may_eat(
            self.cards(a.player_number as int),
            self.game_status.last_throw_card,
            card,
        )
    }

    /// The action `a` of the waiting round makes the rule look into the
    /// hand of the player that sent it.
    pub open spec fn eat_looks_at_hand(&self, a: PlayerWaitRoundAction, player_number: u8) -> bool {
        &&& a.player_number != player_number
        &&& a.action matches GameActionWaitRound::Eat(card) && self.game_status.last_throw_card
            == Some(card) && 1 <= card.card_number <= 9
    }

    /// Whether the player at index `player_number` holds `card`: that very
    /// copy, or, with `do_not_care_id`, any copy of the same kind and rank.
    pub fn have_card(&self, player_number: u8, card: &PMJCard, do_not_care_id: bool) -> (r: bool)
        requires
            (player_number as int) < self.players@.len(),
        ensures
            do_not_care_id ==> r == holds_rank(
                self.cards(player_number as int),
                card.card_type,
                card.card_number as int,
            ),
            !do_not_care_id ==> r == self.cards(player_number as int).contains(*card),
    {
        let hand = &self.players[player_number as usize].cards;
        let mut i: usize = 0;
        while i < hand.len()
            invariant
                i <= hand@.len(),
                hand@ == self.cards(player_number as int),
                do_not_care_id ==> forall|k: int|
                    0 <= k < i ==> !((#[trigger] hand@[k]).card_type == card.card_type
                        && hand@[k].card_number == card.card_number),
                !do_not_care_id ==> forall|k: int| 0 <= k < i ==> #[trigger] hand@[k] != *card,
            decreases hand@.len() - i,
        {
            let c = hand[i];
            if do_not_care_id {
                if c.card_number == card.card_number && c.card_type == card.card_type {
                    return true;
                }
            } else if c == *card {
                return true;
            }
            i = i + 1;
        }
        false
    }

    /// Some action in the queue of the waiting round is an eat the rule
    /// allows.
    pub open spec fn eat_pending(&self, player_number: u8) -> bool {
        exists|i: int|
            0 <= i < self.msg_queue_wait@.len() && self.eat_ok(#[trigger] self.msg_queue_wait@[i], player_number)
    }

    /// The action at `i` of the queue of the waiting round is the first eat
    /// the rule allows.
    pub open spec fn first_eat_at(&self, player_number: u8, i: int) -> bool {
        &&& 0 <= i < self.msg_queue_wait@.len()
        &&& self.eat_ok(self.msg_queue_wait@[i], player_number)
        &&& forall|j: int| 0 <= j < i ==> !self.eat_ok(#[trigger] self.msg_queue_wait@[j], player_number)
    }

    /// A player other than the one numbered `player_number` has queued an
    /// action of the waiting round.
    pub open spec fn others_acted(&self, player_number: u8) -> bool {
        exists|i: int|
            0 <= i < self.msg_queue_wait@.len() && (#[trigger] self.msg_queue_wait@[i]).player_number
                != player_number
    }

    /// Every eat that the scan reaches (no allowed eat comes before it) and
    /// whose rule looks into a hand names a player whose number is also an
    /// index into the players.
    pub open spec fn eats_in_range(&self, player_number: u8) -> bool {
        forall|i: int|
            0 <= i < self.msg_queue_wait@.len() && self.eat_looks_at_hand(
                #[trigger] self.msg_queue_wait@[i],
                player_number,
            ) && (forall|j: int| 0 <= j < i ==> !self.eat_ok(#[trigger] self.msg_queue_wait@[j], player_number))
                ==> (self.msg_queue_wait@[i].player_number as int) < self.players@.len()
    }

    /// One look at the queue of the waiting round that follows the turn of
    /// the player numbered `player_number`: the first action of another
    /// player that is an eat the rule allows is accepted; otherwise the
    /// answer says whether any other player has acted.
    pub fn scan_wait_round(&self, player_number: u8) -> (r: WaitRoundScan)
        requires
            self.eats_in_range(player_number),
        ensures
            self.eat_pending(player_number) ==> exists|i: int|
                #[trigger] self.first_eat_at(player_number, i) && r == (WaitRoundScan::EatAccepted {
                    player_number: self.msg_queue_wait@[i].player_number,
                    card: self.msg_queue_wait@[i].action->Eat_0,
                }),
            !self.eat_pending(player_number) ==> r == (WaitRoundScan::Waiting {
                need_after_throw: self.others_acted(player_number),
            }),
    {
        let q = &self.msg_queue_wait;
        let mut need_after_throw = false;
        let mut i: usize = 0;
        while i < q.len()
            invariant
                i <= q@.len(),
                q@ == self.msg_queue_wait@,
                self.eats_in_range(player_number),
                forall|k: int| 0 <= k < i ==> !self.eat_ok(#[trigger] q@[k], player_number),
                need_after_throw == exists|k: int|
                    0 <= k < i && (#[trigger] q@[k]).player_number != player_number,
            decreases q@.len() - i,
        {
            let a = q[i];
            if a.player_number != player_number {
                need_after_throw = true;
                match a.action {
                    GameActionWaitRound::Eat(card) => {
                        let last = self.game_status.last_throw_card;
                        let n = card.card_number;
                        let is_last = match last {
                            Some(l) => l == card,
                            None => false,
                        };
                        if is_last && n > 0 && n <= 9 {
                            let t = card.card_type;
                            let below = if n > 1 {
                                self.have_card(a.player_number, &PMJCard { card_type: t, card_number: n - 1, card_id: 0 }, true)
                            } else {
                                false
                            };
                            let above = if n < 9 {
                                self.have_card(a.player_number, &PMJCard { card_type: t, card_number: n + 1, card_id: 0 }, true)
                            } else {
                                false
                            };
                            let two_below = if n == 9 {
                                self.have_card(a.player_number, &PMJCard { card_type: t, card_number: n - 2, card_id: 0 }, true)
                            } else {
                                false
                            };
                            let allowed = (n > 1 && n < 9 && below && above) || (n == 1 && above) || (n == 9
                                && below && two_below);
                            if allowed {
                                proof {
                                    assert(self.eat_ok(q@[i as int], player_number));
                                    assert(self.first_eat_at(player_number, i as int));
                                }
                                return WaitRoundScan::EatAccepted { player_number: a.player_number, card };
                            }
                        }
                    },
                    _ => {},
                }
            }
            i = i + 1;
        }
        WaitRoundScan::Waiting { need_after_throw }
    }
}


impl PositiveMahjong {
    /// The player's own round, first half, for the player at index
    /// `player_number`: once that player has queued its draw, it takes four
    /// cards from the wall and the queue of own-round actions is emptied;
    /// until then nothing changes and the caller looks again later.
    pub fn player_round_draw(&mut self, player_number: u8) -> (drew: bool)
        requires
            old(self).wf(),
            queued_draw(old(self).msg_queue_player@, player_number) ==> {
                &&& (player_number as int) < old(self).players@.len()
                &&& old(self).unuse_cards@.len() >= 4
            },
        ensures
            drew == queued_draw(old(self).msg_queue_player@, player_number),
            !drew ==> *final(self) == *old(self),
            drew ==> {
                &&& final(self).wf()
                &&& final(self).card_pool() == old(self).card_pool()
                &&& final(self).msg_queue_player@.len() == 0
                &&& final(self).msg_queue_wait@ == old(self).msg_queue_wait@
                &&& final(self).msg_queue_after@ == old(self).msg_queue_after@
                &&& final(self).game_status == old(self).game_status
                &&& final(self).is_start == old(self).is_start
                &&& final(self).unuse_cards@.len() == old(self).unuse_cards@.len() - 4
                &&& final(self).cards(player_number as int).len() == old(self).cards(player_number as int).len() + 4
                &&& final(self).cards(player_number as int).subrange(
                    0,
                    old(self).cards(player_number as int).len() as int,
                ) == old(self).cards(player_number as int)
                &&& forall|j: int|
                    0 <= j < final(self).players@.len() && j != player_number ==> #[trigger] final(self).cards(j)
                        == old(self).cards(j)
            },
    {
        let mut i: usize = 0;
        let mut found = false;
        while i < self.msg_queue_player.len()
            invariant_except_break
                !found,
            invariant
                i <= self.msg_queue_player@.len(),
                forall|k: int| 0 <= k < i ==> (#[trigger] self.msg_queue_player@[k]).player_number != player_number,
            ensures
                found == queued_draw(self.msg_queue_player@, player_number),
            decreases self.msg_queue_player@.len() - i,
        {
            if self.msg_queue_player[i].player_number == player_number {
                match self.msg_queue_player[i].action {
                    GameActionPlayerRound::DrawATile => {
                        found = true;
                        break;
                    },
                }
            }
            i = i + 1;
        }
        if found {
            self.get_one_unuse_card(player_number as usize);
            let ghost dealt = *self;
            self.msg_queue_player = Vec::new();
            proof {
                assert(self.players@ == dealt.players@);
                assert forall|j: int|
                    0 <= j < self.players@.len() && j != player_number implies #[trigger] self.cards(j)
                        == old(self).cards(j) by {
                    assert(self.cards(j) == dealt.cards(j));
                }
            }
        }
        found
    }

    /// A discard taken from the hand: the player's own round records it as
    /// the card discarded last (`record`), the waiting round does not.
    fn take_queued_throw(&mut self, player_number: u8, record: bool) -> (r: bool)
        requires
            old(self).wf(),
            queued_discard(old(self).msg_queue_after@, player_number) ==> (player_number as int)
                < old(self).players@.len(),
        ensures
            r == old(self).throw_pending(player_number),
            !r ==> *final(self) == *old(self),
            r ==> exists|i: int| #[trigger] old(self).first_throw_at(player_number, i) && final(self).threw(
                old(self),
                player_number,
                old(self).msg_queue_after@[i].action->Throw_0,
                record,
            ),
    {
        let mut i: usize = 0;
        let n = self.msg_queue_after.len();
        while i < n
            invariant
                n == self.msg_queue_after@.len(),
                i <= n,
                *self == *old(self),
                self.wf(),
                queued_discard(self.msg_queue_after@, player_number) ==> (player_number as int)
                    < self.players@.len(),
                forall|k: int| 0 <= k < i ==> !self.throw_ok(#[trigger] self.msg_queue_after@[k], player_number),
            decreases n - i,
        {
            let a = self.msg_queue_after[i];
            if a.player_number == player_number {
                match a.action {
                    GameActionAfter::Throw(card) => {
                        let p = player_number as usize;
                        if self.have_card(player_number, &card, false) {
                            proof {
                                assert(self.throw_ok(self.msg_queue_after@[i as int], player_number));
                                assert(old(self).first_throw_at(player_number, i as int));
                            }
                            let ghost before = *self;
                            let mut index: usize = 0;
                            while index < self.players[p].cards.len()
                                invariant
                                    *self == before,
                                    self.wf(),
                                    p < self.players@.len(),
                                    index <= self.cards(p as int).len(),
                                    self.cards(p as int).contains(card),
                                    forall|j: int| 0 <= j < index ==> self.cards(p as int)[j] != card,
                                ensures
                                    index < self.cards(p as int).len(),
                                    is_first_index(self.cards(p as int), card, index as int),
                                decreases self.cards(p as int).len() - index,
                            {
                                if self.players[p].cards[index] == card {
                                    break;
                                }
                                index = index + 1;
                            }
                            proof {
                                lemma_remove_first_at(self.cards(p as int), card, index as int);
                            }
                            self.players[p].cards.remove(index);
                            if record {
                                self.game_status.last_throw_card = Some(card);
                            }
                            self.msg_queue_after = Vec::new();
                            proof {
                                assert(self.cards(p as int) =~= remove_first(before.cards(p as int), card));
                                assert(self.threw(old(self), player_number, card, record));
                            }
                            return true;
                        }
                    },
                }
            }
            i = i + 1;
        }
        false
    }

    /// Some discard in the queue can be taken from the hand at index
    /// `player_number`.
    pub open spec fn throw_pending(&self, player_number: u8) -> bool {
        exists|i: int|
            0 <= i < self.msg_queue_after@.len() && self.throw_ok(#[trigger] self.msg_queue_after@[i], player_number)
    }

    /// The discard at `i` of the queue is the first one that can be taken.
    pub open spec fn first_throw_at(&self, player_number: u8, i: int) -> bool {
        &&& 0 <= i < self.msg_queue_after@.len()
        &&& self.throw_ok(self.msg_queue_after@[i], player_number)
        &&& forall|j: int| 0 <= j < i ==> !self.throw_ok(#[trigger] self.msg_queue_after@[j], player_number)
    }

    /// This state follows `old` by the player at index `player_number`
    /// discarding (the first copy of) `card`, recorded as the card
    /// discarded last when `record` holds, and the queue of discards being
    /// emptied; nothing else changed.
    pub open spec fn threw(&self, old: &Self, player_number: u8, card: PMJCard, record: bool) -> bool {
        &&& self.wf()
        &&& self.players@.len() == old.players@.len()
        &&& self.cards(player_number as int) == remove_first(old.cards(player_number as int), card)
        &&& forall|j: int|
            0 <= j < self.players@.len() && j != player_number ==> #[trigger] self.cards(j) == old.cards(j)
        &&& forall|j: int|
            0 <= j < self.players@.len() ==> {
                &&& #[trigger] self.players@[j].ip == old.players@[j].ip
                &&& self.players@[j].number == old.players@[j].number
            }
        &&& self.player_count == old.player_count
        &&& self.max_player_count == old.max_player_count
        &&& self.is_start == old.is_start
        &&& self.unuse_cards@ == old.unuse_cards@
        &&& self.msg_queue_after@.len() == 0
        &&& self.msg_queue_wait@ == old.msg_queue_wait@
        &&& self.msg_queue_player@ == old.msg_queue_player@
        &&& self.game_status.rounds_count == old.game_status.rounds_count
        &&& self.game_status.round_type == old.game_status.round_type
        &&& self.game_status.current_player_number == old.game_status.current_player_number
        &&& self.game_status.is_round_finish == old.game_status.is_round_finish
        &&& self.game_status.is_game_finish == old.game_status.is_game_finish
        &&& self.game_status.game_winner == old.game_status.game_winner
        &&& self.game_status.last_throw_card == if record {
            Some(card)
        } else {
            old.game_status.last_throw_card
        }
    }

    /// The player's own round, second half: the first discard queued by the
    /// player at index `player_number` whose card it holds is taken from its
    /// hand and becomes the card discarded last, and the queue of discards
    /// is emptied; until there is one nothing changes.
    pub fn player_round_throw(&mut self, player_number: u8) -> (r: bool)
        requires
            old(self).wf(),
            queued_discard(old(self).msg_queue_after@, player_number) ==> (player_number as int)
                < old(self).players@.len(),
        ensures
            r == old(self).throw_pending(player_number),
            !r ==> *final(self) == *old(self),
            r ==> exists|i: int| #[trigger] old(self).first_throw_at(player_number, i) && final(self).threw(
                old(self),
                player_number,
                old(self).msg_queue_after@[i].action->Throw_0,
                true,
            ),
    {
        self.take_queued_throw(player_number, true)
    }

    /// The discard that ends a waiting round in which another player acted:
    /// as in the player's own round, but the card is not recorded as the
    /// card discarded last.
    pub fn wait_round_throw(&mut self, player_number: u8) -> (r: bool)
        requires
            old(self).wf(),
            queued_discard(old(self).msg_queue_after@, player_number) ==> (player_number as int)
                < old(self).players@.len(),
        ensures
            r == old(self).throw_pending(player_number),
            !r ==> *final(self) == *old(self),
            r ==> exists|i: int| #[trigger] old(self).first_throw_at(player_number, i) && final(self).threw(
                old(self),
                player_number,
                old(self).msg_queue_after@[i].action->Throw_0,
                false,
            ),
    {
        self.take_queued_throw(player_number, false)
    }
}


// ---------------------------------------------------------------------
// The game loop
// ---------------------------------------------------------------------

/// Where the game loop stands: the index of the player whose turn it is,
/// and which of the two halves of that turn comes next (0 or 1).
#[derive(Clone, Copy, Debug, PartialEq, Eq, Structural)]
pub struct GameLoopCursor {
    pub round_player: usize,
    pub half: u8,
}

/// What the game loop does next.
#[derive(Clone, Copy, Debug, PartialEq, Eq, Structural)]
pub enum GameLoopStep {
    /// The own round of the player at this index.
    PlayerRound(u8),
    /// The waiting round after the turn of the player at this index.
    WaitRound(u8),
    /// The game is over.
    Finished,
}

/// Where the cursor moves after a step, among `n` players: to the second
/// half of the turn, or to the next player, or after the last player back
/// to the first.
pub open spec fn cursor_next(c: GameLoopCursor, n: int) -> GameLoopCursor {
    if c.half == 0 {
        GameLoopCursor { round_player: c.round_player, half: 1 }
    } else if c.round_player + 1 < n {
        GameLoopCursor { round_player: (c.round_player + 1) as usize, half: 0 }
    } else {
        GameLoopCursor { round_player: 0, half: 0 }
    }
}

/// Where the cursor stands after `steps` steps from `c`, among `n` players.
pub open spec fn cursor_after(c: GameLoopCursor, n: int, steps: nat) -> GameLoopCursor
    decreases steps,
{
    if steps == 0 {
        c
    } else {
        cursor_next(cursor_after(c, n, (steps - 1) as nat), n)
    }
}

/// A round of the game loop gives every player, in order, both halves of
/// its turn: from the start of a round, step `k` finds player `k / 2` in
/// half `k % 2`, and after two steps per player the next round starts.
pub proof fn lemma_round_visits_every_player(n: int, k: nat)
    requires
        1 <= n <= 4,
        k <= 2 * n,
    ensures
        k < 2 * n ==> cursor_after(GameLoopCursor::spec_start(), n, k) == (GameLoopCursor {
            round_player: (k / 2) as usize,
            half: (k % 2) as u8,
        }),
        k == 2 * n ==> cursor_after(GameLoopCursor::spec_start(), n, k) == GameLoopCursor::spec_start(),
    decreases k,
{
    if k > 0 {
        lemma_round_visits_every_player(n, (k - 1) as nat);
    }
}

impl GameLoopCursor {
    /// The start of a round: the first player, first half.
    pub open spec fn spec_start() -> Self {
        GameLoopCursor { round_player: 0, half: 0 }
    }

    /// The start of the loop: the first player, first half.
    pub fn new() -> (c: Self)
        ensures
            c == GameLoopCursor::spec_start(),
    {
        GameLoopCursor { round_player: 0, half: 0 }
    }
}

impl PositiveMahjong {
    /// The next step of the game loop at `cursor`: nothing once the game is
    /// over, else the round that the current kind of round calls for, for
    /// the player whose turn it is.
    pub fn game_loop_step(&self, cursor: GameLoopCursor) -> (s: GameLoopStep)
        requires
            self.wf(),
            cursor.round_player < self.players@.len(),
        ensures
            self.game_status.is_game_finish ==> s == GameLoopStep::Finished,
            !self.game_status.is_game_finish && self.game_status.round_type == GameRoundType::PlayerRoound
                ==> s == GameLoopStep::PlayerRound(cursor.round_player as u8),
            !self.game_status.is_game_finish && self.game_status.round_type == GameRoundType::WaitRound
                ==> s == GameLoopStep::WaitRound(cursor.round_player as u8),
    {
        if self.game_status.is_game_finish {
            GameLoopStep::Finished
        } else {
            let p = cursor.round_player as u8;
            match self.game_status.round_type {
                GameRoundType::PlayerRoound => GameLoopStep::PlayerRound(p),
                GameRoundType::WaitRound => GameLoopStep::WaitRound(p),
            }
        }
    }

    /// After a step of the game loop ran: the kind of round switches, and
    /// the cursor moves to the second half of the turn, or to the next
    /// player; after the last player a new round begins and is counted,
    /// unless the game is over.
    pub fn game_loop_advance(&mut self, cursor: GameLoopCursor) -> (next: GameLoopCursor)
        requires
            old(self).wf(),
            cursor.round_player < old(self).players@.len(),
            cursor.half < 2,
            cursor.half == 1 && cursor.round_player + 1 == old(self).players@.len()
                && !old(self).game_status.is_game_finish ==> old(self).game_status.rounds_count < u16::MAX,
        ensures
            final(self).game_status.round_type != old(self).game_status.round_type,
            final(self).players == old(self).players,
            final(self).player_count == old(self).player_count,
            final(self).max_player_count == old(self).max_player_count,
            final(self).is_start == old(self).is_start,
            final(self).unuse_cards == old(self).unuse_cards,
            final(self).msg_queue_wait == old(self).msg_queue_wait,
            final(self).msg_queue_player == old(self).msg_queue_player,
            final(self).msg_queue_after == old(self).msg_queue_after,
            final(self).game_status.current_player_number == old(self).game_status.current_player_number,
            final(self).game_status.is_round_finish == old(self).game_status.is_round_finish,
            final(self).game_status.is_game_finish == old(self).game_status.is_game_finish,
            final(self).game_status.last_throw_card == old(self).game_status.last_throw_card,
            final(self).game_status.game_winner == old(self).game_status.game_winner,
            next == cursor_next(cursor, old(self).players@.len() as int),
            final(self).game_status.rounds_count == old(self).game_status.rounds_count + if cursor.half == 1
                && cursor.round_player + 1 == old(self).players@.len()
                && !old(self).game_status.is_game_finish {
                1int
            } else {
                0int
            },
    {
        self.change_game_round_type();
        if cursor.half == 0 {
            GameLoopCursor { round_player: cursor.round_player, half: 1 }
        } else if cursor.round_player + 1 < self.players.len() {
            GameLoopCursor { round_player: cursor.round_player + 1, half: 0 }
        } else {
            if !self.game_status.is_game_finish {
                self.game_status.rounds_count = self.game_status.rounds_count + 1;
            }
            GameLoopCursor { round_player: 0, half: 0 }
        }
    }
}

} // verus!
