//! The Base game: seating, the start of the game and the turn-by-turn
//! decisions of the game loop.
//!
//! Reading and writing the players' connections is the caller's part: the
//! functions here take the message a player sent and return the messages
//! to send, each with the number of the player it goes to.

use vstd::prelude::*;

use crate::pmj_shared::{
    connect_answer, connect_response, is_our_app, not_our_app_reply, not_our_app_text,
    ClientConnectRequestType, FirstMsgReply, GameModes, PROJECT_NAME,
};

use crate::base_shared::{
    full_deck, lemma_full_deck, new_deck, ClientMessageType, ClientMessageTypeKinds, GameTurnTypes, PMJCard,
    PMJCardType, PMJPlayer, ServerMessageType, ServerMessageTypeKinds,
};
use crate::random;
use crate::table::{
    copy_cards, lemma_fresh_table_pool, next_turn, remove_first, spec_next_turn, GameTable, PlayerIp,
    STARTING_HAND_SIZE,
};

verus! {

/// The state of a Base room.
#[derive(Debug)]
pub struct PositiveMahjong {
    pub table: GameTable<PMJCard, Vec<PMJCard>>,
}

/// Whose turn it is, and what that player is to do next.
#[derive(Clone, Copy, Debug, PartialEq, Eq, Structural)]
pub struct TurnState {
    pub current_turn_player_id: u8,
    pub current_action: GameTurnTypes,
}

/// What became of a message a player sent during its discard.
#[derive(Debug)]
pub enum MoveOutcome {
    /// The card left the hand; the messages to send, each with the number
    /// of the player it goes to: first the thrower's new hand, then the
    /// notice of the discard to every other player.
    Thrown(Vec<(u8, ServerMessageType)>),
    /// The hand does not hold that card: the server waits for another move.
    NotInHand,
    /// A message that is no game action, which the game loop does not read.
    Unsupported,
}

/// `m` is a message of kind `kind` with no `info_` field filled.
pub open spec fn is_bare_msg(m: ServerMessageType, kind: ServerMessageTypeKinds) -> bool {
    &&& m.msg_type == kind
    &&& m.info_change_turn is None
    &&& m.info_hand_card_change is None
    &&& m.info_get_card is None
    &&& m.info_player_action is None
    &&& m.info_error is None
}

/// `m` tells its receiver that its hand is now `hand`.
pub open spec fn is_hand_change_msg(m: ServerMessageType, hand: Seq<PMJCard>) -> bool {
    &&& m.msg_type == ServerMessageTypeKinds::HandCardChange
    &&& m.info_change_turn is None
    &&& m.info_get_card is None
    &&& m.info_player_action is None
    &&& m.info_error is None
    &&& m.info_hand_card_change matches Some(h)
    &&& h@ == hand
}

/// `m` tells its receiver that it drew `c`.
pub open spec fn is_get_card_msg(m: ServerMessageType, c: PMJCard) -> bool {
    &&& m.msg_type == ServerMessageTypeKinds::GetCard
    &&& m.info_get_card == Some(c)
    &&& m.info_change_turn is None
    &&& m.info_hand_card_change is None
    &&& m.info_player_action is None
    &&& m.info_error is None
}

/// `m` tells its receiver that the player numbered `player` did `action`.
pub open spec fn is_player_action_msg(m: ServerMessageType, player: u8, action: GameTurnTypes) -> bool {
    &&& m.msg_type == ServerMessageTypeKinds::PlayerAction
    &&& m.info_player_action == Some((player, action))
    &&& m.info_change_turn is None
    &&& m.info_hand_card_change is None
    &&& m.info_get_card is None
    &&& m.info_error is None
}

/// `m` announces that it is the turn of player `player`.
pub open spec fn is_change_turn_msg(m: ServerMessageType, player: u8) -> bool {
    &&& m.msg_type == ServerMessageTypeKinds::ChangedTurn
    &&& m.info_change_turn == Some(player)
    &&& m.info_hand_card_change is None
    &&& m.info_get_card is None
    &&& m.info_player_action is None
    &&& m.info_error is None
}

fn bare_msg(kind: ServerMessageTypeKinds) -> (m: ServerMessageType)
    ensures
        is_bare_msg(m, kind),
{
    let mut m = ServerMessageType::default();
    m.msg_type = kind;
    m
}

fn hand_change_msg(hand: Vec<PMJCard>) -> (m: ServerMessageType)
    ensures
        is_hand_change_msg(m, hand@),
{
    let mut m = bare_msg(ServerMessageTypeKinds::HandCardChange);
    m.info_hand_card_change = Some(hand);
    m
}

fn get_card_msg(c: PMJCard) -> (m: ServerMessageType)
    ensures
        is_get_card_msg(m, c),
{
    let mut m = bare_msg(ServerMessageTypeKinds::GetCard);
    m.info_get_card = Some(c);
    m
}

fn player_action_msg(player: u8, action: GameTurnTypes) -> (m: ServerMessageType)
    ensures
        is_player_action_msg(m, player, action),
{
    let mut m = bare_msg(ServerMessageTypeKinds::PlayerAction);
    m.info_player_action = Some((player, action));
    m
}

/// `p` and `q` carry the same address, number, hand and melds.
pub open spec fn same_player(p: PMJPlayer, q: PMJPlayer) -> bool {
    &&& p.player_ip_addr == q.player_ip_addr
    &&& p.player_id == q.player_id
    &&& p.player_hand_cards@ == q.player_hand_cards@
    &&& p.player_used_cards@.len() == q.player_used_cards@.len()
    &&& forall|k: int|
        0 <= k < p.player_used_cards@.len() ==> (#[trigger] p.player_used_cards@[k])@
            == q.player_used_cards@[k]@
}

fn copy_player(p: &PMJPlayer) -> (q: PMJPlayer)
    ensures
        same_player(*p, q),
{
    let mut used: Vec<Vec<PMJCard>> = Vec::new();
    let mut i: usize = 0;
    while i < p.player_used_cards.len()
        invariant
            i <= p.player_used_cards@.len(),
            used@.len() == i,
            forall|k: int| 0 <= k < i ==> (#[trigger] used@[k])@ == p.player_used_cards@[k]@,
        decreases p.player_used_cards@.len() - i,
    {
        used.push(copy_cards(&p.player_used_cards[i]));
        i = i + 1;
    }
    PMJPlayer {
        player_ip_addr: p.player_ip_addr,
        player_id: p.player_id,
        player_hand_cards: copy_cards(&p.player_hand_cards),
        player_used_cards: used,
    }
}

impl PositiveMahjong {
    pub open spec fn wf(&self) -> bool {
        self.table.wf()
    }

    /// An empty room over a new deck.
    pub fn new() -> (r: Self)
        ensures
            r.wf(),
            r.table.players@.len() == 0,
            !r.table.is_game_start,
            !r.table.is_game_finish,
            r.table.unused_card@ == full_deck(),
    {
        PositiveMahjong { table: GameTable::new_table(new_deck()) }
    }

    /// A copy of every seated player.
    pub fn get_players_info(&self) -> (r: Vec<PMJPlayer>)
        ensures
            r@.len() == self.table.players@.len(),
            forall|i: int|
                0 <= i < r@.len() ==> same_player(#[trigger] r@[i], self.table.players@[i]),
    {
        let mut r: Vec<PMJPlayer> = Vec::new();
        let mut i: usize = 0;
        while i < self.table.players.len()
            invariant
                i <= self.table.players@.len(),
                r@.len() == i,
                forall|k: int| 0 <= k < i ==> same_player(#[trigger] r@[k], self.table.players@[k]),
            decreases self.table.players@.len() - i,
        {
            r.push(copy_player(&self.table.players[i]));
            i = i + 1;
        }
        r
    }

    pub fn is_game_start(&self) -> (r: bool)
        ensures
            r == self.table.is_game_start,
    {
        self.table.is_game_start
    }

    pub fn is_game_finish(&self) -> (r: bool)
        ensures
            r == self.table.is_game_finish,
    {
        self.table.is_game_finish
    }

    /// Seats a player that connected from `player_ip_addr`: its number, or
    /// `None` when the room is full.
    pub fn add_player(&mut self, player_ip_addr: PlayerIp) -> (r: Option<u8>)
        requires
            old(self).wf(),
        ensures
            r == old(self).table.seat_answer(),
            final(self).table.after_seating(&old(self).table, player_ip_addr),
    {
        self.table.add_player(player_ip_addr)
    }

    /// The first message `req` of a client that connected from
    /// `client_ip`: a client of another application is told so and nothing
    /// changes; a client of this game is seated when a seat is free, and
    /// told its number or that the room is full.
    pub fn answer_first_msg(&mut self, client_ip: PlayerIp, req: &ClientConnectRequestType) -> (r: FirstMsgReply)
        requires
            old(self).wf(),
        ensures
            final(self).wf(),
            req.app_name@ != PROJECT_NAME@ ==> {
                &&& r matches FirstMsgReply::NotOurApp(t) && t@ == not_our_app_text()
                &&& *final(self) == *old(self)
            },
            req.app_name@ == PROJECT_NAME@ ==> {
                &&& r == FirstMsgReply::Connect(connect_answer(GameModes::Base, old(self).table.seat_answer()))
                &&& final(self).table.after_seating(&old(self).table, client_ip)
            },
    {
        if !is_our_app(req) {
            FirstMsgReply::NotOurApp(not_our_app_reply())
        } else {
            let player_id = self.add_player(client_ip);
            FirstMsgReply::Connect(connect_response(GameModes::Base, player_id))
        }
    }

    /// Starts the game: deals sixteen cards to every player and returns the
    /// messages to send, first the announcement to every player, then to
    /// every player its new hand.
    pub fn start_game(&mut self) -> (msgs: Vec<(u8, ServerMessageType)>)
        requires
            old(self).wf(),
            old(self).table.unused_card@.len() >= STARTING_HAND_SIZE * old(self).table.players@.len(),
        ensures
            final(self).wf(),
            final(self).table.same_seats(&old(self).table),
            final(self).table.is_game_start,
            final(self).table.is_game_finish == old(self).table.is_game_finish,
            final(self).table.card_pool() == old(self).table.card_pool(),
            final(self).table.unused_card@.len() == old(self).table.unused_card@.len()
                - STARTING_HAND_SIZE * old(self).table.players@.len(),
            final(self).table.hands_grown_by(&old(self).table, STARTING_HAND_SIZE as int),
            msgs@.len() == 2 * final(self).table.players@.len(),
            forall|i: int|
                0 <= i < final(self).table.players@.len() ==> {
                    &&& (#[trigger] msgs@[i]).0 == i + 1
                    &&& is_bare_msg(msgs@[i].1, ServerMessageTypeKinds::GameStart)
                },
            forall|i: int|
                0 <= i < final(self).table.players@.len() ==> {
                    &&& (#[trigger] msgs@[final(self).table.players@.len() + i]).0 == i + 1
                    &&& is_hand_change_msg(msgs@[final(self).table.players@.len() + i].1, final(self).table.hand(i))
                },
    {
        let mut msgs: Vec<(u8, ServerMessageType)> = Vec::new();
        let n = self.table.players.len();
        let mut i: usize = 0;
        while i < n
            invariant
                i <= n,
                n == self.table.players@.len(),
                self.wf(),
                msgs@.len() == i,
                forall|k: int| 0 <= k < i ==> {
                    &&& (#[trigger] msgs@[k]).0 == k + 1
                    &&& is_bare_msg(msgs@[k].1, ServerMessageTypeKinds::GameStart)
                },
            decreases n - i,
        {
            msgs.push((self.table.players[i].player_id, bare_msg(ServerMessageTypeKinds::GameStart)));
            i = i + 1;
        }
        self.table.deal_starting_hands();
        let mut i: usize = 0;
        while i < n
            invariant
                i <= n,
                n == self.table.players@.len(),
                self.wf(),
                msgs@.len() == n + i,
                forall|k: int| 0 <= k < n ==> {
                    &&& (#[trigger] msgs@[k]).0 == k + 1
                    &&& is_bare_msg(msgs@[k].1, ServerMessageTypeKinds::GameStart)
                },
                forall|k: int| 0 <= k < i ==> {
                    &&& (#[trigger] msgs@[n + k]).0 == k + 1
                    &&& is_hand_change_msg(msgs@[n + k].1, self.table.hand(k))
                },
            decreases n - i,
        {
            let hand = copy_cards(&self.table.players[i].player_hand_cards);
            msgs.push((self.table.players[i].player_id, hand_change_msg(hand)));
            i = i + 1;
        }
        msgs
    }

    /// Where the game loop begins: the wall is shuffled again and the first
    /// player is to draw.
    pub fn begin_game_loop(&mut self) -> (t: TurnState)
        requires
            old(self).wf(),
        ensures
            final(self).wf(),
            t == (TurnState { current_turn_player_id: 1, current_action: GameTurnTypes::GetCard }),
            final(self).table.players@ == old(self).table.players@,
            final(self).table.is_game_start == old(self).table.is_game_start,
            final(self).table.is_game_finish == old(self).table.is_game_finish,
            final(self).table.unused_card@.to_multiset() == old(self).table.unused_card@.to_multiset(),
            final(self).table.unused_card@.len() == old(self).table.unused_card@.len(),
    {
        random::shuffle_cards(&mut self.table.unused_card);
        TurnState { current_turn_player_id: 1, current_action: GameTurnTypes::GetCard }
    }

    /// The message that opens every turn, sent to every player.
    pub fn turn_message(turn: &TurnState) -> (m: ServerMessageType)
        ensures
            is_change_turn_msg(m, turn.current_turn_player_id),
    {
        let mut m = bare_msg(ServerMessageTypeKinds::ChangedTurn);
        m.info_change_turn = Some(turn.current_turn_player_id);
        m
    }

    /// The draw: the player whose turn it is draws a random card that is not
    /// a flower and is then to discard; the result is the message telling it
    /// which card it drew. `None` when the wall holds no such card; then
    /// nothing changes.
    pub fn play_get_card(&mut self, turn: &mut TurnState) -> (r: Option<(u8, ServerMessageType)>)
        requires
            old(self).wf(),
            old(turn).current_action == GameTurnTypes::GetCard,
            1 <= old(turn).current_turn_player_id <= old(self).table.players@.len(),
        ensures
            final(self).wf(),
            final(self).table.same_seats(&old(self).table),
            final(self).table.card_pool() == old(self).table.card_pool(),
            r is Some <==> old(self).table.wall_has_non_flower(),
            r is None ==> {
                &&& *final(turn) == *old(turn)
                &&& final(self).table.unused_card@ == old(self).table.unused_card@
                &&& forall|j: int|
                    0 <= j < final(self).table.players@.len() ==> #[trigger] final(self).table.hand(j)
                        == old(self).table.hand(j)
            },
            r matches Some(out) ==> {
                let seat = old(turn).current_turn_player_id - 1;
                let c = final(self).table.hand(seat).last();
                &&& out.0 == old(turn).current_turn_player_id
                &&& is_get_card_msg(out.1, c)
                &&& c.card_type != PMJCardType::Flower
                &&& final(self).table.unused_card@ == remove_first(old(self).table.unused_card@, c)
                &&& final(self).table.hand(seat) == old(self).table.hand(seat).push(c)
                &&& forall|j: int|
                    0 <= j < final(self).table.players@.len() && j != seat ==> #[trigger] final(self).table.hand(j) == old(self).table.hand(j)
                &&& *final(turn) == (TurnState {
                    current_turn_player_id: old(turn).current_turn_player_id,
                    current_action: GameTurnTypes::ThrowCard,
                })
            },
    {
        let seat = (turn.current_turn_player_id - 1) as usize;
        match self.table.draw_non_flower(seat) {
            Some(card) => {
                turn.current_action = GameTurnTypes::ThrowCard;
                Some((turn.current_turn_player_id, get_card_msg(card)))
            },
            None => None,
        }
    }

    /// The discard: the player whose turn it is sent `msg`, a game action
    /// that discards a card. A discard of a card it holds takes that card
    /// out of its hand, tells it its new hand, tells every other player, in
    /// seat order, that it discarded, and passes the turn to the next
    /// player, who is to draw; a discard of a card it does not hold changes
    /// nothing, and the server waits for another message. A game action
    /// must name the discard and its card.
    pub fn play_client_msg(&mut self, turn: &mut TurnState, msg: ClientMessageType) -> (r: MoveOutcome)
        requires
            old(self).wf(),
            old(turn).current_action == GameTurnTypes::ThrowCard,
            1 <= old(turn).current_turn_player_id <= old(self).table.players@.len(),
            msg.msg_type == ClientMessageTypeKinds::GameAction ==> msg.info_game_action == Some(GameTurnTypes::ThrowCard)
                && msg.info_throw_card is Some,
        ensures
            final(self).wf(),
            final(self).table.same_seats(&old(self).table),
            final(self).table.unused_card@ == old(self).table.unused_card@,
            ({
                let seat = old(turn).current_turn_player_id - 1;
                let n = old(self).table.players@.len();
                let cur = old(turn).current_turn_player_id;
                if msg.msg_type == ClientMessageTypeKinds::GameAction {
                    let c = msg.info_throw_card->0;
                    if old(self).table.hand(seat).contains(c) {
                        &&& r matches MoveOutcome::Thrown(out)
                        &&& out@.len() == n
                        &&& out@[0].0 == cur
                        &&& is_hand_change_msg(out@[0].1, final(self).table.hand(seat))
                        &&& forall|k: int|
                            1 <= k < n ==> {
                                &&& (#[trigger] out@[k]).0 == if k < cur { k } else { k + 1 }
                                &&& is_player_action_msg(out@[k].1, cur, GameTurnTypes::ThrowCard)
                            }
                        &&& final(self).table.hand(seat) == remove_first(old(self).table.hand(seat), c)
                        &&& final(self).table.card_pool().insert(c) == old(self).table.card_pool()
                        &&& forall|j: int|
                            0 <= j < n && j != seat ==> #[trigger] final(self).table.hand(j) == old(self).table.hand(j)
                        &&& *final(turn) == (TurnState {
                            current_turn_player_id: spec_next_turn(cur, n as u8),
                            current_action: GameTurnTypes::GetCard,
                        })
                    } else {
                        &&& r is NotInHand
                        &&& *final(turn) == *old(turn)
                        &&& forall|j: int| 0 <= j < n ==> #[trigger] final(self).table.hand(j) == old(self).table.hand(j)
                    }
                } else {
                    &&& r is Unsupported
                    &&& *final(turn) == *old(turn)
                    &&& forall|j: int| 0 <= j < n ==> #[trigger] final(self).table.hand(j) == old(self).table.hand(j)
                }
            }),
    {
        let seat = (turn.current_turn_player_id - 1) as usize;
        if msg.msg_type != ClientMessageTypeKinds::GameAction {
            return MoveOutcome::Unsupported;
        }
        match msg.info_throw_card {
            Some(card) => {
                if self.table.throw_card(seat, card) {
                    let n = self.table.players.len();
                    let cur = turn.current_turn_player_id;
                    let hand = copy_cards(&self.table.players[seat].player_hand_cards);
                    let mut out: Vec<(u8, ServerMessageType)> = Vec::new();
                    out.push((cur, hand_change_msg(hand)));
                    let mut j: usize = 0;
                    while j < n
                        invariant
                            j <= n,
                            n == self.table.players@.len(),
                            self.wf(),
                            1 <= cur <= n,
                            out@.len() == 1 + j - (if cur <= j { 1int } else { 0int }),
                            out@[0].0 == cur,
                            is_hand_change_msg(out@[0].1, self.table.hand(seat as int)),
                            forall|k: int|
                                1 <= k < out@.len() ==> {
                                    &&& (#[trigger] out@[k]).0 == if k < cur { k } else { k + 1 }
                                    &&& is_player_action_msg(out@[k].1, cur, GameTurnTypes::ThrowCard)
                                },
                        decreases n - j,
                    {
                        let id = self.table.players[j].player_id;
                        if id != cur {
                            out.push((id, player_action_msg(cur, GameTurnTypes::ThrowCard)));
                        }
                        j = j + 1;
                    }
                    turn.current_turn_player_id = next_turn(turn.current_turn_player_id, n as u8);
                    turn.current_action = GameTurnTypes::GetCard;
                    MoveOutcome::Thrown(out)
                } else {
                    MoveOutcome::NotInHand
                }
            },
            None => {
                proof {
                    assert(false);
                }
                MoveOutcome::Unsupported
            },
        }
    }
}

impl Default for PositiveMahjong {
    /// An empty room over a new deck, as `new` makes it.
    fn default() -> (r: Self)
        ensures
            r.wf(),
            r.table.players@.len() == 0,
            !r.table.is_game_start,
            !r.table.is_game_finish,
            r.table.unused_card@ == full_deck(),
    {
        PositiveMahjong::new()
    }
}

/// Seating and dealing keep every tile in play exactly once: when the wall
/// of a room is a new deck and its players hold no cards, any later room
/// with the same cards on the table (as seating the players and starting
/// the game leave it) holds each tile of a new deck once, 144 in all, and
/// nothing else.
pub proof fn lemma_deal_keeps_every_tile(before: PositiveMahjong, after: PositiveMahjong)
    requires
        before.table.unused_card@ == full_deck(),
        forall|i: int| 0 <= i < before.table.players@.len() ==> #[trigger] before.table.hand(i).len() == 0,
        after.table.card_pool() == before.table.card_pool(),
    ensures
        forall|c: PMJCard| #[trigger] after.table.card_pool().count(c) == if full_deck().contains(c) {
            1nat
        } else {
            0nat
        },
        after.table.card_pool().len() == 144,
{
    lemma_full_deck();
    assert forall|i: int| 0 <= i < before.table.players@.len() implies (
    #[trigger] before.table.players@[i]).player_hand_cards@.len() == 0 by {
        assert(before.table.hand(i).len() == 0);
    }
    lemma_fresh_table_pool(before.table, full_deck());
}

} // verus!
