//! The V2Better game: seating, the start of the game and the turn-by-turn
//! decisions of the game loop, plus the bookkeeping of the tasks that the
//! server hands to its messaging thread.
//!
//! Reading and writing the players' connections is the caller's part: the
//! functions here take the message a player sent and return the messages
//! to send, each with the number of the player it goes to.

use vstd::prelude::*;

use crate::pmj_shared::{
    connect_answer, connect_response, is_our_app, not_our_app_reply, not_our_app_text,
    ClientConnectRequestType, FirstMsgReply, GameModes, PROJECT_NAME,
};

use crate::random;
use crate::table::{
    copy_cards, lemma_fresh_table_pool, next_turn, remove_first, spec_next_turn, GameTable,
    PlayerIp, STARTING_HAND_SIZE,
};
use crate::v2_better_shared::{
    change_turn_msg, full_deck, is_valid_tile, lemma_full_deck, game_start_msg, get_card_msg, hand_change_msg, is_change_turn_msg,
    is_game_start_msg, is_get_card_msg, is_hand_change_msg, is_player_action_msg, new_deck,
    player_action_msg, ClientGameMsg, GameActions, PMJCard, PMJPlayer, ServerMessage,
};

verus! {

/// The state of a V2Better room: the table, and the tasks handed to the
/// messaging thread.
#[derive(Debug)]
pub struct PositiveMahjong {
    pub table: GameTable<PMJCard, (Vec<PMJCard>, GameActions)>,
    pub msg_mgr: MessageMgr,
}

/// Whose turn it is, and what that player is to do next.
#[derive(Clone, Copy, Debug, PartialEq, Eq, Structural)]
pub struct TurnState {
    pub current_turn_player_id: u8,
    pub current_action: GameActions,
}

/// What became of a move a player sent during its discard.
#[derive(Debug)]
pub enum MoveOutcome {
    /// The card left the hand; these messages go out, each to the player
    /// numbered with it.
    Thrown(Vec<(u8, ServerMessage)>),
    /// The hand does not hold that card: the server waits for another move.
    NotInHand,
    /// A move other than a discard, which the server does not handle.
    Unsupported,
}

/// `p` and `q` carry the same address, number, hand and melds.
pub open spec fn same_player(p: PMJPlayer, q: PMJPlayer) -> bool {
    &&& p.player_ip_addr == q.player_ip_addr
    &&& p.player_id == q.player_id
    &&& p.player_hand_cards@ == q.player_hand_cards@
    &&& p.player_used_cards@.len() == q.player_used_cards@.len()
    &&& forall|k: int|
        0 <= k < p.player_used_cards@.len() ==> {
            &&& (#[trigger] p.player_used_cards@[k]).0@ == q.player_used_cards@[k].0@
            &&& p.player_used_cards@[k].1 == q.player_used_cards@[k].1
        }
}

/// The number of the `k`-th player other than `current`, among players
/// numbered from 1.
pub open spec fn other_player(k: int, current: int) -> int {
    if k + 1 < current {
        k + 1
    } else {
        k + 2
    }
}

fn copy_player(p: &PMJPlayer) -> (q: PMJPlayer)
    ensures
        same_player(*p, q),
{
    let mut used: Vec<(Vec<PMJCard>, GameActions)> = Vec::new();
    let mut i: usize = 0;
    while i < p.player_used_cards.len()
        invariant
            i <= p.player_used_cards@.len(),
            used@.len() == i,
            forall|k: int|
                0 <= k < i ==> {
                    &&& (#[trigger] used@[k]).0@ == p.player_used_cards@[k].0@
                    &&& used@[k].1 == p.player_used_cards@[k].1
                },
        decreases p.player_used_cards@.len() - i,
    {
        let meld = copy_cards(&p.player_used_cards[i].0);
        let action = p.player_used_cards[i].1;
        used.push((meld, action));
        i = i + 1;
    }
    PMJPlayer {
        player_ip_addr: p.player_ip_addr,
        player_id: p.player_id,
        player_hand_cards: copy_cards(&p.player_hand_cards),
        player_used_cards: used,
    }
}

impl PositiveMahjong {
    pub open spec fn wf(&self) -> bool {
        &&& self.table.wf()
        &&& self.msg_mgr.wf()
    }

    /// An empty room over a new deck, whose messaging thread serves nobody
    /// yet.
    pub fn new() -> (r: Self)
        ensures
            r.wf(),
            r.table.players@.len() == 0,
            !r.table.is_game_start,
            !r.table.is_game_finish,
            r.table.unused_card@ == full_deck(),
            r.msg_mgr.players@.len() == 0,
            r.msg_mgr.tasks@.len() == 0,
            r.msg_mgr.last_task_id == 0,
    {
        PositiveMahjong { table: GameTable::new_table(new_deck()), msg_mgr: MessageMgr::new(Vec::new()) }
    }

    /// The messaging thread has just been handed the players of the table:
    /// its newest task, numbered one past the last before, carries a copy
    /// of them, and it serves them.
    pub open spec fn handed_players(&self, old: &Self) -> bool {
        &&& self.msg_mgr.last_task_id == old.msg_mgr.last_task_id + 1
        &&& self.msg_mgr.tasks@.len() == old.msg_mgr.tasks@.len() + 1
        &&& self.msg_mgr.tasks@.drop_last() == old.msg_mgr.tasks@
        &&& self.msg_mgr.tasks@.last().0 == self.msg_mgr.last_task_id
        &&& self.msg_mgr.tasks@.last().1.msg_kind == MsgMgrTaskKinds::AddPlayer
        &&& self.msg_mgr.tasks@.last().1.kind_add_player matches Some(ps) && {
            &&& ps@.len() == self.table.players@.len()
            &&& forall|i: int|
                0 <= i < ps@.len() ==> same_player(#[trigger] ps@[i], self.table.players@[i])
        }
        &&& self.msg_mgr.players@.len() == self.table.players@.len()
        &&& forall|i: int|
            0 <= i < self.msg_mgr.players@.len() ==> same_player(
                #[trigger] self.msg_mgr.players@[i],
                self.table.players@[i],
            )
    }

    /// A copy of every seated player.
    pub fn get_players_info(&self) -> (r: Vec<PMJPlayer>)
        ensures
            r@.len() == self.table.players@.len(),
            forall|i: int|
                0 <= i < r@.len() ==> same_player(#[trigger] r@[i], self.table.players@[i]),
    {
        let mut r: Vec<PMJPlayer> = Vec::new();
        let mut i: usize = 0;
        while i < self.table.players.len()
            invariant
                i <= self.table.players@.len(),
                r@.len() == i,
                forall|k: int| 0 <= k < i ==> same_player(#[trigger] r@[k], self.table.players@[k]),
            decreases self.table.players@.len() - i,
        {
            let p = copy_player(&self.table.players[i]);
            r.push(p);
            i = i + 1;
        }
        r
    }

    pub fn is_game_start(&self) -> (r: bool)
        ensures
            r == self.table.is_game_start,
    {
        self.table.is_game_start
    }

    pub fn is_game_finish(&self) -> (r: bool)
        ensures
            r == self.table.is_game_finish,
    {
        self.table.is_game_finish
    }

    /// Seats a player that connected from `player_ip_addr`: its number, or
    /// `None` when the room is full.
    pub fn add_player(&mut self, player_ip_addr: PlayerIp) -> (r: Option<u8>)
        requires
            old(self).wf(),
            old(self).table.players@.len() < 4 ==> old(self).msg_mgr.last_task_id < u64::MAX,
        ensures
            final(self).wf(),
            r == old(self).table.seat_answer(),
            final(self).table.after_seating(&old(self).table, player_ip_addr),
            r is Some ==> final(self).handed_players(old(self)),
            r is None ==> final(self).msg_mgr == old(self).msg_mgr,
    {
        let r = self.table.add_player(player_ip_addr);
        if r.is_some() {
            let players = self.get_players_info();
            self.msg_mgr.task_add_player(players);
            proof {
                assert forall|i: int| 0 <= i < self.msg_mgr.players@.len() implies same_player(
                    #[trigger] self.msg_mgr.players@[i],
                    self.table.players@[i],
                ) by {
                    assert(same_player(self.msg_mgr.players@[i], players@[i]));
                }
            }
        }
        r
    }

    /// The first message `req` of a client that connected from
    /// `client_ip`: a client of another application is told so and nothing
    /// changes; a client of this game is seated when a seat is free, and
    /// told its number or that the room is full.
    pub fn answer_first_msg(&mut self, client_ip: PlayerIp, req: &ClientConnectRequestType) -> (r: FirstMsgReply)
        requires
            old(self).wf(),
            old(self).table.players@.len() < 4 ==> old(self).msg_mgr.last_task_id < u64::MAX,
        ensures
            final(self).wf(),
            req.app_name@ != PROJECT_NAME@ ==> {
                &&& r matches FirstMsgReply::NotOurApp(t) && t@ == not_our_app_text()
                &&& *final(self) == *old(self)
            },
            req.app_name@ == PROJECT_NAME@ ==> {
                &&& r == FirstMsgReply::Connect(connect_answer(GameModes::V2Better, old(self).table.seat_answer()))
                &&& final(self).table.after_seating(&old(self).table, client_ip)
                &&& old(self).table.seat_answer() is Some ==> final(self).handed_players(old(self))
            },
    {
        if !is_our_app(req) {
            FirstMsgReply::NotOurApp(not_our_app_reply())
        } else {
            let player_id = self.add_player(client_ip);
            FirstMsgReply::Connect(connect_response(GameModes::V2Better, player_id))
        }
    }

    /// Starts the game: deals sixteen cards to every player and returns the
    /// messages to send, first the announcement to every player, then to
    /// every player its new hand.
    pub fn start_game(&mut self) -> (msgs: Vec<(u8, ServerMessage)>)
        requires
            old(self).wf(),
            old(self).table.unused_card@.len() >= STARTING_HAND_SIZE * old(self).table.players@.len(),
        ensures
            final(self).wf(),
            final(self).table.same_seats(&old(self).table),
            final(self).table.is_game_start,
            final(self).table.is_game_finish == old(self).table.is_game_finish,
            final(self).table.card_pool() == old(self).table.card_pool(),
            final(self).table.unused_card@.len() == old(self).table.unused_card@.len()
                - STARTING_HAND_SIZE * old(self).table.players@.len(),
            final(self).table.hands_grown_by(&old(self).table, STARTING_HAND_SIZE as int),
            msgs@.len() == 2 * final(self).table.players@.len(),
            forall|i: int|
                0 <= i < final(self).table.players@.len() ==> {
                    &&& (#[trigger] msgs@[i]).0 == i + 1
                    &&& is_game_start_msg(msgs@[i].1)
                },
            forall|i: int|
                0 <= i < final(self).table.players@.len() ==> {
                    &&& (#[trigger] msgs@[final(self).table.players@.len() + i]).0 == i + 1
                    &&& is_hand_change_msg(msgs@[final(self).table.players@.len() + i].1, final(self).table.hand(i))
                },
    {
        let mut msgs: Vec<(u8, ServerMessage)> = Vec::new();
        let n = self.table.players.len();
        let mut i: usize = 0;
        while i < n
            invariant
                i <= n,
                n == self.table.players@.len(),
                self.wf(),
                msgs@.len() == i,
                forall|k: int| 0 <= k < i ==> {
                    &&& (#[trigger] msgs@[k]).0 == k + 1
                    &&& is_game_start_msg(msgs@[k].1)
                },
            decreases n - i,
        {
            msgs.push((self.table.players[i].player_id, game_start_msg()));
            i = i + 1;
        }
        self.table.deal_starting_hands();
        let mut i: usize = 0;
        while i < n
            invariant
                i <= n,
                n == self.table.players@.len(),
                self.wf(),
                msgs@.len() == n + i,
                forall|k: int| 0 <= k < n ==> {
                    &&& (#[trigger] msgs@[k]).0 == k + 1
                    &&& is_game_start_msg(msgs@[k].1)
                },
                forall|k: int| 0 <= k < i ==> {
                    &&& (#[trigger] msgs@[n + k]).0 == k + 1
                    &&& is_hand_change_msg(msgs@[n + k].1, self.table.hand(k))
                },
            decreases n - i,
        {
            let hand = copy_cards(&self.table.players[i].player_hand_cards);
            msgs.push((self.table.players[i].player_id, hand_change_msg(hand)));
            i = i + 1;
        }
        msgs
    }

    /// Where the game loop begins: the wall is shuffled again and the first
    /// player is to draw.
    pub fn begin_game_loop(&mut self) -> (t: TurnState)
        requires
            old(self).wf(),
        ensures
            final(self).wf(),
            t == (TurnState { current_turn_player_id: 1, current_action: GameActions::GetCard }),
            final(self).table.players@ == old(self).table.players@,
            final(self).table.is_game_start == old(self).table.is_game_start,
            final(self).table.is_game_finish == old(self).table.is_game_finish,
            final(self).table.unused_card@.to_multiset() == old(self).table.unused_card@.to_multiset(),
            final(self).table.unused_card@.len() == old(self).table.unused_card@.len(),
    {
        random::shuffle_cards(&mut self.table.unused_card);
        TurnState { current_turn_player_id: 1, current_action: GameActions::GetCard }
    }

    /// The message that opens every turn, sent to every player.
    pub fn turn_message(turn: &TurnState) -> (m: ServerMessage)
        ensures
            is_change_turn_msg(m, turn.current_turn_player_id),
    {
        change_turn_msg(turn.current_turn_player_id)
    }

    /// The notice, sent to every player at the start of every turn after
    /// the turn's announcement, of what the player whose turn it is is
    /// about to do.
    pub fn action_message(turn: &TurnState) -> (m: ServerMessage)
        ensures
            is_player_action_msg(m, turn.current_turn_player_id, turn.current_action),
    {
        player_action_msg(turn.current_turn_player_id, turn.current_action)
    }

    /// The draw: the player whose turn it is draws a random card that is not
    /// a flower and is then to discard; the result is the message telling it
    /// what it drew. `None` when the wall holds no such card; then nothing
    /// changes.
    pub fn play_get_card(&mut self, turn: &mut TurnState) -> (r: Option<(u8, ServerMessage)>)
        requires
            old(self).wf(),
            old(turn).current_action == GameActions::GetCard,
            1 <= old(turn).current_turn_player_id <= old(self).table.players@.len(),
        ensures
            final(self).wf(),
            final(self).table.same_seats(&old(self).table),
            final(self).table.card_pool() == old(self).table.card_pool(),
            r is Some <==> old(self).table.wall_has_non_flower(),
            r is None ==> {
                &&& *final(turn) == *old(turn)
                &&& final(self).table.unused_card@ == old(self).table.unused_card@
                &&& forall|j: int|
                    0 <= j < final(self).table.players@.len() ==> #[trigger] final(self).table.hand(j)
                        == old(self).table.hand(j)
            },
            r matches Some(out) ==> {
                let seat = old(turn).current_turn_player_id - 1;
                let c = final(self).table.hand(seat).last();
                &&& out.0 == old(turn).current_turn_player_id
                &&& is_get_card_msg(out.1, c)
                &&& !(c.card_type is Flower)
                &&& final(self).table.unused_card@ == remove_first(old(self).table.unused_card@, c)
                &&& final(self).table.hand(seat) == old(self).table.hand(seat).push(c)
                &&& forall|j: int|
                    0 <= j < final(self).table.players@.len() && j != seat ==> #[trigger] final(self).table.hand(j) == old(self).table.hand(j)
                &&& *final(turn) == (TurnState {
                    current_turn_player_id: old(turn).current_turn_player_id,
                    current_action: GameActions::ThrowCard,
                })
            },
    {
        let seat = (turn.current_turn_player_id - 1) as usize;
        match self.table.draw_non_flower(seat) {
            Some(card) => {
                turn.current_action = GameActions::ThrowCard;
                Some((turn.current_turn_player_id, get_card_msg(card)))
            },
            None => None,
        }
    }

    /// The discard: the player whose turn it is sent `msg`. A discard of a
    /// card it holds takes that card out of its hand, tells it its new hand,
    /// tells every player (itself included) that it discarded, and passes
    /// the turn to the next player, who is to draw.
    pub fn play_client_msg(&mut self, turn: &mut TurnState, msg: ClientGameMsg) -> (r: MoveOutcome)
        requires
            old(self).wf(),
            old(turn).current_action == GameActions::ThrowCard,
            1 <= old(turn).current_turn_player_id <= old(self).table.players@.len(),
        ensures
            final(self).wf(),
            final(self).table.same_seats(&old(self).table),
            final(self).table.unused_card@ == old(self).table.unused_card@,
            ({
                let seat = old(turn).current_turn_player_id - 1;
                let n = old(self).table.players@.len();
                let cur = old(turn).current_turn_player_id;
                match msg {
                    ClientGameMsg::ThrowCard(c) => if old(self).table.hand(seat).contains(c) {
                        &&& r matches MoveOutcome::Thrown(out) && {
                            &&& out@.len() == n + 1
                            &&& out@[0].0 == cur
                            &&& is_hand_change_msg(out@[0].1, final(self).table.hand(seat))
                            &&& forall|k: int|
                                0 <= k < n ==> (#[trigger] out@[k + 1]).0 == k + 1
                                    && is_player_action_msg(out@[k + 1].1, cur, GameActions::ThrowCard)
                        }
                        &&& final(self).table.hand(seat) == remove_first(old(self).table.hand(seat), c)
                        &&& final(self).table.card_pool().insert(c) == old(self).table.card_pool()
                        &&& forall|j: int|
                            0 <= j < n && j != seat ==> #[trigger] final(self).table.hand(j) == old(self).table.hand(j)
                        &&& *final(turn) == (TurnState {
                            current_turn_player_id: spec_next_turn(cur, n as u8),
                            current_action: GameActions::GetCard,
                        })
                    } else {
                        &&& r is NotInHand
                        &&& *final(turn) == *old(turn)
                        &&& forall|j: int| 0 <= j < n ==> #[trigger] final(self).table.hand(j) == old(self).table.hand(j)
                    },
                    _ => {
                        &&& r is Unsupported
                        &&& *final(turn) == *old(turn)
                        &&& forall|j: int| 0 <= j < n ==> #[trigger] final(self).table.hand(j) == old(self).table.hand(j)
                    },
                }
            }),
    {
        let seat = (turn.current_turn_player_id - 1) as usize;
        match msg {
            ClientGameMsg::ThrowCard(card) => {
                if self.table.throw_card(seat, card) {
                    let n = self.table.players.len();
                    let mut out: Vec<(u8, ServerMessage)> = Vec::new();
                    let hand = copy_cards(&self.table.players[seat].player_hand_cards);
                    out.push((turn.current_turn_player_id, hand_change_msg(hand)));
                    let mut i: usize = 0;
                    while i < n
                        invariant
                            i <= n,
                            n == self.table.players@.len(),
                            self.wf(),
                            out@.len() == i + 1,
                            out@[0].0 == turn.current_turn_player_id,
                            is_hand_change_msg(out@[0].1, self.table.hand(seat as int)),
                            forall|k: int|
                                0 <= k < i ==> (#[trigger] out@[k + 1]).0 == k + 1
                                    && is_player_action_msg(
                                    out@[k + 1].1,
                                    turn.current_turn_player_id,
                                    GameActions::ThrowCard,
                                ),
                        decreases n - i,
                    {
                        out.push(
                            (
                                self.table.players[i].player_id,
                                player_action_msg(
                                    turn.current_turn_player_id,
                                    GameActions::ThrowCard,
                                ),
                            ),
                        );
                        i = i + 1;
                    }
                    turn.current_turn_player_id = next_turn(turn.current_turn_player_id, n as u8);
                    turn.current_action = GameActions::GetCard;
                    MoveOutcome::Thrown(out)
                } else {
                    MoveOutcome::NotInHand
                }
            },
            _ => MoveOutcome::Unsupported,
        }
    }
}

// ---------------------------------------------------------------------
// The messaging thread's tasks
// ---------------------------------------------------------------------

/// How the messaging thread ended.
#[derive(Clone, Copy, Debug, PartialEq, Eq, Structural)]
pub struct MsgMgrThreadResult {
    pub is_error: bool,
}

/// What a task asks of the messaging thread.
#[derive(Clone, Copy, Debug, PartialEq, Eq, Structural)]
pub enum MsgMgrTaskKinds {
    Read,
    Write,
    Ping,
    AddPlayer,
}

/// A task for the messaging thread; the `kind_` field that matches
/// `msg_kind` carries its argument.
#[derive(Debug)]
pub struct MsgMgrTaskmsg {
    pub msg_kind: MsgMgrTaskKinds,
    /// The player to read from.
    pub kind_read: Option<u8>,
    /// The player to write to, and the text.
    pub kind_write: Option<(u8, String)>,
    /// The players the thread serves from now on.
    pub kind_add_player: Option<Vec<PMJPlayer>>,
}

impl Default for MsgMgrTaskmsg {
    fn default() -> (r: Self)
        ensures
            r.msg_kind == MsgMgrTaskKinds::Ping,
            r.kind_read is None,
            r.kind_write is None,
            r.kind_add_player is None,
    {
        MsgMgrTaskmsg {
            msg_kind: MsgMgrTaskKinds::Ping,
            kind_read: None,
            kind_write: None,
            kind_add_player: None,
        }
    }
}

/// What the messaging thread answered to a task.
#[derive(Debug)]
pub struct MsgMgrTaskresult {
    pub msg_kind: MsgMgrTaskKinds,
    /// The text read, for a read task.
    pub kind_read: Option<String>,
}

impl Default for MsgMgrTaskresult {
    fn default() -> (r: Self)
        ensures
            r.msg_kind == MsgMgrTaskKinds::Write,
            r.kind_read is None,
    {
        MsgMgrTaskresult { msg_kind: MsgMgrTaskKinds::Write, kind_read: None }
    }
}

/// The tasks handed to the messaging thread, each under the number it was
/// given, the last number given, and the players the thread serves.
#[derive(Debug)]
pub struct MessageMgr {
    pub players: Vec<PMJPlayer>,
    pub tasks: Vec<(u64, MsgMgrTaskmsg)>,
    pub last_task_id: u64,
}

impl MessageMgr {
    /// Task numbers rise in the order the tasks were made, and none exceeds
    /// the last number given.
    pub open spec fn wf(&self) -> bool {
        &&& forall|i: int, j: int|
            0 <= i < j < self.tasks@.len() ==> (#[trigger] self.tasks@[i]).0 < (
            #[trigger] self.tasks@[j]).0
        &&& forall|i: int| 0 <= i < self.tasks@.len() ==> (#[trigger] self.tasks@[i]).0 <= self.last_task_id
    }

    /// `after` is this record with one more task at its end, recorded
    /// under `id`, the number after the last one given.
    pub open spec fn task_step(self, after: Self, id: u64) -> bool {
        &&& id == self.last_task_id + 1
        &&& after.last_task_id == id
        &&& after.tasks@.len() == self.tasks@.len() + 1
        &&& after.tasks@.drop_last() == self.tasks@
        &&& after.tasks@.last().0 == id
    }

    /// The position of the task numbered `id`.
    pub open spec fn position_of(&self, id: u64, i: int) -> bool {
        0 <= i < self.tasks@.len() && self.tasks@[i].0 == id
    }

    /// No task yet, serving `players`.
    pub fn new(players: Vec<PMJPlayer>) -> (r: Self)
        ensures
            r.wf(),
            r.players@ == players@,
            r.tasks@.len() == 0,
            r.last_task_id == 0,
    {
        MessageMgr { players, tasks: Vec::new(), last_task_id: 0 }
    }

    /// Records `task` under the next number and returns that number.
    pub fn task_new(&mut self, task: MsgMgrTaskmsg) -> (id: u64)
        requires
            old(self).wf(),
            old(self).last_task_id < u64::MAX,
        ensures
            final(self).wf(),
            id == old(self).last_task_id + 1,
            final(self).last_task_id == id,
            final(self).tasks@ == old(self).tasks@.push((id, task)),
            final(self).players@ == old(self).players@,
            forall|i: int| 0 <= i < old(self).tasks@.len() ==> (#[trigger] old(self).tasks@[i]).0 != id,
    {
        self.last_task_id = self.last_task_id + 1;
        let id = self.last_task_id;
        self.tasks.push((id, task));
        id
    }

    /// Where the task numbered `id` is recorded; `None` if no task has that
    /// number.
    pub fn find_task(&self, id: u64) -> (r: Option<usize>)
        requires
            self.wf(),
        ensures
            match r {
                Some(i) => self.position_of(id, i as int),
                None => forall|i: int| 0 <= i < self.tasks@.len() ==> (#[trigger] self.tasks@[i]).0 != id,
            },
    {
        let mut index: usize = 0;
        while index < self.tasks.len()
            invariant
                index <= self.tasks@.len(),
                forall|i: int| 0 <= i < index ==> (#[trigger] self.tasks@[i]).0 != id,
            decreases self.tasks@.len() - index,
        {
            if self.tasks[index].0 == id {
                return Some(index);
            }
            index = index + 1;
        }
        None
    }

    /// From now on the messaging thread serves `players`: they are kept, and
    /// the task that hands them to the thread is recorded.
    pub fn task_add_player(&mut self, players: Vec<PMJPlayer>) -> (id: u64)
        requires
            old(self).wf(),
            old(self).last_task_id < u64::MAX,
        ensures
            final(self).wf(),
            old(self).task_step(*final(self), id),
            id == old(self).last_task_id + 1,
            final(self).last_task_id == id,
            final(self).players@.len() == players@.len(),
            forall|i: int| 0 <= i < players@.len() ==> same_player(#[trigger] final(self).players@[i], players@[i]),
            final(self).tasks@.len() == old(self).tasks@.len() + 1,
            final(self).tasks@.drop_last() == old(self).tasks@,
            final(self).tasks@.last().0 == id,
            final(self).tasks@.last().1.msg_kind == MsgMgrTaskKinds::AddPlayer,
            final(self).tasks@.last().1.kind_add_player == Some(players),
            final(self).tasks@.last().1.kind_read is None,
            final(self).tasks@.last().1.kind_write is None,
    {
        let mut kept: Vec<PMJPlayer> = Vec::new();
        let mut i: usize = 0;
        while i < players.len()
            invariant
                i <= players@.len(),
                kept@.len() == i,
                forall|k: int| 0 <= k < i ==> same_player(#[trigger] kept@[k], players@[k]),
            decreases players@.len() - i,
        {
            kept.push(copy_player(&players[i]));
            i = i + 1;
        }
        self.players = kept;
        let mut task = MsgMgrTaskmsg::default();
        task.msg_kind = MsgMgrTaskKinds::AddPlayer;
        task.kind_add_player = Some(players);
        let id = self.task_new(task);
        proof {
            assert(self.tasks@.drop_last() =~= old(self).tasks@);
        }
        id
    }

    /// Records the task that reads the next message of player `pid`.
    pub fn task_read(&mut self, pid: u8) -> (id: u64)
        requires
            old(self).wf(),
            old(self).last_task_id < u64::MAX,
        ensures
            final(self).wf(),
            old(self).task_step(*final(self), id),
            id == old(self).last_task_id + 1,
            final(self).last_task_id == id,
            final(self).tasks@.len() == old(self).tasks@.len() + 1,
            final(self).tasks@.drop_last() == old(self).tasks@,
            final(self).tasks@.last().0 == id,
            final(self).tasks@.last().1.msg_kind == MsgMgrTaskKinds::Read,
            final(self).players@ == old(self).players@,
            final(self).tasks@.last().1.kind_read == Some(pid),
            final(self).tasks@.last().1.kind_write is None,
            final(self).tasks@.last().1.kind_add_player is None,
    {
        let mut task = MsgMgrTaskmsg::default();
        task.msg_kind = MsgMgrTaskKinds::Read;
        task.kind_read = Some(pid);
        let id = self.task_new(task);
        proof {
            assert(self.tasks@.drop_last() =~= old(self).tasks@);
        }
        id
    }

    /// Records a ping task.
    pub fn task_ping(&mut self) -> (id: u64)
        requires
            old(self).wf(),
            old(self).last_task_id < u64::MAX,
        ensures
            final(self).wf(),
            old(self).task_step(*final(self), id),
            id == old(self).last_task_id + 1,
            final(self).last_task_id == id,
            final(self).tasks@.len() == old(self).tasks@.len() + 1,
            final(self).tasks@.drop_last() == old(self).tasks@,
            final(self).tasks@.last().0 == id,
            final(self).tasks@.last().1.msg_kind == MsgMgrTaskKinds::Ping,
            final(self).players@ == old(self).players@,
            final(self).tasks@.last().1.kind_read is None,
            final(self).tasks@.last().1.kind_write is None,
            final(self).tasks@.last().1.kind_add_player is None,
    {
        let task = MsgMgrTaskmsg::default();
        let id = self.task_new(task);
        proof {
            assert(self.tasks@.drop_last() =~= old(self).tasks@);
        }
        id
    }
}

/// Task numbers count the tasks: from a record with no task and no number
/// given, each call of `task_ping`, `task_read` or `task_add_player` takes
/// the next number, so the call counted k (from 1) gets the number k, no
/// number is given twice, and the record then holds the tasks numbered 1 to
/// k in the order of the calls.
pub proof fn lemma_task_numbers_count_calls(states: Seq<MessageMgr>, ids: Seq<u64>)
    requires
        states.len() == ids.len() + 1,
        states[0].tasks@.len() == 0,
        states[0].last_task_id == 0,
        forall|k: int| #![trigger ids[k]] 0 <= k < ids.len() ==> states[k].task_step(states[k + 1], ids[k]),
    ensures
        forall|k: int| 0 <= k < ids.len() ==> #[trigger] ids[k] == k + 1,
        ids.no_duplicates(),
        states.last().last_task_id == ids.len(),
        states.last().tasks@.len() == ids.len(),
        forall|k: int| 0 <= k < ids.len() ==> (#[trigger] states.last().tasks@[k]).0 == k + 1,
    decreases ids.len(),
{
    if ids.len() > 0 {
        let n = ids.len() - 1;
        let ps = states.drop_last();
        let pi = ids.drop_last();
        assert forall|k: int| #![trigger pi[k]] 0 <= k < pi.len() implies ps[k].task_step(ps[k + 1], pi[k]) by {
            assert(ids[k] == pi[k]);
        }
        lemma_task_numbers_count_calls(ps, pi);
        assert(ids[n] == n + 1) by {
            assert(states[n].task_step(states[n + 1], ids[n]));
        }
        assert forall|k: int| 0 <= k < ids.len() implies #[trigger] ids[k] == k + 1 by {
            if k < n {
                assert(pi[k] == ids[k]);
            }
        }
        assert forall|k: int| 0 <= k < ids.len() implies (#[trigger] states.last().tasks@[k]).0 == k + 1 by {
            assert(states[n].task_step(states[n + 1], ids[n]));
            if k < n {
                assert(states.last().tasks@.drop_last()[k] == states.last().tasks@[k]);
                assert(ps.last() == states[n]);
            }
        }
        assert(states[n].task_step(states[n + 1], ids[n]));
    }
}

/// A task number, once given, finds the task it was given to: however the
/// record grew before, looking the new number up gives the new task's place.
pub proof fn lemma_new_task_is_found(before: MessageMgr, after: MessageMgr, id: u64, i: int)
    requires
        before.wf(),
        after.tasks@.len() == before.tasks@.len() + 1,
        after.tasks@.drop_last() == before.tasks@,
        after.tasks@.last().0 == id,
        forall|k: int| 0 <= k < before.tasks@.len() ==> (#[trigger] before.tasks@[k]).0 != id,
        after.position_of(id, i),
    ensures
        i == before.tasks@.len(),
{
    if i < before.tasks@.len() {
        assert(after.tasks@[i] == before.tasks@[i]);
    }
}

/// Seating and dealing keep every tile in play exactly once: when the wall
/// of a room is a new deck and its players hold no cards, any later room
/// with the same cards on the table (as seating the players and starting
/// the game leave it) holds each valid tile once, 144 in all, and nothing
/// else.
pub proof fn lemma_deal_keeps_every_tile(before: PositiveMahjong, after: PositiveMahjong)
    requires
        before.table.unused_card@ == full_deck(),
        forall|i: int| 0 <= i < before.table.players@.len() ==> #[trigger] before.table.hand(i).len() == 0,
        after.table.card_pool() == before.table.card_pool(),
    ensures
        forall|c: PMJCard| #[trigger] after.table.card_pool().count(c) == if is_valid_tile(c) {
            1nat
        } else {
            0nat
        },
        after.table.card_pool().len() == 144,
{
    lemma_full_deck();
    assert forall|i: int| 0 <= i < before.table.players@.len() implies (
    #[trigger] before.table.players@[i]).player_hand_cards@.len() == 0 by {
        assert(before.table.hand(i).len() == 0);
    }
    lemma_fresh_table_pool(before.table, full_deck());
}

} // verus!
