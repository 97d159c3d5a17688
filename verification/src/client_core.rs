//! The client's core: what the client knows of the game, and what it does
//! when one of its background tasks (sending the first message, reading the
//! server's answer, pinging, reading a message, discarding) ends. Running
//! the tasks on the connection is the caller's part.

use vstd::prelude::*;
use vstd::string::StringExecFns;

use crate::pmj_shared::{ClientConnectRequestType, GameModes, ServerConnectResponceType};
use crate::table::copy_cards;
use crate::v2_better_shared::{
    ClientGameMsg, ClientMessage, GameActions, PMJCard, ServerGameMsg, ServerGameMsgKinds,
    ServerMessage, ServerRoomMsg,
};

verus! {

// ---------------------------------------------------------------------
// Errors
// ---------------------------------------------------------------------

/// What went wrong in the client's core.
#[derive(Clone, Copy, Debug, PartialEq, Eq, Structural)]
pub struct CCError {
    pub kind: CCErrKinds,
}

/// The kinds of errors of the client's core.
#[derive(Clone, Copy, Debug, PartialEq, Eq, Structural)]
pub enum CCErrKinds {
    /// The websocket handshake failed.
    HandShakeError,
    Other,
}

pub open spec fn err_kind_name(k: CCErrKinds) -> Seq<char> {
    match k {
        CCErrKinds::HandShakeError => "HandShakeError"@,
        CCErrKinds::Other => "Other"@,
    }
}

impl CCError {
    /// The error as text: `CCError: ` and the kind.
    pub fn to_string(&self) -> (r: String)
        ensures
            r@ == "CCError: "@ + err_kind_name(self.kind),
    {
        let kind = match self.kind {
            CCErrKinds::HandShakeError => "HandShakeError",
            CCErrKinds::Other => "Other",
        };
        String::from_str("CCError: ").concat(kind)
    }
}

// ---------------------------------------------------------------------
// The state of the client
// ---------------------------------------------------------------------

/// Where the client is: on the home page, or in a V2Better game.
#[derive(Debug)]
pub enum GMState {
    HomePage,
    V2Better(V2BetterState),
}

/// What the client knows of a V2Better game.
#[derive(Debug)]
pub struct V2BetterState {
    pub player_id: u8,
    pub cards: Vec<PMJCard>,
    pub player_turn: Option<u8>,
    /// The events of the game, each with its number, counted from 1.
    pub game_events: Vec<(u64, V2BetterEvents)>,
    /// The messages of the room, each with its number, counted from 1.
    pub room_msgs: Vec<(u64, ServerRoomMsg)>,
}

/// The events of a V2Better game, as the client sees them.
#[derive(Debug)]
pub enum V2BetterEvents {
    GameStart,
    GameFinish,
    ChangeTurn(u8),
    PlayerAction(u8, GameActions),
    YouGetCard(PMJCard),
    YouHandCardChange(Vec<PMJCard>),
}

/// What the player may do now.
#[derive(Clone, Copy, Debug, PartialEq, Eq, Structural, PartialOrd, Ord)]
pub enum PlayerCtrl {
    NoCtrl,
    ThrowCard,
}

/// The background tasks of the client.
#[derive(Clone, Copy, Debug, PartialEq, Eq, Structural)]
pub enum CTaskKinds {
    SendFirstMsgReq,
    ReadFirstMsgResp,
    PingPong,
    ReadWsMsg,
    ThrowCard(PMJCard),
}

/// What a task that succeeded brought back.
#[derive(Debug)]
pub struct CTaskResult {
    pub rfirstmsgresp_player_id: Option<u8>,
    pub rfirstmsgresp_gamemode: Option<GameModes>,
    pub read_ws_msg_v2: Option<ServerMessage>,
}

impl Default for CTaskResult {
    fn default() -> (r: Self)
        ensures
            r.rfirstmsgresp_player_id is None,
            r.rfirstmsgresp_gamemode is None,
            r.read_ws_msg_v2 is None,
    {
        CTaskResult { rfirstmsgresp_player_id: None, rfirstmsgresp_gamemode: None, read_ws_msg_v2: None }
    }
}

/// How a task ended.
#[derive(Debug)]
pub enum TaskOutcome {
    /// It succeeded.
    Done(CTaskResult),
    /// It returned an error.
    Failed(CCError),
    /// Its thread panicked.
    Panicked,
}

/// Where the walk over the task list goes after a task was handled (the
/// handled task has been taken out of the list).
#[derive(Clone, Copy, Debug, PartialEq, Eq, Structural)]
pub enum ScanNext {
    /// The walk ends.
    Stop,
    /// The walk goes on at the same index.
    SameIndex,
    /// The walk goes on at the next index.
    NextIndex,
}

/// What the client does after a task ended: the task to start, if any, and
/// how the walk over the task list goes on.
#[derive(Clone, Copy, Debug, PartialEq, Eq, Structural)]
pub struct TaskFollowUp {
    pub start: Option<CTaskKinds>,
    pub scan: ScanNext,
}

/// The client's core: where the client is in the game.
#[derive(Debug)]
pub struct ClientCore {
    pub gamemode_state: GMState,
}

// ---------------------------------------------------------------------
// Copies
// ---------------------------------------------------------------------

/// The two events are the same, hands compared by their cards.
pub open spec fn same_event(a: V2BetterEvents, b: V2BetterEvents) -> bool {
    match (a, b) {
        (V2BetterEvents::YouHandCardChange(x), V2BetterEvents::YouHandCardChange(y)) => x@ == y@,
        _ => a == b,
    }
}

/// The two games states agree, lists compared element by element.
pub open spec fn same_v2_state(a: V2BetterState, b: V2BetterState) -> bool {
    &&& a.player_id == b.player_id
    &&& a.cards@ == b.cards@
    &&& a.player_turn == b.player_turn
    &&& a.game_events@.len() == b.game_events@.len()
    &&& forall|i: int|
        0 <= i < a.game_events@.len() ==> {
            &&& (#[trigger] a.game_events@[i]).0 == b.game_events@[i].0
            &&& same_event(a.game_events@[i].1, b.game_events@[i].1)
        }
    &&& a.room_msgs@ == b.room_msgs@
}

/// The two states agree.
pub open spec fn same_gm_state(a: GMState, b: GMState) -> bool {
    match (a, b) {
        (GMState::HomePage, GMState::HomePage) => true,
        (GMState::V2Better(x), GMState::V2Better(y)) => same_v2_state(x, y),
        _ => false,
    }
}

fn copy_event(e: &V2BetterEvents) -> (r: V2BetterEvents)
    ensures
        same_event(r, *e),
{
    match e {
        V2BetterEvents::GameStart => V2BetterEvents::GameStart,
        V2BetterEvents::GameFinish => V2BetterEvents::GameFinish,
        V2BetterEvents::ChangeTurn(p) => V2BetterEvents::ChangeTurn(*p),
        V2BetterEvents::PlayerAction(p, a) => V2BetterEvents::PlayerAction(*p, *a),
        V2BetterEvents::YouGetCard(c) => V2BetterEvents::YouGetCard(*c),
        V2BetterEvents::YouHandCardChange(h) => V2BetterEvents::YouHandCardChange(copy_cards(h)),
    }
}

fn copy_room_msg(m: &ServerRoomMsg) -> (r: ServerRoomMsg)
    ensures
        r == *m,
{
    ServerRoomMsg {
        msg_type: m.msg_type,
        info_player_say: match &m.info_player_say {
            Some((p, s)) => Some((*p, s.clone())),
            None => None,
        },
        info_root_say: match &m.info_root_say {
            Some(s) => Some(s.clone()),
            None => None,
        },
    }
}

fn copy_v2_state(s: &V2BetterState) -> (r: V2BetterState)
    ensures
        same_v2_state(r, *s),
{
    let mut game_events: Vec<(u64, V2BetterEvents)> = Vec::new();
    let mut i: usize = 0;
    while i < s.game_events.len()
        invariant
            i <= s.game_events@.len(),
            game_events@.len() == i,
            forall|k: int|
                0 <= k < i ==> {
                    &&& (#[trigger] game_events@[k]).0 == s.game_events@[k].0
                    &&& same_event(game_events@[k].1, s.game_events@[k].1)
                },
        decreases s.game_events@.len() - i,
    {
        let (n, e) = &s.game_events[i];
        game_events.push((*n, copy_event(e)));
        i = i + 1;
    }
    let mut room_msgs: Vec<(u64, ServerRoomMsg)> = Vec::new();
    let mut j: usize = 0;
    while j < s.room_msgs.len()
        invariant
            j <= s.room_msgs@.len(),
            room_msgs@ == s.room_msgs@.take(j as int),
        decreases s.room_msgs@.len() - j,
    {
        let (n, m) = &s.room_msgs[j];
        room_msgs.push((*n, copy_room_msg(m)));
        proof {
            assert(room_msgs@ =~= s.room_msgs@.take(j + 1));
        }
        j = j + 1;
    }
    proof {
        assert(room_msgs@ =~= s.room_msgs@);
    }
    V2BetterState {
        player_id: s.player_id,
        cards: copy_cards(&s.cards),
        player_turn: s.player_turn,
        game_events,
        room_msgs,
    }
}

// ---------------------------------------------------------------------
// Messages of the server
// ---------------------------------------------------------------------

/// A game message the client can take in: any kind but an error, with the
/// field of its kind filled.
pub open spec fn game_msg_handled(m: ServerGameMsg) -> bool {
    match m.msg_type {
        ServerGameMsgKinds::GameStart => true,
        ServerGameMsgKinds::GameFinish => true,
        ServerGameMsgKinds::ChangedTurn => m.info_change_turn is Some,
        ServerGameMsgKinds::HandCardChange => m.info_hand_card_change is Some,
        ServerGameMsgKinds::Error => false,
        ServerGameMsgKinds::PlayerAction => m.info_player_action is Some,
        ServerGameMsgKinds::GetCard => m.info_get_card is Some,
    }
}

/// The event a game message stands for.
pub open spec fn event_of(m: ServerGameMsg) -> V2BetterEvents {
    match m.msg_type {
        ServerGameMsgKinds::GameStart => V2BetterEvents::GameStart,
        ServerGameMsgKinds::GameFinish => V2BetterEvents::GameFinish,
        ServerGameMsgKinds::ChangedTurn => V2BetterEvents::ChangeTurn(m.info_change_turn->0),
        ServerGameMsgKinds::HandCardChange => V2BetterEvents::YouHandCardChange(
            m.info_hand_card_change->0,
        ),
        ServerGameMsgKinds::PlayerAction => V2BetterEvents::PlayerAction(
            (m.info_player_action->0).0,
            (m.info_player_action->0).1,
        ),
        _ => V2BetterEvents::YouGetCard(m.info_get_card->0),
    }
}

/// The event a game message is recorded as is of the message's own kind
/// and carries what the message carries: a start is a start, a finish a
/// finish, a change of turn names the player of the message, a player's
/// action names that player and action, a drawn card is that card and a
/// new hand is that hand; no two kinds of message give the same kind of
/// event.
pub proof fn lemma_event_mirrors_message(m: ServerGameMsg)
    requires
        game_msg_handled(m),
    ensures
        (event_of(m) is GameStart) <==> m.msg_type == ServerGameMsgKinds::GameStart,
        (event_of(m) is GameFinish) <==> m.msg_type == ServerGameMsgKinds::GameFinish,
        (event_of(m) is ChangeTurn) <==> m.msg_type == ServerGameMsgKinds::ChangedTurn,
        (event_of(m) is PlayerAction) <==> m.msg_type == ServerGameMsgKinds::PlayerAction,
        (event_of(m) is YouGetCard) <==> m.msg_type == ServerGameMsgKinds::GetCard,
        (event_of(m) is YouHandCardChange) <==> m.msg_type == ServerGameMsgKinds::HandCardChange,
        event_of(m) matches V2BetterEvents::ChangeTurn(p) ==> m.info_change_turn == Some(p),
        event_of(m) matches V2BetterEvents::PlayerAction(p, a) ==> m.info_player_action == Some((p, a)),
        event_of(m) matches V2BetterEvents::YouGetCard(c) ==> m.info_get_card == Some(c),
        event_of(m) matches V2BetterEvents::YouHandCardChange(h) ==> m.info_hand_card_change matches Some(g) && g@
            == h@,
{
}

fn event_from(m: ServerGameMsg) -> (e: V2BetterEvents)
    requires
        game_msg_handled(m),
    ensures
        e == event_of(m),
{
    match m.msg_type {
        ServerGameMsgKinds::GameStart => V2BetterEvents::GameStart,
        ServerGameMsgKinds::GameFinish => V2BetterEvents::GameFinish,
        ServerGameMsgKinds::ChangedTurn => match m.info_change_turn {
            Some(p) => V2BetterEvents::ChangeTurn(p),
            None => {
                proof {
                    assert(false);
                }
                V2BetterEvents::GameStart
            },
        },
        ServerGameMsgKinds::HandCardChange => match m.info_hand_card_change {
            Some(h) => V2BetterEvents::YouHandCardChange(h),
            None => {
                proof {
                    assert(false);
                }
                V2BetterEvents::GameStart
            },
        },
        ServerGameMsgKinds::PlayerAction => match m.info_player_action {
            Some((p, a)) => V2BetterEvents::PlayerAction(p, a),
            None => {
                proof {
                    assert(false);
                }
                V2BetterEvents::GameStart
            },
        },
        _ => match m.info_get_card {
            Some(c) => V2BetterEvents::YouGetCard(c),
            None => {
                proof {
                    assert(false);
                }
                V2BetterEvents::GameStart
            },
        },
    }
}

/// The first message a client sends: this game, and this client.
pub fn first_msg_request() -> (r: ClientConnectRequestType)
    ensures
        r.app_name@ == "positive_mahjong"@,
        r.client@ == "pmj_client"@,
{
    ClientConnectRequestType {
        app_name: String::from_str("positive_mahjong"),
        client: String::from_str("pmj_client"),
    }
}

/// The message that discards `card`.
pub fn throw_card_msg(card: PMJCard) -> (m: ClientMessage)
    ensures
        m == ClientMessage::GameMsg(ClientGameMsg::ThrowCard(card)),
{
    ClientMessage::GameMsg(ClientGameMsg::ThrowCard(card))
}

/// What the task reading the server's answer to the first message
/// returns: the player's number and the game mode, or an error when the
/// room is full.
pub fn first_msg_result(resp: ServerConnectResponceType) -> (r: Result<CTaskResult, CCError>)
    ensures
        resp.too_many_player ==> r == Err::<CTaskResult, CCError>(CCError { kind: CCErrKinds::Other }),
        !resp.too_many_player ==> (r matches Ok(t) && t.rfirstmsgresp_player_id == resp.player_id
            && t.rfirstmsgresp_gamemode == Some(resp.gamemode) && t.read_ws_msg_v2 is None),
{
    if !resp.too_many_player {
        Ok(CTaskResult {
            rfirstmsgresp_player_id: resp.player_id,
            rfirstmsgresp_gamemode: Some(resp.gamemode),
            read_ws_msg_v2: None,
        })
    } else {
        Err(CCError { kind: CCErrKinds::Other })
    }
}

// ---------------------------------------------------------------------
// The core
// ---------------------------------------------------------------------

impl ClientCore {
    /// A client on the home page.
    pub fn new() -> (r: Self)
        ensures
            r.gamemode_state is HomePage,
            r.wf(),
    {
        ClientCore { gamemode_state: GMState::HomePage }
    }

    /// A copy of where the client is.
    pub fn game_state(&self) -> (r: GMState)
        ensures
            same_gm_state(r, self.gamemode_state),
    {
        match &self.gamemode_state {
            GMState::HomePage => GMState::HomePage,
            GMState::V2Better(s) => GMState::V2Better(copy_v2_state(s)),
        }
    }

    /// What the player may do now: discard right after it got a card,
    /// nothing otherwise (and nothing on the home page).
    pub fn current_ctrl(&self) -> (r: PlayerCtrl)
        requires
            self.gamemode_state matches GMState::V2Better(s) ==> s.game_events@.len() > 0,
        ensures
            self.gamemode_state is HomePage ==> r == PlayerCtrl::NoCtrl,
            self.gamemode_state matches GMState::V2Better(s) ==> r == if s.game_events@.last().1 is YouGetCard {
                PlayerCtrl::ThrowCard
            } else {
                PlayerCtrl::NoCtrl
            },
    {
        match &self.gamemode_state {
            GMState::HomePage => PlayerCtrl::NoCtrl,
            GMState::V2Better(state) => {
                let (_event_num, event) = &state.game_events[state.game_events.len() - 1];
                match event {
                    V2BetterEvents::YouGetCard(_) => PlayerCtrl::ThrowCard,
                    _ => PlayerCtrl::NoCtrl,
                }
            },
        }
    }

    /// A message of the server the client can take in: in a game, a room
    /// message or a game message it handles, with room left to number it.
    pub open spec fn msg_handled(&self, m: ServerMessage) -> bool {
        &&& self.gamemode_state matches GMState::V2Better(s)
        &&& s.game_events@.len() < u64::MAX
        &&& s.room_msgs@.len() < u64::MAX
        &&& m matches ServerMessage::GameMsg(g) ==> game_msg_handled(g)
    }

    /// The core takes in the message `m` of the server: a room message is
    /// added to the room's messages, a game message to the game's events as
    /// the event it stands for, each numbered one past the last.
    pub fn apply_server_msg(&mut self, m: ServerMessage)
        requires
            old(self).msg_handled(m),
        ensures
            old(self).wf() ==> final(self).wf(),
            final(self).gamemode_state matches GMState::V2Better(n) && old(self).gamemode_state matches GMState::V2Better(o) && {
                &&& n.player_id == o.player_id
                &&& n.cards == o.cards
                &&& n.player_turn == o.player_turn
                &&& match m {
                    ServerMessage::RoomMsg(r) => {
                        &&& n.room_msgs@ == o.room_msgs@.push(((o.room_msgs@.len() + 1) as u64, r))
                        &&& n.game_events == o.game_events
                    },
                    ServerMessage::GameMsg(g) => {
                        &&& n.game_events@ == o.game_events@.push(((o.game_events@.len() + 1) as u64, event_of(g)))
                        &&& n.room_msgs == o.room_msgs
                    },
                }
            },
    {
        match &mut self.gamemode_state {
            GMState::V2Better(state_v2) => {
                match m {
                    ServerMessage::RoomMsg(room_msg) => {
                        let n = state_v2.room_msgs.len() as u64 + 1;
                        state_v2.room_msgs.push((n, room_msg));
                    },
                    ServerMessage::GameMsg(game_msg) => {
                        let n = state_v2.game_events.len() as u64 + 1;
                        state_v2.game_events.push((n, event_from(game_msg)));
                    },
                }
            },
            GMState::HomePage => {
                proof {
                    assert(false);
                }
            },
        }
    }
}


/// A game that has just begun for player `player_id`: no cards, no turn,
/// no events, no messages.
pub open spec fn fresh_game(s: GMState, player_id: u8) -> bool {
    &&& s matches GMState::V2Better(v)
    &&& v.player_id == player_id
    &&& v.cards@.len() == 0
    &&& v.player_turn is None
    &&& v.game_events@.len() == 0
    &&& v.room_msgs@.len() == 0
}

/// The events and the room messages of a game carry the numbers 1, 2, 3,
/// ... in the order they came.
pub open spec fn numbered(s: V2BetterState) -> bool {
    &&& forall|i: int| 0 <= i < s.game_events@.len() ==> (#[trigger] s.game_events@[i]).0 == i + 1
    &&& forall|i: int| 0 <= i < s.room_msgs@.len() ==> (#[trigger] s.room_msgs@[i]).0 == i + 1
}

/// One step of the walk over finished tasks, as every task but the answer
/// to the first message takes it: nothing changes, or a game takes in one
/// room message or one event, numbered one past the last, and keeps the
/// rest.
pub open spec fn walk_step(before: GMState, after: GMState) -> bool {
    ||| after == before
    ||| {
        &&& before matches GMState::V2Better(o)
        &&& after matches GMState::V2Better(n)
        &&& n.player_id == o.player_id
        &&& n.cards == o.cards
        &&& n.player_turn == o.player_turn
        &&& {
            ||| {
                &&& n.game_events == o.game_events
                &&& n.room_msgs@.len() == o.room_msgs@.len() + 1
                &&& n.room_msgs@.drop_last() == o.room_msgs@
                &&& n.room_msgs@.last().0 == n.room_msgs@.len()
            }
            ||| {
                &&& n.room_msgs == o.room_msgs
                &&& n.game_events@.len() == o.game_events@.len() + 1
                &&& n.game_events@.drop_last() == o.game_events@
                &&& n.game_events@.last().0 == n.game_events@.len()
            }
        }
    }
}

proof fn lemma_push_is_walk_step<T>(o: Seq<(u64, T)>, n: Seq<(u64, T)>, x: T)
    requires
        o.len() < u64::MAX,
        n == o.push(((o.len() + 1) as u64, x)),
    ensures
        n.len() == o.len() + 1,
        n.drop_last() == o,
        n.last().0 == n.len(),
{
    assert(n.drop_last() =~= o);
}

/// A walk over finished tasks that answers no first message keeps a game
/// numbered and only adds to it: from a game whose events and room messages
/// carry the numbers 1, 2, 3, ..., any number of steps leads to a game of
/// the same player, still numbered so, whose events and room messages begin
/// with those it had.
pub proof fn lemma_walk_keeps_numbering(states: Seq<GMState>)
    requires
        states.len() >= 1,
        forall|k: int| 0 <= k < states.len() - 1 ==> walk_step(#[trigger] states[k], states[k + 1]),
        states[0] matches GMState::V2Better(s) && numbered(s),
    ensures
        states.last() matches GMState::V2Better(t) && states[0] matches GMState::V2Better(s) && {
            &&& numbered(t)
            &&& t.player_id == s.player_id
            &&& s.game_events@.is_prefix_of(t.game_events@)
            &&& s.room_msgs@.is_prefix_of(t.room_msgs@)
        },
    decreases states.len(),
{
    if states.len() > 1 {
        let p = states.drop_last();
        assert forall|k: int| 0 <= k < p.len() - 1 implies walk_step(#[trigger] p[k], p[k + 1]) by {
            assert(p[k] == states[k] && p[k + 1] == states[k + 1]);
        }
        lemma_walk_keeps_numbering(p);
        let n = states.len() - 2;
        assert(p.last() == states[n]);
        assert(walk_step(states[n], states[n + 1]));
        if let GMState::V2Better(t) = states.last() {
            if let GMState::V2Better(o) = states[n] {
                if let GMState::V2Better(s) = states[0] {
                    assert(s.game_events@.is_prefix_of(o.game_events@));
                    assert(s.room_msgs@.is_prefix_of(o.room_msgs@));
                    if t.game_events@.len() == o.game_events@.len() + 1 {
                        assert(t.game_events@.subrange(0, o.game_events@.len() as int) == t.game_events@.drop_last());
                    }
                    if t.room_msgs@.len() == o.room_msgs@.len() + 1 {
                        assert(t.room_msgs@.subrange(0, o.room_msgs@.len() as int) == t.room_msgs@.drop_last());
                    }
                    assert(s.game_events@.is_prefix_of(t.game_events@));
                    assert(s.room_msgs@.is_prefix_of(t.room_msgs@));
                    assert forall|i: int| 0 <= i < t.game_events@.len() implies (#[trigger] t.game_events@[i]).0 == i + 1 by {
                        if i < o.game_events@.len() && t.game_events@.len() == o.game_events@.len() + 1 {
                            assert(t.game_events@.drop_last()[i] == t.game_events@[i]);
                        }
                    }
                    assert forall|i: int| 0 <= i < t.room_msgs@.len() implies (#[trigger] t.room_msgs@[i]).0 == i + 1 by {
                        if i < o.room_msgs@.len() && t.room_msgs@.len() == o.room_msgs@.len() + 1 {
                            assert(t.room_msgs@.drop_last()[i] == t.room_msgs@[i]);
                        }
                    }
                }
            }
        }
    }
}

impl ClientCore {
    /// In a game, events and room messages are numbered in order.
    pub open spec fn wf(&self) -> bool {
        self.gamemode_state matches GMState::V2Better(s) ==> numbered(s)
    }
}

impl ClientCore {
    /// The ends of tasks the core can take in: a message read must be one
    /// it handles, and the answer to the first message must carry a number
    /// and the V2Better game mode.
    pub open spec fn task_handled(&self, kind: CTaskKinds, outcome: TaskOutcome) -> bool {
        outcome matches TaskOutcome::Done(ctr) ==> match kind {
            CTaskKinds::ReadWsMsg => ctr.read_ws_msg_v2 matches Some(m) && self.msg_handled(m),
            CTaskKinds::ReadFirstMsgResp => ctr.rfirstmsgresp_player_id is Some
                && ctr.rfirstmsgresp_gamemode == Some(GameModes::V2Better),
            _ => true,
        }
    }

    /// What the core does when the task `kind` ended with `outcome`. A task
    /// whose thread panicked is started again and the walk moves on; one
    /// that failed is started again and the walk ends. Of those that
    /// succeeded: a discard needs nothing more; a message read is taken in;
    /// once the first message is sent its answer is awaited, and the walk
    /// ends; a ping is started again and the walk ends; the answer to the
    /// first message starts the game under the number it gave, and pinging
    /// begins.
    pub fn on_task_finished(&mut self, kind: CTaskKinds, outcome: TaskOutcome) -> (r: TaskFollowUp)
        requires
            old(self).task_handled(kind, outcome),
        ensures
            old(self).wf() ==> final(self).wf(),
            !(kind is ReadFirstMsgResp && outcome is Done) ==> walk_step(
                old(self).gamemode_state,
                final(self).gamemode_state,
            ),
            outcome is Panicked ==> r == (TaskFollowUp { start: Some(kind), scan: ScanNext::NextIndex })
                && final(self).gamemode_state == old(self).gamemode_state,
            outcome is Failed ==> r == (TaskFollowUp { start: Some(kind), scan: ScanNext::Stop })
                && final(self).gamemode_state == old(self).gamemode_state,
            outcome matches TaskOutcome::Done(ctr) ==> match kind {
                CTaskKinds::ThrowCard(_) => r == (TaskFollowUp { start: None, scan: ScanNext::SameIndex })
                    && final(self).gamemode_state == old(self).gamemode_state,
                CTaskKinds::ReadWsMsg => r == (TaskFollowUp { start: None, scan: ScanNext::SameIndex }),
                CTaskKinds::SendFirstMsgReq => r == (TaskFollowUp {
                    start: Some(CTaskKinds::ReadFirstMsgResp),
                    scan: ScanNext::Stop,
                }) && final(self).gamemode_state == old(self).gamemode_state,
                CTaskKinds::PingPong => r == (TaskFollowUp {
                    start: Some(CTaskKinds::PingPong),
                    scan: ScanNext::Stop,
                }) && final(self).gamemode_state == old(self).gamemode_state,
                CTaskKinds::ReadFirstMsgResp => r == (TaskFollowUp {
                    start: Some(CTaskKinds::PingPong),
                    scan: ScanNext::SameIndex,
                }) && fresh_game(final(self).gamemode_state, ctr.rfirstmsgresp_player_id->0),
            },
            outcome matches TaskOutcome::Done(ctr) ==> kind is ReadWsMsg ==> {
                let m = ctr.read_ws_msg_v2->0;
                &&& final(self).gamemode_state matches GMState::V2Better(n)
                &&& old(self).gamemode_state matches GMState::V2Better(o)
                &&& n.player_id == o.player_id
                &&& n.cards == o.cards
                &&& n.player_turn == o.player_turn
                &&& match m {
                    ServerMessage::RoomMsg(rm) => {
                        &&& n.room_msgs@ == o.room_msgs@.push(((o.room_msgs@.len() + 1) as u64, rm))
                        &&& n.game_events == o.game_events
                    },
                    ServerMessage::GameMsg(g) => {
                        &&& n.game_events@ == o.game_events@.push(((o.game_events@.len() + 1) as u64, event_of(g)))
                        &&& n.room_msgs == o.room_msgs
                    },
                }
            },
    {
        match outcome {
            TaskOutcome::Panicked => TaskFollowUp { start: Some(kind), scan: ScanNext::NextIndex },
            TaskOutcome::Failed(_) => TaskFollowUp { start: Some(kind), scan: ScanNext::Stop },
            TaskOutcome::Done(ctr) => match kind {
                CTaskKinds::ThrowCard(_) => TaskFollowUp { start: None, scan: ScanNext::SameIndex },
                CTaskKinds::ReadWsMsg => {
                    match ctr.read_ws_msg_v2 {
                        Some(m) => {
                            let ghost msg = m;
                            self.apply_server_msg(m);
                            proof {
                                let n = self.gamemode_state->V2Better_0;
                                let o = old(self).gamemode_state->V2Better_0;
                                if msg is RoomMsg {
                                    lemma_push_is_walk_step(o.room_msgs@, n.room_msgs@, msg->RoomMsg_0);
                                } else {
                                    lemma_push_is_walk_step(o.game_events@, n.game_events@, event_of(msg->GameMsg_0));
                                }
                            }
                        },
                        None => {
                            proof {
                                assert(false);
                            }
                        },
                    }
                    TaskFollowUp { start: None, scan: ScanNext::SameIndex }
                },
                CTaskKinds::SendFirstMsgReq => TaskFollowUp {
                    start: Some(CTaskKinds::ReadFirstMsgResp),
                    scan: ScanNext::Stop,
                },
                CTaskKinds::PingPong => TaskFollowUp { start: Some(CTaskKinds::PingPong), scan: ScanNext::Stop },
                CTaskKinds::ReadFirstMsgResp => {
                    let player_id = match ctr.rfirstmsgresp_player_id {
                        Some(p) => p,
                        None => {
                            proof {
                                assert(false);
                            }
                            0
                        },
                    };
                    self.gamemode_state = GMState::V2Better(V2BetterState {
                        player_id,
                        cards: Vec::new(),
                        player_turn: None,
                        game_events: Vec::new(),
                        room_msgs: Vec::new(),
                    });
                    TaskFollowUp { start: Some(CTaskKinds::PingPong), scan: ScanNext::SameIndex }
                },
            },
        }
    }
}


// ---------------------------------------------------------------------
// The server's address
// ---------------------------------------------------------------------

/// A server address as the URL parser reads it: its text as the parser
/// writes it back, and its host and port where it names them.
#[derive(Debug)]
pub struct ServerUrl {
    pub text: String,
    pub host: Option<String>,
    pub port: Option<u16>,
}

/// What the `url` crate makes of the text `s`: nothing when it is no
/// absolute URL; otherwise the URL written back, its host and its port,
/// where the URL names them.
pub uninterp spec fn url_parse(s: Seq<char>) -> Option<(Seq<char>, Option<Seq<char>>, Option<u16>)>;

/// Parses `s` with `url::Url::parse`, and reads of the URL its text
/// (`as_str`), its host (`host_str`) and its port (`port`). The contract
/// only names the result: which texts the parser accepts, and how it
/// writes them back, is left to the `url` crate.
#[verifier::external_body]
fn parse_url(s: &str) -> (r: Option<ServerUrl>)
    ensures
        match url_parse(s@) {
            None => r is None,
            Some((text, host, port)) => r matches Some(u) && u.text@ == text && u.port == port && match host {
                None => u.host is None,
                Some(h) => u.host matches Some(uh) && uh@ == h,
            },
        },
{
    match url::Url::parse(s) {
        Ok(u) => {
            let host = match u.host_str() {
                Some(h) => Some(h.to_string()),
                None => None,
            };
            Some(ServerUrl { text: u.as_str().to_string(), host, port: u.port() })
        },
        Err(_) => None,
    }
}

/// The endpoint a parsed address names: the URL as the parser writes it,
/// its host and its port; `None` when it names no host or no port.
pub fn endpoint_of(u: ServerUrl) -> (r: Option<(String, String, u16)>)
    ensures
        match (u.host, u.port) {
            (Some(h), Some(p)) => r matches Some((t2, h2, p2)) && t2@ == u.text@ && h2@ == h@ && p2 == p,
            _ => r is None,
        },
{
    match (u.host, u.port) {
        (Some(h), Some(p)) => Some((u.text, h, p)),
        _ => None,
    }
}

/// Where to connect for the server address `server_url`: the URL as the
/// parser writes it, its host and its port; `None` when the text is no URL
/// or names no host or no port.
pub fn server_endpoint(server_url: &String) -> (r: Option<(String, String, u16)>)
    ensures
        match url_parse(server_url@) {
            Some((text, Some(host), Some(port))) => r matches Some((t, h, p)) && t@ == text && h@ == host && p
                == port,
            _ => r is None,
        },
{
    match parse_url(server_url.as_str()) {
        Some(u) => endpoint_of(u),
        None => None,
    }
}

} // verus!
