//! The server's window: its messages, and how its panels answer them.
//! Drawing, the network addresses and the game run by the caller.

use vstd::prelude::*;
use vstd::string::StringExecFns;

verus! {

/// The messages of the V2Better panel.
#[derive(Debug)]
pub enum V2BetterMsg {
    /// Send the message typed as the host's.
    SendRoomMsg,
    /// The message field now holds this text.
    TInputRoomMsgChange(String),
    StartGame,
    FetchPlayer,
}

/// The messages of the home panel.
#[derive(Clone, Copy, Debug, PartialEq, Eq, Structural)]
pub enum HomeMsg {
    StartServer,
}

/// Whether the room still waits or the game runs.
#[derive(Clone, Copy, Debug, PartialEq, Eq, Structural)]
pub enum GameStatus {
    Room,
    InGame,
}

/// The V2Better panel: the state of the game and the host's message being
/// typed.
#[derive(Debug)]
pub struct V2BetterPanel {
    pub game_status: GameStatus,
    pub tinput_room_msg: String,
}

/// What the caller does after the V2Better panel took a message.
#[derive(Debug)]
pub enum V2BetterTask {
    /// Ask the game for its players.
    FetchPlayers,
    /// Start the game; on success tell the panel.
    StartGame,
    /// Send this text as the host's message.
    SendRoomMsg(String),
    Nothing,
}

/// The panel of the Base game: its message line and whether the game was
/// started.
#[derive(Debug)]
pub struct BasePanel {
    pub msg: String,
    pub is_start: bool,
}

pub open spec fn text_need_player() -> Seq<char> {
    "至少需要一位玩家！"@
}

/// The title of the window.
pub fn title() -> (r: String)
    ensures
        r@ == "positive_mahjong - pmj_server::gui"@,
{
    String::from_str("positive_mahjong - pmj_server::gui")
}

impl V2BetterPanel {
    /// A room that waits, with no message typed.
    pub fn new() -> (r: Self)
        ensures
            r.game_status == GameStatus::Room,
            r.tinput_room_msg@.len() == 0,
    {
        V2BetterPanel { game_status: GameStatus::Room, tinput_room_msg: String::new() }
    }

    /// How the panel answers a message: typing changes the message field;
    /// sending hands the typed text to the caller and empties the field;
    /// the other two are tasks for the caller.
    pub fn update(&mut self, msg: V2BetterMsg) -> (r: V2BetterTask)
        ensures
            final(self).game_status == old(self).game_status,
            match msg {
                V2BetterMsg::TInputRoomMsgChange(t) => r is Nothing && final(self).tinput_room_msg@ == t@,
                V2BetterMsg::SendRoomMsg => (r matches V2BetterTask::SendRoomMsg(t) && t@ == old(
                    self,
                ).tinput_room_msg@) && final(self).tinput_room_msg@.len() == 0,
                V2BetterMsg::StartGame => r is StartGame && final(self).tinput_room_msg
                    == old(self).tinput_room_msg,
                V2BetterMsg::FetchPlayer => r is FetchPlayers && final(self).tinput_room_msg
                    == old(self).tinput_room_msg,
            },
    {
        match msg {
            V2BetterMsg::TInputRoomMsgChange(draft) => {
                self.tinput_room_msg = draft;
                V2BetterTask::Nothing
            },
            V2BetterMsg::SendRoomMsg => {
                let text = self.tinput_room_msg.clone();
                self.tinput_room_msg = String::new();
                V2BetterTask::SendRoomMsg(text)
            },
            V2BetterMsg::StartGame => V2BetterTask::StartGame,
            V2BetterMsg::FetchPlayer => V2BetterTask::FetchPlayers,
        }
    }

    /// The game was started.
    pub fn game_started(&mut self)
        ensures
            final(self).game_status == GameStatus::InGame,
            final(self).tinput_room_msg == old(self).tinput_room_msg,
    {
        self.game_status = GameStatus::InGame;
    }
}

impl BasePanel {
    /// A panel with no message, before the game.
    pub fn new() -> (r: Self)
        ensures
            r.msg@.len() == 0,
            !r.is_start,
    {
        BasePanel { msg: String::new(), is_start: false }
    }

    /// Asked to start the game while `player_count` players sit in the
    /// room: without a player the message line says one is needed and the
    /// answer is no; otherwise the game counts as started and the caller
    /// starts it.
    pub fn start_game(&mut self, player_count: usize) -> (go: bool)
        ensures
            go == (player_count >= 1),
            go ==> final(self).is_start && final(self).msg == old(self).msg,
            !go ==> final(self).is_start == old(self).is_start && final(self).msg@ == old(self).msg@
                + text_need_player(),
    {
        if player_count < 1 {
            self.msg.append("至少需要一位玩家！");
            false
        } else {
            self.is_start = true;
            true
        }
    }
}

} // verus!
