//! The first client: its scenes, the messages of its interface, and how
//! its home page answers them. Drawing and the connection are the caller's
//! part.

use vstd::prelude::*;
use vstd::string::{StrSliceExecFns, StringExecFns};

use crate::client_desktop::{drop_last_char, is_backspace_key, is_erase_key};
use crate::pmj_shared::{ClientFirstConnectType, ServerFirstConnectType};

verus! {

/// The scenes of the client.
#[derive(Clone, Copy, Debug, PartialEq, Eq, Structural)]
pub enum ClientScenes {
    Home,
    PlayBase,
}

/// The home page: the server address typed so far, and whether a
/// connection is being tried.
#[derive(Debug)]
pub struct HomeStatus {
    pub server_ip: String,
    pub try_connecting_server: bool,
}

/// The messages of the interface.
#[derive(Debug)]
pub enum UIMessage {
    NotThing,
    LoadFont,
    Home(HomeMessage),
}

/// The messages of the home page.
#[derive(Debug)]
pub enum HomeMessage {
    InputServerIpChanged(String),
    VSoftKeyBoardInput(String),
    ConnectServer,
    FirstMsg,
}

/// What the caller does after the home page took a message.
#[derive(Clone, Copy, Debug, PartialEq, Eq, Structural)]
pub enum HomeTask {
    /// Nothing.
    Nothing,
    /// Connect to the server at the address typed.
    Connect,
    /// Send the first message and read the answer.
    SendFirstMsg,
}

/// The title of the window.
pub fn title() -> (r: String)
    ensures
        r@ == "pmj_client"@,
{
    String::from_str("pmj_client")
}

/// The first message the client sends.
pub fn first_msg() -> (r: ClientFirstConnectType)
    ensures
        r.app_name@ == "positive_mahjong"@,
        r.client@ == "pmj_client"@,
{
    ClientFirstConnectType {
        app_name: String::from_str("positive_mahjong"),
        client: String::from_str("pmj_client"),
    }
}

/// The player number the client keeps once the server answered its first
/// message with `reply`: the number the answer carries, or, when it carries
/// none, the number it had before.
pub fn player_id_after_first_reply(current: Option<u8>, reply: &ServerFirstConnectType) -> (r: Option<u8>)
    ensures
        r == if reply.player_id is Some {
            reply.player_id
        } else {
            current
        },
{
    match reply.player_id {
        Some(id) => Some(id),
        None => current,
    }
}

impl HomeStatus {
    /// An empty home page.
    pub fn new() -> (r: Self)
        ensures
            r.server_ip@.len() == 0,
            !r.try_connecting_server,
    {
        HomeStatus { server_ip: String::new(), try_connecting_server: false }
    }

    /// How the home page answers a message: the address field takes the
    /// new text, a key of the on-screen keyboard erases the last character
    /// or adds the key, and the other two messages are tasks for the
    /// caller.
    pub fn update(&mut self, msg: HomeMessage) -> (r: HomeTask)
        ensures
            final(self).try_connecting_server == old(self).try_connecting_server,
            match msg {
                HomeMessage::InputServerIpChanged(ip) => r == HomeTask::Nothing && final(self).server_ip@
                    == ip@,
                HomeMessage::VSoftKeyBoardInput(key) => r == HomeTask::Nothing && final(self).server_ip@
                    == if is_erase_key(key@) {
                    drop_last_char(old(self).server_ip@)
                } else {
                    old(self).server_ip@ + key@
                },
                HomeMessage::ConnectServer => r == HomeTask::Connect && final(self).server_ip
                    == old(self).server_ip,
                HomeMessage::FirstMsg => r == HomeTask::SendFirstMsg && final(self).server_ip
                    == old(self).server_ip,
            },
    {
        match msg {
            HomeMessage::InputServerIpChanged(server_ip) => {
                self.server_ip = server_ip;
                HomeTask::Nothing
            },
            HomeMessage::VSoftKeyBoardInput(key) => {
                if is_backspace_key(&key) {
                    let n = self.server_ip.as_str().unicode_len();
                    if n > 0 {
                        let kept = String::from_str(self.server_ip.as_str().substring_char(0, n - 1));
                        self.server_ip = kept;
                    }
                } else {
                    self.server_ip.append(key.as_str());
                }
                HomeTask::Nothing
            },
            HomeMessage::ConnectServer => HomeTask::Connect,
            HomeMessage::FirstMsg => HomeTask::SendFirstMsg,
        }
    }
}

} // verus!
