//! The desktop client: its scenes, the messages of its interface, and how
//! the home page answers them. Drawing the interface and the connection are
//! the caller's part.

use vstd::prelude::*;
use vstd::string::{StrSliceExecFns, StringExecFns};

use crate::client_core::{err_kind_name, CCError};
use crate::v2_better_shared::PMJCard;

verus! {

/// The scenes of the client.
#[derive(Clone, Copy, Debug, PartialEq, Eq, Structural)]
pub enum ClientScenes {
    Home,
    PlayV2Better,
}

/// A background job that runs once.
#[derive(Clone, Copy, Debug, PartialEq, Eq, Structural)]
pub enum OnceState {
    NotYet,
    Running,
    Finish,
    WaitReRun,
}

/// What the player can do in a V2Better game.
#[derive(Clone, Copy, Debug, PartialEq, Eq, Structural)]
pub enum PlayV2BetterController {
    NoCtrl,
    ThrowCard,
}

/// The home page: the server address typed so far, whether a connection
/// is being tried, and the messages shown.
#[derive(Debug)]
pub struct HomeStatus {
    pub server_ip: String,
    pub try_connecting_server: bool,
    pub msgs: Vec<String>,
    pub connect_msg: Option<String>,
    pub read_first_msg_resp: OnceState,
}

/// The page of a V2Better game.
#[derive(Debug)]
pub struct PlayV2BetterStatus {
    pub server_ip: Option<String>,
    pub is_start: Option<bool>,
    pub hand_cards: Vec<PMJCard>,
    pub game_msgs: Vec<String>,
    pub game_controller: PlayV2BetterController,
    pub current_turn: Option<u8>,
}

/// The messages of the interface.
#[derive(Debug)]
pub enum UIMessage {
    Home(HomeMessage),
    PlayV2Better(PlayV2BetterMsg),
    CCoreProcessTask,
}

/// The messages of the home page.
#[derive(Debug)]
pub enum HomeMessage {
    /// The address field now holds this text.
    InputServerIpChanged(String),
    /// A key of the on-screen keyboard was pressed.
    VSoftKeyBoardInput(String),
    ConnectServer,
}

/// The messages of the game page.
#[derive(Clone, Copy, Debug)]
pub enum PlayV2BetterMsg {
    ThrowCard(PMJCard),
}

/// What the home page asks of the caller after a message.
#[derive(Debug)]
pub enum HomeEffect {
    Nothing,
    /// Connect to the server at this address.
    Connect(String),
}

pub open spec fn text_busy() -> Seq<char> {
    "已有正在嘗試連接的伺服器！"@
}

pub open spec fn text_no_address() -> Seq<char> {
    "未輸入伺服器地址！"@
}

/// The icon that the on-screen keyboard shows for its erase key.
pub open spec fn erase_icon() -> Seq<char> {
    seq!['\u{e14a}']
}

/// A key of the on-screen keyboard that erases the last character.
pub open spec fn is_erase_key(key: Seq<char>) -> bool {
    key == "backspace"@ || key == erase_icon()
}

/// The text without its last character (the empty text stays empty).
pub open spec fn drop_last_char(s: Seq<char>) -> Seq<char> {
    if s.len() == 0 {
        s
    } else {
        s.drop_last()
    }
}

/// Only the word `backspace` and the erase icon erase: every other key of
/// one character, whatever the character (the digits, the letters, `:`,
/// `[`, `]`, `.` and `/` among them), is typed into the address.
pub proof fn lemma_only_backspace_erases(c: char)
    ensures
        is_erase_key("backspace"@),
        is_erase_key(seq!['\u{e14a}']),
        c != '\u{e14a}' ==> !is_erase_key(seq![c]),
{
    reveal_strlit("backspace");
    if c != '\u{e14a}' {
        assert(seq![c].len() != "backspace"@.len());
        assert(seq![c][0] != erase_icon()[0]);
    }
}

/// Pressing the erase key right after a key of one character gives back
/// the address as it was before the key.
pub proof fn lemma_erase_undoes_key(before: Seq<char>, key: Seq<char>)
    requires
        key.len() == 1,
        !is_erase_key(key),
    ensures
        is_erase_key("backspace"@),
        drop_last_char(before + key) == before,
{
    assert((before + key).drop_last() =~= before);
}

/// Whether `key` is the erase key of the on-screen keyboard.
pub fn is_backspace_key(key: &String) -> (r: bool)
    ensures
        r == is_erase_key(key@),
{
    let backspace = String::from_str("backspace");
    let icon = String::from_str("\u{e14a}");
    proof {
        reveal_strlit("\u{e14a}");
        assert(icon@ =~= erase_icon());
    }
    *key == backspace || *key == icon
}

/// The text on a key of the on-screen keyboard: the erase icon for the
/// erase key, the key itself otherwise.
pub fn vsoft_key_label(key: &String) -> (r: String)
    ensures
        is_erase_key(key@) ==> r@ == erase_icon(),
        !is_erase_key(key@) ==> r@ == key@,
{
    if is_backspace_key(key) {
        proof {
            reveal_strlit("\u{e14a}");
        }
        String::from_str("\u{e14a}")
    } else {
        key.clone()
    }
}

/// The keys of the on-screen keyboard, in order: the digits, the lower-case
/// letters, `:`, `[`, `]`, `.`, `/` and the erase key.
pub fn vsoft_keys() -> (r: Vec<String>)
    ensures
        r@.len() == 42,
        forall|i: int| 0 <= i < 10 ==> (#[trigger] r@[i])@ == seq![('0' as u8 + i) as char],
        forall|i: int| 10 <= i < 36 ==> (#[trigger] r@[i])@ == seq![('a' as u8 + (i - 10)) as char],
        r@[36]@ == ":"@,
        r@[37]@ == "["@,
        r@[38]@ == "]"@,
        r@[39]@ == "."@,
        r@[40]@ == "/"@,
        r@[41]@ == "backspace"@,
{
    let mut keys: Vec<String> = Vec::new();
    let digits = "0123456789abcdefghijklmnopqrstuvwxyz";
    proof {
        reveal_strlit("0123456789abcdefghijklmnopqrstuvwxyz");
    }
    let mut i: usize = 0;
    while i < 36
        invariant
            digits@ == "0123456789abcdefghijklmnopqrstuvwxyz"@,
            digits@.len() == 36,
            i <= 36,
            keys@.len() == i,
            forall|k: int| 0 <= k < i ==> (#[trigger] keys@[k])@ == seq![digits@[k]],
        decreases 36 - i,
    {
        keys.push(String::from_str(digits.substring_char(i, i + 1)));
        proof {
            assert(digits@.subrange(i as int, i + 1) =~= seq![digits@[i as int]]);
        }
        i = i + 1;
    }
    keys.push(String::from_str(":"));
    keys.push(String::from_str("["));
    keys.push(String::from_str("]"));
    keys.push(String::from_str("."));
    keys.push(String::from_str("/"));
    keys.push(String::from_str("backspace"));
    proof {
        assert forall|k: int| 0 <= k < 10 implies (#[trigger] keys@[k])@ == seq![('0' as u8 + k) as char] by {
            assert(keys@[k]@ == seq![digits@[k]]);
        }
        assert forall|k: int| 10 <= k < 36 implies (#[trigger] keys@[k])@ == seq![('a' as u8 + (k - 10)) as char] by {
            assert(keys@[k]@ == seq![digits@[k]]);
        }
    }
    keys
}

/// The title of the window.
pub fn title() -> (r: String)
    ensures
        r@ == "positive_mahjong - pmj_client_desktop"@,
{
    String::from_str("positive_mahjong - pmj_client_desktop")
}

impl HomeStatus {
    /// An empty home page.
    pub fn new() -> (r: Self)
        ensures
            r.server_ip@.len() == 0,
            !r.try_connecting_server,
            r.msgs@.len() == 0,
            r.connect_msg is None,
            r.read_first_msg_resp == OnceState::NotYet,
    {
        HomeStatus {
            server_ip: String::new(),
            try_connecting_server: false,
            msgs: Vec::new(),
            connect_msg: None,
            read_first_msg_resp: OnceState::NotYet,
        }
    }

    /// How the home page answers a message. While a connection is being
    /// tried the address cannot change and asking again only adds a
    /// message; without an address, connecting adds a message; otherwise
    /// connecting starts, and the caller connects to the address.
    pub fn update(&mut self, msg: HomeMessage) -> (r: HomeEffect)
        ensures
            final(self).connect_msg == old(self).connect_msg,
            final(self).read_first_msg_resp == old(self).read_first_msg_resp,
            match msg {
                HomeMessage::InputServerIpChanged(ip) => {
                    &&& r is Nothing
                    &&& final(self).try_connecting_server == old(self).try_connecting_server
                    &&& if old(self).try_connecting_server {
                        &&& final(self).server_ip@ == old(self).server_ip@
                        &&& final(self).msgs@.len() == old(self).msgs@.len() + 1
                        &&& final(self).msgs@.drop_last() == old(self).msgs@
                        &&& final(self).msgs@.last()@ == text_busy()
                    } else {
                        &&& final(self).server_ip@ == ip@
                        &&& final(self).msgs@ == old(self).msgs@
                    }
                },
                HomeMessage::VSoftKeyBoardInput(key) => {
                    &&& r is Nothing
                    &&& final(self).try_connecting_server == old(self).try_connecting_server
                    &&& if old(self).try_connecting_server {
                        &&& final(self).server_ip@ == old(self).server_ip@
                        &&& final(self).msgs@.len() == old(self).msgs@.len() + 1
                        &&& final(self).msgs@.drop_last() == old(self).msgs@
                        &&& final(self).msgs@.last()@ == text_busy()
                    } else {
                        &&& final(self).server_ip@ == if is_erase_key(key@) {
                            drop_last_char(old(self).server_ip@)
                        } else {
                            old(self).server_ip@ + key@
                        }
                        &&& final(self).msgs@ == old(self).msgs@
                    }
                },
                HomeMessage::ConnectServer => {
                    &&& final(self).server_ip@ == old(self).server_ip@
                    &&& if old(self).server_ip@.len() == 0 || old(self).try_connecting_server {
                        &&& r is Nothing
                        &&& final(self).try_connecting_server == old(self).try_connecting_server
                        &&& final(self).msgs@.len() == old(self).msgs@.len() + 1
                        &&& final(self).msgs@.drop_last() == old(self).msgs@
                        &&& final(self).msgs@.last()@ == if old(self).server_ip@.len() == 0 {
                            text_no_address()
                        } else {
                            text_busy()
                        }
                    } else {
                        &&& r matches HomeEffect::Connect(addr) && addr@ == old(self).server_ip@
                        &&& final(self).try_connecting_server
                        &&& final(self).msgs@ == old(self).msgs@
                    }
                },
            },
    {
        match msg {
            HomeMessage::InputServerIpChanged(server_ip) => {
                if self.try_connecting_server {
                    self.push_msg(String::from_str("已有正在嘗試連接的伺服器！"));
                } else {
                    self.server_ip = server_ip;
                }
                HomeEffect::Nothing
            },
            HomeMessage::VSoftKeyBoardInput(key) => {
                if self.try_connecting_server {
                    self.push_msg(String::from_str("已有正在嘗試連接的伺服器！"));
                } else if is_backspace_key(&key) {
                    let n = self.server_ip.as_str().unicode_len();
                    if n > 0 {
                        let kept = String::from_str(self.server_ip.as_str().substring_char(0, n - 1));
                        self.server_ip = kept;
                    }
                } else {
                    self.server_ip.append(key.as_str());
                }
                HomeEffect::Nothing
            },
            HomeMessage::ConnectServer => {
                if self.server_ip.as_str().unicode_len() == 0 {
                    self.push_msg(String::from_str("未輸入伺服器地址！"));
                    HomeEffect::Nothing
                } else if self.try_connecting_server {
                    self.push_msg(String::from_str("已有正在嘗試連接的伺服器！"));
                    HomeEffect::Nothing
                } else {
                    self.try_connecting_server = true;
                    HomeEffect::Connect(self.server_ip.clone())
                }
            },
        }
    }

    fn push_msg(&mut self, m: String)
        ensures
            final(self).msgs@ == old(self).msgs@.push(m),
            final(self).server_ip == old(self).server_ip,
            final(self).try_connecting_server == old(self).try_connecting_server,
            final(self).connect_msg == old(self).connect_msg,
            final(self).read_first_msg_resp == old(self).read_first_msg_resp,
    {
        self.msgs.push(m);
    }

    /// Connecting failed with `e`: the page says so.
    pub fn connect_failed(&mut self, e: CCError)
        ensures
            final(self).msgs@.len() == old(self).msgs@.len() + 1,
            final(self).msgs@.drop_last() == old(self).msgs@,
            final(self).msgs@.last()@ == "update: CCError: "@ + err_kind_name(e.kind),
            final(self).server_ip == old(self).server_ip,
            final(self).try_connecting_server == old(self).try_connecting_server,
            final(self).connect_msg == old(self).connect_msg,
            final(self).read_first_msg_resp == old(self).read_first_msg_resp,
    {
        let text = String::from_str("update: ").concat(e.to_string().as_str());
        proof {
            assert("update: "@ + ("CCError: "@ + err_kind_name(e.kind)) =~= "update: CCError: "@
                + err_kind_name(e.kind)) by {
                reveal_strlit("update: ");
                reveal_strlit("CCError: ");
                reveal_strlit("update: CCError: ");
            }
        }
        self.push_msg(text);
        proof {
            assert(self.msgs@.drop_last() =~= old(self).msgs@);
        }
    }
}

impl PlayV2BetterStatus {
    /// The game page before anything is known.
    pub fn new() -> (r: Self)
        ensures
            r.server_ip is None,
            r.is_start is None,
            r.hand_cards@.len() == 0,
            r.game_msgs@.len() == 0,
            r.game_controller == PlayV2BetterController::NoCtrl,
            r.current_turn is None,
    {
        PlayV2BetterStatus {
            server_ip: None,
            is_start: None,
            hand_cards: Vec::new(),
            game_msgs: Vec::new(),
            game_controller: PlayV2BetterController::NoCtrl,
            current_turn: None,
        }
    }
}

} // verus!
