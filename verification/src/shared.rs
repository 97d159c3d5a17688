//! The request protocol of the first server: the requests clients send
//! over HTTP and the replies they get.

use vstd::prelude::*;
use vstd::string::StringExecFns;

use crate::text::{decimal, u8_to_decimal};

verus! {

/// The port the server listens on.
pub const SERVER_PORT: u16 = 6060;

/// A request from a client.
#[derive(Debug)]
pub struct ClientRequestType {
    /// Must be `positive_mahjong`, or the request is refused.
    pub app: String,
    /// The name of the client program; anything goes.
    pub client: String,
    pub data: ClientRequestDataType,
    pub is_test_connection: bool,
}

impl Default for ClientRequestType {
    fn default() -> (r: Self)
        ensures
            r.app@ == "positive_mahjong"@,
            r.client@ == "pmj_client"@,
            r.data.req_action_type == ActionType::TestConnection,
            r.data.data_remove_player is None,
            r.data.data_test_connection is None,
            r.data.data_is_start is None,
            r.is_test_connection,
    {
        ClientRequestType {
            app: String::from_str("positive_mahjong"),
            client: String::from_str("pmj_client"),
            data: ClientRequestDataType::default(),
            is_test_connection: true,
        }
    }
}

/// What a request asks for.
#[derive(Clone, Copy, Debug, PartialEq, Eq, Structural)]
pub enum ActionType {
    AddPlayer,
    RemovePlayer,
    TestConnection,
    IsStart,
    SendGameAction,
    SyncGameStatus,
}

pub open spec fn action_name(a: ActionType) -> Seq<char> {
    match a {
        ActionType::AddPlayer => "新增玩家 (AddPlayer)"@,
        ActionType::RemovePlayer => "刪除玩家 (RemovePlayer)"@,
        ActionType::TestConnection => "測試連線 (TestConnection)"@,
        ActionType::IsStart => "是否開始 (IsStart)"@,
        ActionType::SendGameAction => "遊戲動作 (SendGameAction)"@,
        ActionType::SyncGameStatus => "同步遊戲資料 (SyncGameStatus)"@,
    }
}

impl ActionType {
    pub fn to_string(&self) -> (r: String)
        ensures
            r@ == action_name(*self),
    {
        String::from_str(
            match self {
                ActionType::AddPlayer => "新增玩家 (AddPlayer)",
                ActionType::RemovePlayer => "刪除玩家 (RemovePlayer)",
                ActionType::TestConnection => "測試連線 (TestConnection)",
                ActionType::IsStart => "是否開始 (IsStart)",
                ActionType::SendGameAction => "遊戲動作 (SendGameAction)",
                ActionType::SyncGameStatus => "同步遊戲資料 (SyncGameStatus)",
            },
        )
    }
}

/// The data of a request; the field that matches `req_action_type` is
/// filled.
#[derive(Clone, Copy, Debug)]
pub struct ClientRequestDataType {
    pub req_action_type: ActionType,
    pub data_remove_player: Option<ClientRequestDataRemovePlayerType>,
    pub data_test_connection: Option<ClientRequestDataTestConnectionType>,
    pub data_is_start: Option<ClientRequestDataIsStartType>,
}

impl Default for ClientRequestDataType {
    fn default() -> (r: Self)
        ensures
            r.req_action_type == ActionType::TestConnection,
            r.data_remove_player is None,
            r.data_test_connection is None,
            r.data_is_start is None,
    {
        ClientRequestDataType {
            req_action_type: ActionType::TestConnection,
            data_remove_player: None,
            data_test_connection: None,
            data_is_start: None,
        }
    }
}

#[derive(Clone, Copy, Debug, PartialEq, Eq, Structural)]
pub struct ClientRequestDataRemovePlayerType {
    pub number: u8,
}

#[derive(Clone, Copy, Debug, PartialEq, Eq, Structural)]
pub struct ClientRequestDataTestConnectionType {
    pub number: u8,
}

#[derive(Clone, Copy, Debug, PartialEq, Eq, Structural)]
pub struct ClientRequestDataIsStartType {
    pub number: u8,
}

impl ClientRequestDataRemovePlayerType {
    pub fn to_string(&self) -> (r: String)
        ensures
            r@ == "ClientRequestDataRemovePlayerType { number: "@ + decimal(self.number as nat)
                + " }"@,
    {
        String::from_str("ClientRequestDataRemovePlayerType { number: ").concat(
            u8_to_decimal(self.number).as_str(),
        ).concat(" }")
    }
}

impl ClientRequestDataTestConnectionType {
    pub fn to_string(&self) -> (r: String)
        ensures
            r@ == "ClientRequestDataTestConnectionType { number: "@ + decimal(self.number as nat)
                + " }"@,
    {
        String::from_str("ClientRequestDataTestConnectionType { number: ").concat(
            u8_to_decimal(self.number).as_str(),
        ).concat(" }")
    }
}

#[derive(Clone, Copy, Debug, PartialEq, Eq, Structural)]
pub struct ServerResponseDataAddPlayerType {
    pub number: u8,
}

#[derive(Clone, Copy, Debug, PartialEq, Eq, Structural)]
pub struct ServerResponseDataIsStartType {
    pub is_start: bool,
}

#[derive(Clone, Debug)]
pub struct ServerResponseDataTestConnectionType {
    pub msg: String,
}

/// A reply of the server.
#[derive(Debug)]
pub struct ServerResponseType {
    /// The name of the application, as the request gave it.
    pub app: String,
    pub data: ServerResponseDataType,
    /// A message, mostly when something went wrong.
    pub msg: String,
    pub is_error: bool,
    /// The game mode, once the game has started.
    pub gamemode: Option<GameModes>,
}

/// The game modes of the first server.
#[derive(Clone, Copy, Debug, PartialEq, Eq, Structural)]
pub enum GameModes {
    V1Simple,
    V2Better,
}

/// The data of a reply; the field that matches `data_type` is filled.
#[derive(Debug)]
pub struct ServerResponseDataType {
    pub data_add_player: Option<ServerResponseDataAddPlayerType>,
    pub data_test_connection: Option<ServerResponseDataTestConnectionType>,
    pub data_is_start: Option<ServerResponseDataIsStartType>,
    pub data_type: ActionType,
}

impl Default for ServerResponseDataType {
    fn default() -> (r: Self)
        ensures
            r.data_add_player is None,
            r.data_test_connection is None,
            r.data_is_start is None,
            r.data_type == ActionType::TestConnection,
    {
        ServerResponseDataType {
            data_add_player: None,
            data_test_connection: None,
            data_is_start: None,
            data_type: ActionType::TestConnection,
        }
    }
}


// ---------------------------------------------------------------------
// Requests as text
// ---------------------------------------------------------------------

/// The name of a request kind as the debug output writes it.
pub open spec fn action_variant(a: ActionType) -> Seq<char> {
    match a {
        ActionType::AddPlayer => "AddPlayer"@,
        ActionType::RemovePlayer => "RemovePlayer"@,
        ActionType::TestConnection => "TestConnection"@,
        ActionType::IsStart => "IsStart"@,
        ActionType::SendGameAction => "SendGameAction"@,
        ActionType::SyncGameStatus => "SyncGameStatus"@,
    }
}

/// A value that carries a player's number, as text: the name of its
/// kind, then the number.
pub open spec fn number_text(kind: Seq<char>, n: u8) -> Seq<char> {
    kind + " { number: "@ + decimal(n as nat) + " }"@
}

/// An optional value as the debug output writes it.
pub open spec fn option_text(o: Option<Seq<char>>) -> Seq<char> {
    match o {
        Some(t) => "Some("@ + t + ")"@,
        None => "None"@,
    }
}

/// The optional number `o` of a value of the kind named `kind`, as the
/// debug output writes it.
pub open spec fn number_option_text(kind: Seq<char>, o: Option<u8>) -> Seq<char> {
    match o {
        Some(n) => option_text(Some(number_text(kind, n))),
        None => option_text(None),
    }
}

/// The data of a request as the debug output writes it.
pub open spec fn data_debug_text(d: ClientRequestDataType) -> Seq<char> {
    "ClientRequestDataType { req_action_type: "@ + action_variant(d.req_action_type)
        + ", data_remove_player: "@ + number_option_text(
        "ClientRequestDataRemovePlayerType"@,
        match d.data_remove_player {
            Some(x) => Some(x.number),
            None => None,
        },
    ) + ", data_test_connection: "@ + number_option_text(
        "ClientRequestDataTestConnectionType"@,
        match d.data_test_connection {
            Some(x) => Some(x.number),
            None => None,
        },
    ) + ", data_is_start: "@ + number_option_text(
        "ClientRequestDataIsStartType"@,
        match d.data_is_start {
            Some(x) => Some(x.number),
            None => None,
        },
    ) + " }"@
}

/// The data of a request as text: its kind, and the numbers for taking out
/// a player and for testing the connection.
pub open spec fn data_text(d: ClientRequestDataType) -> Seq<char> {
    "ClientRequestDataType\n    req_type: "@ + action_name(d.req_action_type) + "\n    data_remove_player: "@
        + number_option_text(
        "ClientRequestDataRemovePlayerType"@,
        match d.data_remove_player {
            Some(x) => Some(x.number),
            None => None,
        },
    ) + "\n    data_test_connection: "@ + number_option_text(
        "ClientRequestDataTestConnectionType"@,
        match d.data_test_connection {
            Some(x) => Some(x.number),
            None => None,
        },
    )
}

fn number_string(kind: &str, n: u8) -> (r: String)
    ensures
        r@ == number_text(kind@, n),
{
    String::from_str(kind).concat(" { number: ").concat(u8_to_decimal(n).as_str()).concat(" }")
}

fn number_option_string(kind: &str, o: Option<u8>) -> (r: String)
    ensures
        r@ == number_option_text(kind@, o),
{
    match o {
        Some(n) => String::from_str("Some(").concat(number_string(kind, n).as_str()).concat(")"),
        None => String::from_str("None"),
    }
}

impl ActionType {
    /// The name of the request kind as the debug output writes it.
    pub fn variant_string(&self) -> (r: String)
        ensures
            r@ == action_variant(*self),
    {
        String::from_str(
            match self {
                ActionType::AddPlayer => "AddPlayer",
                ActionType::RemovePlayer => "RemovePlayer",
                ActionType::TestConnection => "TestConnection",
                ActionType::IsStart => "IsStart",
                ActionType::SendGameAction => "SendGameAction",
                ActionType::SyncGameStatus => "SyncGameStatus",
            },
        )
    }
}

impl ClientRequestDataType {
    /// The data as the debug output writes it.
    pub fn debug_string(&self) -> (r: String)
        ensures
            r@ == data_debug_text(*self),
    {
        let remove = match self.data_remove_player {
            Some(x) => Some(x.number),
            None => None,
        };
        let test = match self.data_test_connection {
            Some(x) => Some(x.number),
            None => None,
        };
        let start = match self.data_is_start {
            Some(x) => Some(x.number),
            None => None,
        };
        String::from_str("ClientRequestDataType { req_action_type: ").concat(
            self.req_action_type.variant_string().as_str(),
        ).concat(", data_remove_player: ").concat(
            number_option_string("ClientRequestDataRemovePlayerType", remove).as_str(),
        ).concat(", data_test_connection: ").concat(
            number_option_string("ClientRequestDataTestConnectionType", test).as_str(),
        ).concat(", data_is_start: ").concat(
            number_option_string("ClientRequestDataIsStartType", start).as_str(),
        ).concat(" }")
    }

    /// The data as text: its kind, and the numbers for taking out a player
    /// and for testing the connection.
    pub fn to_string(&self) -> (r: String)
        ensures
            r@ == data_text(*self),
    {
        let remove = match self.data_remove_player {
            Some(x) => Some(x.number),
            None => None,
        };
        let test = match self.data_test_connection {
            Some(x) => Some(x.number),
            None => None,
        };
        String::from_str("ClientRequestDataType\n    req_type: ").concat(
            self.req_action_type.to_string().as_str(),
        ).concat("\n    data_remove_player: ").concat(
            number_option_string("ClientRequestDataRemovePlayerType", remove).as_str(),
        ).concat("\n    data_test_connection: ").concat(
            number_option_string("ClientRequestDataTestConnectionType", test).as_str(),
        )
    }
}

impl ClientRequestType {
    /// The request as text: the application, the client and the data.
    pub fn to_string(&self) -> (r: String)
        ensures
            r@ == "ClientRequstType\n    app: "@ + self.app@ + "\n    client: "@ + self.client@
                + "\n    data: "@ + data_debug_text(self.data),
    {
        String::from_str("ClientRequstType\n    app: ").concat(self.app.as_str()).concat(
            "\n    client: ",
        ).concat(self.client.as_str()).concat("\n    data: ").concat(self.data.debug_string().as_str())
    }
}

} // verus!
