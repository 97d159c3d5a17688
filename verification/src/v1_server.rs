//! How the first server answers a request of its HTTP protocol. Reading the
//! request, parsing it and sending the reply are the caller's part.

use vstd::prelude::*;
use vstd::string::StringExecFns;

use crate::shared::{
    ActionType, ClientRequestType, GameModes, ServerResponseDataAddPlayerType,
    ServerResponseDataIsStartType, ServerResponseDataTestConnectionType, ServerResponseDataType,
    ServerResponseType,
};
use crate::v1_simple_mode::{answer_view, PlayerAddr, PositiveMahjong};
use crate::v1_simple_shared::Either;

verus! {

/// The game mode this server plays.
pub const CURRENT_GAMEMODE: GameModes = GameModes::V1Simple;

/// The server's reply to one request.
#[derive(Debug)]
pub enum ServerReply {
    /// An answer of the protocol, sent as JSON.
    Answer(ServerResponseType),
    /// Plain text, for a request that names another application.
    Text(String),
}

/// The name a request must carry.
pub open spec fn our_app() -> Seq<char> {
    "positive_mahjong"@
}

/// The text for a request that names another application.
pub open spec fn not_our_app_text() -> Seq<char> {
    "這是positive_mahjong的server！"@
}

/// The greeting for a client that tests the connection.
pub open spec fn greeting(client: Seq<char>) -> Seq<char> {
    "Hello to client "@ + client
}

/// The requests the server has an answer for: those of other
/// applications, connection tests, and the requests to add a player, to
/// test the connection, to take out a player (which carries the number of
/// that player) and to ask whether the game has started.
pub open spec fn request_handled(req: ClientRequestType) -> bool {
    ||| req.app@ != our_app()
    ||| req.is_test_connection
    ||| match req.data.req_action_type {
        ActionType::AddPlayer => true,
        ActionType::TestConnection => true,
        ActionType::RemovePlayer => req.data.data_remove_player is Some,
        ActionType::IsStart => true,
        _ => false,
    }
}

/// `r` is an answer for the application `app` with the message `msg`,
/// marked as an error or not, under this server's game mode.
pub open spec fn is_answer(r: ServerReply, app: Seq<char>, msg: Seq<char>, is_error: bool) -> bool {
    &&& r matches ServerReply::Answer(resp)
    &&& resp.app@ == app
    &&& resp.msg@ == msg
    &&& resp.is_error == is_error
    &&& resp.gamemode == Some(GameModes::V1Simple)
}

/// The data of an answer.
pub open spec fn answer_data(r: ServerReply) -> ServerResponseDataType {
    r->Answer_0.data
}

/// The data of an answer holds only the fields that `data_type` and the
/// options given say: the number of an added player, the message of a
/// connection test, and whether the game started.
pub open spec fn data_is(
    d: ServerResponseDataType,
    data_type: ActionType,
    add_player: Option<u8>,
    test_msg: Option<Seq<char>>,
    is_start: Option<bool>,
) -> bool {
    &&& d.data_type == data_type
    &&& match add_player {
        Some(n) => d.data_add_player == Some(ServerResponseDataAddPlayerType { number: n }),
        None => d.data_add_player is None,
    }
    &&& match test_msg {
        Some(m) => d.data_test_connection matches Some(t) && t.msg@ == m,
        None => d.data_test_connection is None,
    }
    &&& match is_start {
        Some(b) => d.data_is_start == Some(ServerResponseDataIsStartType { is_start: b }),
        None => d.data_is_start is None,
    }
}

fn answer(app: String, data: ServerResponseDataType, msg: String, is_error: bool) -> (r: ServerReply)
    ensures
        is_answer(r, app@, msg@, is_error),
        answer_data(r) == data,
{
    ServerReply::Answer(ServerResponseType { app, data, msg, is_error, gamemode: Some(CURRENT_GAMEMODE) })
}

/// Answers the request `content_data` that came from `remote_addr`, on the
/// room `backend`.
pub fn handle_request(
    backend: &mut PositiveMahjong,
    remote_addr: PlayerAddr,
    content_data: ClientRequestType,
) -> (r: ServerReply)
    requires
        old(backend).wf(),
        request_handled(content_data),
    ensures
        final(backend).wf(),
        content_data.app@ != our_app() ==> {
            &&& r matches ServerReply::Text(t) && t@ == not_our_app_text()
            &&& *final(backend) == *old(backend)
        },
        content_data.app@ == our_app() && content_data.is_test_connection ==> {
            &&& is_answer(r, content_data.app@, Seq::<char>::empty(), false)
            &&& data_is(answer_data(r), ActionType::TestConnection, None, Some(Seq::<char>::empty()), None)
            &&& *final(backend) == *old(backend)
        },
        content_data.app@ == our_app() && !content_data.is_test_connection ==> match content_data.data.req_action_type {
            ActionType::AddPlayer => {
                &&& final(backend).after_add_player(old(backend), remote_addr)
                &&& match old(backend).add_player_answer() {
                    Either::Left(e) => is_answer(r, content_data.app@, e, true) && data_is(
                        answer_data(r),
                        ActionType::AddPlayer,
                        None,
                        None,
                        None,
                    ),
                    Either::Right(n) => is_answer(r, content_data.app@, Seq::<char>::empty(), false) && data_is(
                        answer_data(r),
                        ActionType::AddPlayer,
                        Some(n),
                        None,
                        None,
                    ),
                }
            },
            ActionType::TestConnection => {
                &&& is_answer(r, content_data.app@, Seq::<char>::empty(), false)
                &&& data_is(
                    answer_data(r),
                    ActionType::TestConnection,
                    None,
                    Some(greeting(content_data.client@)),
                    None,
                )
                &&& *final(backend) == *old(backend)
            },
            ActionType::RemovePlayer => {
                let number = content_data.data.data_remove_player->0.number;
                &&& final(backend).after_remove_player(old(backend), remote_addr, number)
                &&& match old(backend).remove_player_answer(remote_addr, number) {
                    Either::Left(e) => is_answer(r, content_data.app@, e, true),
                    Either::Right(_) => is_answer(r, content_data.app@, Seq::<char>::empty(), false),
                }
                &&& data_is(answer_data(r), ActionType::RemovePlayer, None, None, None)
            },
            ActionType::IsStart => {
                &&& is_answer(r, content_data.app@, Seq::<char>::empty(), false)
                &&& data_is(answer_data(r), ActionType::IsStart, None, None, Some(old(backend).is_start))
                &&& *final(backend) == *old(backend)
            },
            _ => false,
        },
{
    proof {
        reveal_strlit("positive_mahjong");
    }
    let ours = String::from_str("positive_mahjong");
    if !(content_data.app == ours) {
        return ServerReply::Text(String::from_str("這是positive_mahjong的server！"));
    }
    if content_data.is_test_connection {
        let response_data = ServerResponseDataType {
            data_test_connection: Some(ServerResponseDataTestConnectionType { msg: String::new() }),
            ..ServerResponseDataType::default()
        };
        return answer(content_data.app, response_data, String::new(), false);
    }
    let action = content_data.data.req_action_type;
    match action {
        ActionType::AddPlayer => {
            match backend.add_player(remote_addr) {
                Either::Left(e) => {
                    let response_data = ServerResponseDataType {
                        data_add_player: None,
                        data_type: action,
                        ..ServerResponseDataType::default()
                    };
                    answer(content_data.app, response_data, e, true)
                },
                Either::Right(number) => {
                    let response_data = ServerResponseDataType {
                        data_add_player: Some(ServerResponseDataAddPlayerType { number }),
                        data_type: action,
                        ..ServerResponseDataType::default()
                    };
                    answer(content_data.app, response_data, String::new(), false)
                },
            }
        },
        ActionType::TestConnection => {
            let msg = String::from_str("Hello to client ").concat(content_data.client.as_str());
            let response_data = ServerResponseDataType {
                data_test_connection: Some(ServerResponseDataTestConnectionType { msg }),
                ..ServerResponseDataType::default()
            };
            answer(content_data.app, response_data, String::new(), false)
        },
        ActionType::RemovePlayer => {
            let number = match content_data.data.data_remove_player {
                Some(d) => d.number,
                None => {
                    proof {
                        assert(false);
                    }
                    0
                },
            };
            match backend.remove_player(remote_addr, number) {
                Either::Left(e) => {
                    let response_data = ServerResponseDataType {
                        data_add_player: None,
                        data_type: action,
                        ..ServerResponseDataType::default()
                    };
                    answer(content_data.app, response_data, e, true)
                },
                Either::Right(_) => {
                    let response_data = ServerResponseDataType {
                        data_type: action,
                        ..ServerResponseDataType::default()
                    };
                    answer(content_data.app, response_data, String::new(), false)
                },
            }
        },
        ActionType::IsStart => {
            let is_start = backend.is_start();
            answer(
                content_data.app,
                ServerResponseDataType {
                    data_type: action,
                    data_is_start: Some(ServerResponseDataIsStartType { is_start }),
                    ..ServerResponseDataType::default()
                },
                String::new(),
                false,
            )
        },
        _ => {
            proof {
                assert(false);
            }
            ServerReply::Text(String::new())
        },
    }
}

/// What the server does with the game mode of its configuration.
#[derive(Debug)]
pub enum StartPlan {
    /// Run the V1Simple game.
    RunV1Simple,
    /// The mode is not supported yet; this text says so.
    NotSupported(String),
}

/// The server runs the V1Simple game; for the other modes it only says
/// that they are not supported yet.
pub fn start_plan(gamemode: crate::pmj_shared::GameModes) -> (r: StartPlan)
    ensures
        gamemode == crate::pmj_shared::GameModes::V1Simple ==> r is RunV1Simple,
        gamemode != crate::pmj_shared::GameModes::V1Simple ==> (r matches StartPlan::NotSupported(t)
            && t@ == "還未支援"@),
{
    match gamemode {
        crate::pmj_shared::GameModes::V1Simple => StartPlan::RunV1Simple,
        _ => StartPlan::NotSupported(String::from_str("還未支援")),
    }
}

/// The answer of the Base websocket server to a text message: the text,
/// after `伺服器收到：`.
pub fn echo_reply(text: &str) -> (r: String)
    ensures
        r@ == "伺服器收到："@ + text@,
{
    String::from_str("伺服器收到：").concat(text)
}

} // verus!
