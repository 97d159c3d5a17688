//! The small clients that test a connection to the first server: the
//! requests they send and the address they send them to. Sending and
//! showing the answers are the caller's part.

use vstd::prelude::*;
use vstd::string::StringExecFns;

use crate::shared::{
    ActionType, ClientRequestDataIsStartType, ClientRequestDataType, ClientRequestType, SERVER_PORT,
};
use crate::text::{decimal, u16_to_decimal};

verus! {

/// The messages of the test client's window: none yet but the one that
/// asks for nothing.
#[derive(Clone, Copy, Debug, PartialEq, Eq, Structural)]
pub enum PMJClientMsg {
    Idle,
}

/// The test client's window; it holds nothing yet.
#[derive(Clone, Copy, Debug, PartialEq, Eq, Structural)]
pub struct PMJClient {}

impl PMJClient {
    pub fn new() -> (r: Self)
        ensures
            r == (PMJClient {}),
    {
        PMJClient {}
    }

    /// Takes a message; none changes anything.
    pub fn update(&self, message: PMJClientMsg) {
    }

    /// Draws the window; there is nothing to draw.
    pub fn view(&self) {
    }
}

/// The address of the first server at `ip`: `http://`, the address, the
/// port and `/`.
pub fn server_url(ip: &String) -> (r: String)
    ensures
        r@ == "http://"@ + ip@ + ":"@ + decimal(SERVER_PORT as nat) + "/"@,
{
    String::from_str("http://").concat(ip.as_str()).concat(":").concat(u16_to_decimal(SERVER_PORT).as_str()).concat(
        "/",
    )
}

/// A request of the test client for `action`; a question whether the game
/// started carries the player's number `is_start_number`.
pub fn test_request(action: ActionType, is_start_number: Option<u8>, is_test_connection: bool) -> (r: ClientRequestType)
    ensures
        r.app@ == "positive_mahjong"@,
        r.client@ == "pmj-client"@,
        r.data.req_action_type == action,
        r.data.data_remove_player is None,
        r.data.data_test_connection is None,
        r.data.data_is_start == match is_start_number {
            Some(n) => Some(ClientRequestDataIsStartType { number: n }),
            None => None,
        },
        r.is_test_connection == is_test_connection,
{
    let data_is_start = match is_start_number {
        Some(n) => Some(ClientRequestDataIsStartType { number: n }),
        None => None,
    };
    ClientRequestType {
        app: String::from_str("positive_mahjong"),
        client: String::from_str("pmj-client"),
        data: ClientRequestDataType { req_action_type: action, data_is_start, ..ClientRequestDataType::default() },
        is_test_connection,
    }
}

} // verus!
