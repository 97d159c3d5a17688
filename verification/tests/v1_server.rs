use positive_mahjong::pmj_shared::GameModes as ConfigModes;
use positive_mahjong::pmj_shared::{
    ActionType as OldAction, ClientRequestDataTestConnectionType, OldClientRequestType,
};
use positive_mahjong::shared::{ClientRequestDataIsStartType, ClientRequestDataType};
use positive_mahjong::shared::{
    ActionType, ClientRequestDataRemovePlayerType, ClientRequestType, GameModes,
};
use positive_mahjong::test_client::{server_url, test_request, PMJClient, PMJClientMsg};
use positive_mahjong::v1_server::{echo_reply, handle_request, start_plan, ServerReply, StartPlan};
use positive_mahjong::v1_simple_mode::{PlayerAddr, PositiveMahjong};

fn addr(n: u128) -> PlayerAddr {
    PlayerAddr { is_v6: true, ip: n, port: 1 }
}

fn request(action: ActionType) -> ClientRequestType {
    let mut r = ClientRequestType::default();
    r.is_test_connection = false;
    r.data.req_action_type = action;
    r
}

#[test]
fn other_applications_get_text() {
    let mut g = PositiveMahjong::new();
    let mut r = ClientRequestType::default();
    r.app = String::from("not_mahjong");
    match handle_request(&mut g, addr(1), r) {
        ServerReply::Text(t) => assert_eq!(t, "這是positive_mahjong的server！"),
        _ => panic!("expected text"),
    }
}

#[test]
fn connection_tests() {
    let mut g = PositiveMahjong::new();
    match handle_request(&mut g, addr(1), ClientRequestType::default()) {
        ServerReply::Answer(a) => {
            assert_eq!(a.app, "positive_mahjong");
            assert!(!a.is_error);
            assert_eq!(a.msg, "");
            assert_eq!(a.gamemode, Some(GameModes::V1Simple));
            assert_eq!(a.data.data_test_connection.unwrap().msg, "");
            assert_eq!(a.data.data_type, ActionType::TestConnection);
        }
        _ => panic!("expected an answer"),
    }
    let mut r = request(ActionType::TestConnection);
    r.client = String::from("pmj-client");
    match handle_request(&mut g, addr(1), r) {
        ServerReply::Answer(a) => {
            assert_eq!(a.data.data_test_connection.unwrap().msg, "Hello to client pmj-client");
            assert!(a.data.data_add_player.is_none());
        }
        _ => panic!("expected an answer"),
    }
}

#[test]
fn adding_and_removing_players() {
    let mut g = PositiveMahjong::new();
    for k in 1..=4u8 {
        match handle_request(&mut g, addr(k as u128), request(ActionType::AddPlayer)) {
            ServerReply::Answer(a) => {
                assert!(!a.is_error);
                assert_eq!(a.data.data_add_player.unwrap().number, k);
                assert_eq!(a.data.data_type, ActionType::AddPlayer);
            }
            _ => panic!("expected an answer"),
        }
    }
    match handle_request(&mut g, addr(5), request(ActionType::AddPlayer)) {
        ServerReply::Answer(a) => {
            assert!(a.is_error);
            assert_eq!(a.msg, "人數已達上限！");
            assert!(a.data.data_add_player.is_none());
        }
        _ => panic!("expected an answer"),
    }
    let mut r = request(ActionType::RemovePlayer);
    r.data.data_remove_player = Some(ClientRequestDataRemovePlayerType { number: 3 });
    match handle_request(&mut g, addr(3), r) {
        ServerReply::Answer(a) => {
            assert!(!a.is_error);
            assert_eq!(a.data.data_type, ActionType::RemovePlayer);
        }
        _ => panic!("expected an answer"),
    }
    assert_eq!(g.players.len(), 3);
    let mut r = request(ActionType::RemovePlayer);
    r.data.data_remove_player = Some(ClientRequestDataRemovePlayerType { number: 3 });
    match handle_request(&mut g, addr(3), r) {
        ServerReply::Answer(a) => {
            assert!(a.is_error);
            assert_eq!(a.msg, "無此玩家！");
        }
        _ => panic!("expected an answer"),
    }
    match handle_request(&mut g, addr(1), request(ActionType::IsStart)) {
        ServerReply::Answer(a) => {
            assert_eq!(a.data.data_is_start.unwrap().is_start, false);
            assert_eq!(a.data.data_type, ActionType::IsStart);
        }
        _ => panic!("expected an answer"),
    }
}

#[test]
fn start_plan_and_echo() {
    assert!(matches!(start_plan(ConfigModes::V1Simple), StartPlan::RunV1Simple));
    match start_plan(ConfigModes::V2Better) {
        StartPlan::NotSupported(t) => assert_eq!(t, "還未支援"),
        _ => panic!("V2Better is not run by this server"),
    }
    assert!(matches!(start_plan(ConfigModes::Base), StartPlan::NotSupported(_)));
    assert_eq!(echo_reply("hi"), "伺服器收到：hi");
}

#[test]
fn test_client_requests() {
    assert_eq!(server_url(&String::from("192.168.0.2")), "http://192.168.0.2:6060/");
    let r = test_request(ActionType::IsStart, Some(2), false);
    assert_eq!(r.app, "positive_mahjong");
    assert_eq!(r.client, "pmj-client");
    assert_eq!(r.data.req_action_type, ActionType::IsStart);
    assert_eq!(r.data.data_is_start.unwrap().number, 2);
    assert!(!r.is_test_connection);
    let t = test_request(ActionType::TestConnection, None, true);
    assert!(t.data.data_is_start.is_none());
    assert!(t.is_test_connection);
    let c = PMJClient::new();
    c.update(PMJClientMsg::Idle);
    c.view();
    assert_eq!(c, PMJClient {});
}

#[test]
fn requests_as_text() {
    let mut d = ClientRequestDataType::default();
    assert_eq!(
        d.to_string(),
        "ClientRequestDataType\n    req_type: 測試連線 (TestConnection)\n    data_remove_player: None\n    data_test_connection: None"
    );
    d.data_remove_player = Some(ClientRequestDataRemovePlayerType { number: 3 });
    d.data_is_start = Some(ClientRequestDataIsStartType { number: 12 });
    d.req_action_type = ActionType::RemovePlayer;
    assert_eq!(d.debug_string(), format!("{:?}", d));
    assert_eq!(
        d.to_string(),
        "ClientRequestDataType\n    req_type: 刪除玩家 (RemovePlayer)\n    data_remove_player: Some(ClientRequestDataRemovePlayerType { number: 3 })\n    data_test_connection: None"
    );
    let r = ClientRequestType::default();
    assert_eq!(
        r.to_string(),
        format!("ClientRequstType\n    app: positive_mahjong\n    client: pmj_client\n    data: {:?}", r.data)
    );
    assert_eq!(ActionType::SyncGameStatus.variant_string(), "SyncGameStatus");
    assert_eq!(ActionType::SendGameAction.to_string(), "遊戲動作 (SendGameAction)");
}

#[test]
fn older_requests_as_text() {
    let mut r = OldClientRequestType::default();
    r.data.req_action_type = OldAction::IsStart;
    r.data.data_test_connection = Some(ClientRequestDataTestConnectionType { number: 200 });
    assert_eq!(r.data.debug_string(), format!("{:?}", r.data));
    assert_eq!(
        r.to_string(),
        format!("ClientRequstType\n    app: positive_mahjong\n    client: pmj_client\n    data: {:?}", r.data)
    );
    assert_eq!(
        r.data.to_string(),
        "ClientRequestDataType\n    req_type: 是否開始 (IsStart)\n    data_remove_player: None\n    data_test_connection: Some(ClientRequestDataTestConnectionType { number: 200 })"
    );
}
