use positive_mahjong::client_core::{
    endpoint_of, first_msg_request, first_msg_result, server_endpoint, throw_card_msg, CCErrKinds,
    CCError, ServerUrl,
    CTaskKinds, CTaskResult, ClientCore, GMState, PlayerCtrl, ScanNext, TaskFollowUp,
    TaskOutcome, V2BetterEvents,
};
use positive_mahjong::client_desktop::{
    is_backspace_key, title, vsoft_key_label, vsoft_keys, HomeEffect, HomeMessage, HomeStatus,
    PlayV2BetterController, PlayV2BetterStatus,
};
use positive_mahjong::pmj_client;
use positive_mahjong::pmj_shared::{GameModes, ServerConnectResponceType, ServerFirstConnectType};
use positive_mahjong::server_gui::{self, BasePanel, GameStatus, V2BetterMsg, V2BetterPanel, V2BetterTask};
use positive_mahjong::v2_better_shared::{
    ClientGameMsg, ClientMessage, GameActions, PMJCard, PMJCardType, ServerGameMsg,
    ServerGameMsgKinds, ServerMessage, ServerRoomMsg,
};

fn game_msg(kind: ServerGameMsgKinds) -> ServerGameMsg {
    let mut m = ServerGameMsg::default();
    m.msg_type = kind;
    m.info_error = None;
    m
}

fn done_with(msg: ServerMessage) -> TaskOutcome {
    TaskOutcome::Done(CTaskResult { read_ws_msg_v2: Some(msg), ..CTaskResult::default() })
}

fn in_game(core: &mut ClientCore, id: u8) {
    let r = CTaskResult {
        rfirstmsgresp_player_id: Some(id),
        rfirstmsgresp_gamemode: Some(GameModes::V2Better),
        read_ws_msg_v2: None,
    };
    let f = core.on_task_finished(CTaskKinds::ReadFirstMsgResp, TaskOutcome::Done(r));
    assert_eq!(f, TaskFollowUp { start: Some(CTaskKinds::PingPong), scan: ScanNext::SameIndex });
}

#[test]
fn errors_as_text() {
    assert_eq!(CCError { kind: CCErrKinds::HandShakeError }.to_string(), "CCError: HandShakeError");
    assert_eq!(CCError { kind: CCErrKinds::Other }.to_string(), "CCError: Other");
}

#[test]
fn first_message_and_its_answer() {
    let r = first_msg_request();
    assert_eq!(r.app_name, "positive_mahjong");
    assert_eq!(r.client, "pmj_client");
    let ok = first_msg_result(ServerConnectResponceType { gamemode: GameModes::V2Better, player_id: Some(3), too_many_player: false });
    let t = ok.unwrap();
    assert_eq!(t.rfirstmsgresp_player_id, Some(3));
    assert_eq!(t.rfirstmsgresp_gamemode, Some(GameModes::V2Better));
    let full = first_msg_result(ServerConnectResponceType { gamemode: GameModes::V2Better, player_id: None, too_many_player: true });
    assert_eq!(full.unwrap_err(), CCError { kind: CCErrKinds::Other });
    let c = PMJCard { card_type: PMJCardType::Dots(2), card_id: 1 };
    assert!(matches!(throw_card_msg(c), ClientMessage::GameMsg(ClientGameMsg::ThrowCard(x)) if x == c));
}

#[test]
fn tasks_follow_up() {
    let mut core = ClientCore::new();
    assert_eq!(core.current_ctrl(), PlayerCtrl::NoCtrl);
    let c = PMJCard { card_type: PMJCardType::Line(5), card_id: 2 };
    assert_eq!(
        core.on_task_finished(CTaskKinds::ThrowCard(c), TaskOutcome::Panicked),
        TaskFollowUp { start: Some(CTaskKinds::ThrowCard(c)), scan: ScanNext::NextIndex }
    );
    assert_eq!(
        core.on_task_finished(CTaskKinds::PingPong, TaskOutcome::Failed(CCError { kind: CCErrKinds::Other })),
        TaskFollowUp { start: Some(CTaskKinds::PingPong), scan: ScanNext::Stop }
    );
    assert_eq!(
        core.on_task_finished(CTaskKinds::SendFirstMsgReq, TaskOutcome::Done(CTaskResult::default())),
        TaskFollowUp { start: Some(CTaskKinds::ReadFirstMsgResp), scan: ScanNext::Stop }
    );
    assert_eq!(
        core.on_task_finished(CTaskKinds::PingPong, TaskOutcome::Done(CTaskResult::default())),
        TaskFollowUp { start: Some(CTaskKinds::PingPong), scan: ScanNext::Stop }
    );
    assert_eq!(
        core.on_task_finished(CTaskKinds::ThrowCard(c), TaskOutcome::Done(CTaskResult::default())),
        TaskFollowUp { start: None, scan: ScanNext::SameIndex }
    );
    assert!(matches!(core.game_state(), GMState::HomePage));
    in_game(&mut core, 2);
    match core.game_state() {
        GMState::V2Better(s) => {
            assert_eq!(s.player_id, 2);
            assert!(s.cards.is_empty() && s.game_events.is_empty() && s.room_msgs.is_empty());
            assert_eq!(s.player_turn, None);
        }
        _ => panic!("the game has begun"),
    }
}

#[test]
fn messages_become_numbered_events() {
    let mut core = ClientCore::new();
    in_game(&mut core, 1);
    let f = core.on_task_finished(CTaskKinds::ReadWsMsg, done_with(ServerMessage::GameMsg(game_msg(ServerGameMsgKinds::GameStart))));
    assert_eq!(f, TaskFollowUp { start: None, scan: ScanNext::SameIndex });
    let mut turn = game_msg(ServerGameMsgKinds::ChangedTurn);
    turn.info_change_turn = Some(1);
    core.on_task_finished(CTaskKinds::ReadWsMsg, done_with(ServerMessage::GameMsg(turn)));
    assert_eq!(core.current_ctrl(), PlayerCtrl::NoCtrl);
    let c = PMJCard { card_type: PMJCardType::TenThousand(8), card_id: 3 };
    let mut get = game_msg(ServerGameMsgKinds::GetCard);
    get.info_get_card = Some(c);
    core.on_task_finished(CTaskKinds::ReadWsMsg, done_with(ServerMessage::GameMsg(get)));
    assert_eq!(core.current_ctrl(), PlayerCtrl::ThrowCard);
    let mut hand = game_msg(ServerGameMsgKinds::HandCardChange);
    hand.info_hand_card_change = Some(vec![c]);
    core.on_task_finished(CTaskKinds::ReadWsMsg, done_with(ServerMessage::GameMsg(hand)));
    let mut act = game_msg(ServerGameMsgKinds::PlayerAction);
    act.info_player_action = Some((1, GameActions::ThrowCard));
    core.on_task_finished(CTaskKinds::ReadWsMsg, done_with(ServerMessage::GameMsg(act)));
    assert_eq!(core.current_ctrl(), PlayerCtrl::NoCtrl);
    let room = ServerRoomMsg { msg_type: ServerGameMsgKinds::GameStart, info_player_say: Some((2, String::from("hi"))), info_root_say: None };
    core.on_task_finished(CTaskKinds::ReadWsMsg, done_with(ServerMessage::RoomMsg(room)));
    match core.game_state() {
        GMState::V2Better(s) => {
            let numbers: Vec<u64> = s.game_events.iter().map(|e| e.0).collect();
            assert_eq!(numbers, vec![1, 2, 3, 4, 5]);
            assert!(matches!(s.game_events[0].1, V2BetterEvents::GameStart));
            assert!(matches!(s.game_events[1].1, V2BetterEvents::ChangeTurn(1)));
            assert!(matches!(s.game_events[2].1, V2BetterEvents::YouGetCard(x) if x == c));
            assert!(matches!(&s.game_events[3].1, V2BetterEvents::YouHandCardChange(h) if *h == vec![c]));
            assert!(matches!(s.game_events[4].1, V2BetterEvents::PlayerAction(1, GameActions::ThrowCard)));
            assert_eq!(s.room_msgs.len(), 1);
            assert_eq!(s.room_msgs[0].0, 1);
            assert_eq!(s.room_msgs[0].1.info_player_say, Some((2, String::from("hi"))));
        }
        _ => panic!("the game has begun"),
    }
}

#[test]
fn server_addresses() {
    let (text, host, port) = server_endpoint(&String::from("ws://127.0.0.1:6060")).unwrap();
    assert_eq!(text, "ws://127.0.0.1:6060/");
    assert_eq!(host, "127.0.0.1");
    assert_eq!(port, 6060);
    // the default port is not named by the URL
    assert!(server_endpoint(&String::from("ws://example.com")).is_none());
    assert!(server_endpoint(&String::from("not a url")).is_none());
}

#[test]
fn desktop_home_page() {
    let mut h = HomeStatus::new();
    assert!(matches!(h.update(HomeMessage::ConnectServer), HomeEffect::Nothing));
    assert_eq!(h.msgs, vec![String::from("未輸入伺服器地址！")]);
    h.update(HomeMessage::InputServerIpChanged(String::from("ws://1.2.3.4:606")));
    h.update(HomeMessage::VSoftKeyBoardInput(String::from("0")));
    assert_eq!(h.server_ip, "ws://1.2.3.4:6060");
    h.update(HomeMessage::VSoftKeyBoardInput(String::from("9")));
    h.update(HomeMessage::VSoftKeyBoardInput(String::from("backspace")));
    assert_eq!(h.server_ip, "ws://1.2.3.4:6060");
    h.update(HomeMessage::VSoftKeyBoardInput(String::from("\u{e14a}")));
    assert_eq!(h.server_ip, "ws://1.2.3.4:606");
    h.update(HomeMessage::VSoftKeyBoardInput(String::from("0")));
    match h.update(HomeMessage::ConnectServer) {
        HomeEffect::Connect(a) => assert_eq!(a, "ws://1.2.3.4:6060"),
        _ => panic!("the client connects"),
    }
    assert!(h.try_connecting_server);
    assert!(matches!(h.update(HomeMessage::ConnectServer), HomeEffect::Nothing));
    h.update(HomeMessage::InputServerIpChanged(String::from("x")));
    h.update(HomeMessage::VSoftKeyBoardInput(String::from("x")));
    assert_eq!(h.server_ip, "ws://1.2.3.4:6060");
    assert_eq!(h.msgs.len(), 4);
    assert_eq!(h.msgs[3], "已有正在嘗試連接的伺服器！");
    h.connect_failed(CCError { kind: CCErrKinds::HandShakeError });
    assert_eq!(h.msgs[4], "update: CCError: HandShakeError");
    // erasing an empty address leaves it empty
    let mut e = HomeStatus::new();
    e.update(HomeMessage::VSoftKeyBoardInput(String::from("backspace")));
    assert_eq!(e.server_ip, "");
}

#[test]
fn desktop_keyboard_and_pages() {
    let keys = vsoft_keys();
    assert_eq!(keys.len(), 42);
    assert_eq!(keys[0], "0");
    assert_eq!(keys[9], "9");
    assert_eq!(keys[10], "a");
    assert_eq!(keys[35], "z");
    assert_eq!(keys[36..].to_vec(), vec![":", "[", "]", ".", "/", "backspace"]);
    assert!(is_backspace_key(&String::from("backspace")));
    assert!(!is_backspace_key(&String::from("b")));
    assert_eq!(vsoft_key_label(&String::from("backspace")), "\u{e14a}");
    assert_eq!(vsoft_key_label(&String::from("q")), "q");
    assert_eq!(title(), "positive_mahjong - pmj_client_desktop");
    let p = PlayV2BetterStatus::new();
    assert_eq!(p.game_controller, PlayV2BetterController::NoCtrl);
    assert!(p.hand_cards.is_empty() && p.is_start.is_none());
}

#[test]
fn first_client_home_page() {
    let mut h = pmj_client::HomeStatus::new();
    assert_eq!(h.update(pmj_client::HomeMessage::VSoftKeyBoardInput(String::from("1"))), pmj_client::HomeTask::Nothing);
    h.update(pmj_client::HomeMessage::VSoftKeyBoardInput(String::from("2")));
    h.update(pmj_client::HomeMessage::VSoftKeyBoardInput(String::from("backspace")));
    assert_eq!(h.server_ip, "1");
    h.update(pmj_client::HomeMessage::InputServerIpChanged(String::from("ws://h:1")));
    assert_eq!(h.server_ip, "ws://h:1");
    assert_eq!(h.update(pmj_client::HomeMessage::ConnectServer), pmj_client::HomeTask::Connect);
    assert_eq!(h.update(pmj_client::HomeMessage::FirstMsg), pmj_client::HomeTask::SendFirstMsg);
    assert_eq!(pmj_client::title(), "pmj_client");
    let m = pmj_client::first_msg();
    assert_eq!(m.app_name, "positive_mahjong");
}

#[test]
fn server_panels() {
    let mut p = V2BetterPanel::new();
    assert!(matches!(p.update(V2BetterMsg::TInputRoomMsgChange(String::from("hello"))), V2BetterTask::Nothing));
    match p.update(V2BetterMsg::SendRoomMsg) {
        V2BetterTask::SendRoomMsg(t) => assert_eq!(t, "hello"),
        _ => panic!("the message is sent"),
    }
    assert_eq!(p.tinput_room_msg, "");
    assert!(matches!(p.update(V2BetterMsg::StartGame), V2BetterTask::StartGame));
    assert!(matches!(p.update(V2BetterMsg::FetchPlayer), V2BetterTask::FetchPlayers));
    assert_eq!(p.game_status, GameStatus::Room);
    p.game_started();
    assert_eq!(p.game_status, GameStatus::InGame);

    let mut b = BasePanel::new();
    assert!(!b.start_game(0));
    assert_eq!(b.msg, "至少需要一位玩家！");
    assert!(!b.is_start);
    assert!(b.start_game(2));
    assert!(b.is_start);
    assert_eq!(server_gui::title(), "positive_mahjong - pmj_server::gui");
}

#[test]
fn endpoints_of_parsed_addresses() {
    let u = ServerUrl { text: String::from("ws://h:1/"), host: Some(String::from("h")), port: Some(1) };
    assert_eq!(endpoint_of(u), Some((String::from("ws://h:1/"), String::from("h"), 1)));
    let v = ServerUrl { text: String::from("ws://h/"), host: Some(String::from("h")), port: None };
    assert_eq!(endpoint_of(v), None);
    let w = ServerUrl { text: String::from("unix:/run/x"), host: None, port: Some(2) };
    assert_eq!(endpoint_of(w), None);
}

#[test]
fn walk_over_tasks_only_adds_numbered_entries() {
    let mut core = ClientCore::new();
    in_game(&mut core, 3);
    let room = ServerRoomMsg { msg_type: ServerGameMsgKinds::GameStart, info_player_say: None, info_root_say: Some(String::from("go")) };
    core.on_task_finished(CTaskKinds::ReadWsMsg, done_with(ServerMessage::RoomMsg(room)));
    core.on_task_finished(CTaskKinds::PingPong, TaskOutcome::Panicked);
    core.on_task_finished(CTaskKinds::ReadWsMsg, done_with(ServerMessage::GameMsg(game_msg(ServerGameMsgKinds::GameStart))));
    core.on_task_finished(CTaskKinds::ReadWsMsg, TaskOutcome::Failed(CCError { kind: CCErrKinds::Other }));
    core.on_task_finished(CTaskKinds::PingPong, TaskOutcome::Done(CTaskResult::default()));
    let room = ServerRoomMsg { msg_type: ServerGameMsgKinds::GameStart, info_player_say: Some((1, String::from("yo"))), info_root_say: None };
    core.on_task_finished(CTaskKinds::ReadWsMsg, done_with(ServerMessage::RoomMsg(room)));
    match core.game_state() {
        GMState::V2Better(s) => {
            assert_eq!(s.player_id, 3);
            let events: Vec<u64> = s.game_events.iter().map(|e| e.0).collect();
            let rooms: Vec<u64> = s.room_msgs.iter().map(|e| e.0).collect();
            assert_eq!(events, vec![1]);
            assert_eq!(rooms, vec![1, 2]);
            assert_eq!(s.room_msgs[0].1.info_root_say, Some(String::from("go")));
        }
        _ => panic!("the game has begun"),
    }
}

#[test]
fn first_client_keeps_the_number_it_was_given() {
    let given = ServerFirstConnectType { is_start: Some(false), is_error: false, player_id: Some(2), error_type: None };
    assert_eq!(pmj_client::player_id_after_first_reply(None, &given), Some(2));
    assert_eq!(pmj_client::player_id_after_first_reply(Some(4), &given), Some(2));
    let none = ServerFirstConnectType { is_start: None, is_error: true, player_id: None, error_type: None };
    assert_eq!(pmj_client::player_id_after_first_reply(Some(4), &none), Some(4));
    assert_eq!(pmj_client::player_id_after_first_reply(None, &none), None);
}
