use positive_mahjong::pmj_shared::{ClientConnectRequestType, FirstMsgReply, GameModes};
use positive_mahjong::table::{next_turn, PlayerIp};
use positive_mahjong::v2_better_mode::{MoveOutcome, PositiveMahjong, TurnState};
use positive_mahjong::v2_better_shared::{
    ClientGameMsg, GameActions, PMJCard, PMJCardType, ServerGameMsgKinds, ServerMessage,
};

fn ip(n: u128) -> PlayerIp {
    PlayerIp { is_v6: false, bits: n }
}

fn game_with(n: u128) -> PositiveMahjong {
    let mut g = PositiveMahjong::new();
    for k in 0..n {
        assert_eq!(g.add_player(ip(k)), Some((k + 1) as u8));
    }
    g
}

#[test]
fn seats_fill_up_to_four() {
    let mut g = game_with(4);
    // every seating hands the players to the messaging thread
    assert_eq!(g.msg_mgr.last_task_id, 4);
    assert_eq!(g.msg_mgr.tasks.len(), 4);
    assert_eq!(g.msg_mgr.players.len(), 4);
    assert_eq!(g.msg_mgr.tasks[3].1.kind_add_player.as_ref().unwrap().len(), 4);
    assert_eq!(g.msg_mgr.tasks[0].1.kind_add_player.as_ref().unwrap().len(), 1);
    assert_eq!(g.add_player(ip(9)), None);
    assert_eq!(g.msg_mgr.tasks.len(), 4);
    let players = g.get_players_info();
    assert_eq!(players.len(), 4);
    for (i, p) in players.iter().enumerate() {
        assert_eq!(p.player_id as usize, i + 1);
        assert_eq!(p.player_ip_addr, ip(i as u128));
        assert!(p.player_hand_cards.is_empty());
    }
    assert!(!g.is_game_start());
    assert!(!g.is_game_finish());
}

#[test]
fn start_game_deals_sixteen_each() {
    let mut g = game_with(3);
    let msgs = g.start_game();
    assert!(g.is_game_start());
    assert_eq!(msgs.len(), 6);
    for i in 0..3 {
        assert_eq!(msgs[i].0 as usize, i + 1);
        match &msgs[i].1 {
            ServerMessage::GameMsg(m) => assert_eq!(m.msg_type, ServerGameMsgKinds::GameStart),
            _ => panic!("expected a game message"),
        }
        assert_eq!(msgs[3 + i].0 as usize, i + 1);
        match &msgs[3 + i].1 {
            ServerMessage::GameMsg(m) => {
                assert_eq!(m.msg_type, ServerGameMsgKinds::HandCardChange);
                assert_eq!(m.info_hand_card_change.as_ref().unwrap().len(), 16);
            }
            _ => panic!("expected a game message"),
        }
    }
    assert_eq!(g.table.unused_card.len(), 144 - 48);
    for p in g.table.players.iter() {
        assert_eq!(p.player_hand_cards.len(), 16);
    }
    // every card is still in play
    let mut all: Vec<PMJCard> = g.table.unused_card.clone();
    for p in g.table.players.iter() {
        all.extend(p.player_hand_cards.iter().cloned());
    }
    assert_eq!(all.len(), 144);
    for i in 0..all.len() {
        for j in (i + 1)..all.len() {
            assert_ne!(all[i], all[j]);
        }
    }
}

#[test]
fn a_turn_draws_then_discards() {
    let mut g = game_with(2);
    g.start_game();
    let mut turn = g.begin_game_loop();
    assert_eq!(turn, TurnState { current_turn_player_id: 1, current_action: GameActions::GetCard });
    match PositiveMahjong::turn_message(&turn) {
        ServerMessage::GameMsg(m) => {
            assert_eq!(m.msg_type, ServerGameMsgKinds::ChangedTurn);
            assert_eq!(m.info_change_turn, Some(1));
        }
        _ => panic!("expected a game message"),
    }
    match PositiveMahjong::action_message(&turn) {
        ServerMessage::GameMsg(m) => {
            assert_eq!(m.msg_type, ServerGameMsgKinds::PlayerAction);
            assert_eq!(m.info_player_action, Some((1, GameActions::GetCard)));
        }
        _ => panic!("expected a game message"),
    }
    let wall = g.table.unused_card.len();
    let (to, msg) = g.play_get_card(&mut turn).unwrap();
    assert_eq!(to, 1);
    let drawn = match msg {
        ServerMessage::GameMsg(m) => {
            assert_eq!(m.msg_type, ServerGameMsgKinds::GetCard);
            m.info_get_card.unwrap()
        }
        _ => panic!("expected a game message"),
    };
    assert!(!drawn.card_type.is_flower());
    assert_eq!(g.table.unused_card.len(), wall - 1);
    assert_eq!(g.table.players[0].player_hand_cards.len(), 17);
    assert_eq!(*g.table.players[0].player_hand_cards.last().unwrap(), drawn);
    assert_eq!(turn.current_action, GameActions::ThrowCard);

    // a card that is not in the hand is refused
    let absent = PMJCard { card_type: PMJCardType::Dots(1), card_id: 9 };
    assert!(matches!(g.play_client_msg(&mut turn, ClientGameMsg::ThrowCard(absent)), MoveOutcome::NotInHand));
    // a move other than a discard is not handled
    assert!(matches!(
        g.play_client_msg(&mut turn, ClientGameMsg::ReplaceAFlower(drawn)),
        MoveOutcome::Unsupported
    ));
    assert_eq!(turn.current_turn_player_id, 1);

    match g.play_client_msg(&mut turn, ClientGameMsg::ThrowCard(drawn)) {
        MoveOutcome::Thrown(out) => {
            assert_eq!(out.len(), 3);
            assert_eq!(out[0].0, 1);
            assert_eq!(out[1].0, 1);
            assert_eq!(out[2].0, 2);
            for (_, m) in out[1..].iter() {
                match m {
                    ServerMessage::GameMsg(m) => {
                        assert_eq!(m.msg_type, ServerGameMsgKinds::PlayerAction);
                        assert_eq!(m.info_player_action, Some((1, GameActions::ThrowCard)));
                    }
                    _ => panic!("expected a game message"),
                }
            }
        }
        _ => panic!("the discard should go through"),
    }
    assert_eq!(g.table.players[0].player_hand_cards.len(), 16);
    assert_eq!(turn, TurnState { current_turn_player_id: 2, current_action: GameActions::GetCard });
}

#[test]
fn turns_rotate() {
    assert_eq!(next_turn(1, 4), 2);
    assert_eq!(next_turn(3, 4), 4);
    assert_eq!(next_turn(4, 4), 1);
    assert_eq!(next_turn(1, 1), 1);
    // after as many turns as players, the first player moves again
    let mut p = 2;
    for _ in 0..3 {
        p = next_turn(p, 3);
    }
    assert_eq!(p, 2);
}

#[test]
fn first_message_seats_or_refuses() {
    let mut g = PositiveMahjong::new();
    let other = ClientConnectRequestType { app_name: String::from("other"), client: String::from("x") };
    match g.answer_first_msg(ip(1), &other) {
        FirstMsgReply::NotOurApp(t) => assert_eq!(t, "這是 `positive_mahjong` 的伺服器端！"),
        _ => panic!("another application is refused"),
    }
    assert!(g.table.players.is_empty());
    let ours = ClientConnectRequestType { app_name: String::from("positive_mahjong"), client: String::from("x") };
    for k in 1..=4u8 {
        match g.answer_first_msg(ip(k as u128), &ours) {
            FirstMsgReply::Connect(r) => {
                assert_eq!(r.gamemode, GameModes::V2Better);
                assert_eq!(r.player_id, Some(k));
                assert!(!r.too_many_player);
            }
            _ => panic!("a client of this game is seated"),
        }
    }
    match g.answer_first_msg(ip(5), &ours) {
        FirstMsgReply::Connect(r) => {
            assert_eq!(r.player_id, None);
            assert!(r.too_many_player);
        }
        _ => panic!("a client of this game is answered"),
    }
}

#[test]
fn task_numbers_find_their_tasks() {
    let mut t = positive_mahjong::v2_better_mode::MessageMgr::new(Vec::new());
    assert_eq!(t.find_task(1), None);
    let a = t.task_ping();
    let b = t.task_read(3);
    let c = t.task_add_player(Vec::new());
    assert!(t.players.is_empty());
    assert_eq!((a, b, c), (1, 2, 3));
    assert_eq!(t.last_task_id, 3);
    assert_eq!(t.find_task(a), Some(0));
    assert_eq!(t.find_task(b), Some(1));
    assert_eq!(t.find_task(c), Some(2));
    assert_eq!(t.find_task(4), None);
    assert_eq!(t.tasks[1].1.kind_read, Some(3));
    assert_eq!(t.tasks[1].1.msg_kind, positive_mahjong::v2_better_mode::MsgMgrTaskKinds::Read);
    assert_eq!(t.tasks[2].1.msg_kind, positive_mahjong::v2_better_mode::MsgMgrTaskKinds::AddPlayer);
    let d = t.task_new(positive_mahjong::v2_better_mode::MsgMgrTaskmsg::default());
    assert_eq!(d, 4);
    assert_eq!(t.tasks[3].1.msg_kind, positive_mahjong::v2_better_mode::MsgMgrTaskKinds::Ping);
    let r = positive_mahjong::v2_better_mode::MsgMgrTaskresult::default();
    assert_eq!(r.msg_kind, positive_mahjong::v2_better_mode::MsgMgrTaskKinds::Write);
    assert!(r.kind_read.is_none());
}
