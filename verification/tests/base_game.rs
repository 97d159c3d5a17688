use positive_mahjong::base_mode::{MoveOutcome, PositiveMahjong, TurnState};
use positive_mahjong::base_shared::{
    ClientMessageType, ClientMessageTypeKinds, GameTurnTypes, PMJCardType, ServerMessageTypeKinds,
};
use positive_mahjong::pmj_shared::{ClientConnectRequestType, FirstMsgReply, GameModes};
use positive_mahjong::table::PlayerIp;

fn ip(n: u128) -> PlayerIp {
    PlayerIp { is_v6: true, bits: n }
}

#[test]
fn base_round_trip() {
    let mut g = PositiveMahjong::new();
    assert_eq!(g.add_player(ip(10)), Some(1));
    assert_eq!(g.add_player(ip(11)), Some(2));
    let msgs = g.start_game();
    assert_eq!(msgs.len(), 4);
    assert_eq!(msgs[0].1.msg_type, ServerMessageTypeKinds::GameStart);
    assert_eq!(msgs[2].1.msg_type, ServerMessageTypeKinds::HandCardChange);
    assert_eq!(msgs[3].1.info_hand_card_change.as_ref().unwrap().len(), 16);
    assert_eq!(g.table.unused_card.len(), 144 - 32);
    let mut all = g.table.unused_card.clone();
    for p in g.table.players.iter() {
        all.extend(p.player_hand_cards.iter().cloned());
    }
    assert_eq!(all.len(), 144);
    for i in 0..all.len() {
        for j in (i + 1)..all.len() {
            assert_ne!(all[i], all[j]);
        }
    }

    let mut turn = g.begin_game_loop();
    assert_eq!(turn, TurnState { current_turn_player_id: 1, current_action: GameTurnTypes::GetCard });
    let m = PositiveMahjong::turn_message(&turn);
    assert_eq!(m.msg_type, ServerMessageTypeKinds::ChangedTurn);
    assert_eq!(m.info_change_turn, Some(1));

    let wall_before = g.table.unused_card.len();
    let (to, msg) = g.play_get_card(&mut turn).unwrap();
    assert_eq!(to, 1);
    assert_eq!(msg.msg_type, ServerMessageTypeKinds::GetCard);
    assert!(msg.info_hand_card_change.is_none());
    assert!(msg.info_player_action.is_none());
    let drawn = msg.info_get_card.unwrap();
    assert!(drawn.card_type != PMJCardType::Flower);
    assert_eq!(g.table.players[0].player_hand_cards.len(), 17);
    assert_eq!(*g.table.players[0].player_hand_cards.last().unwrap(), drawn);
    assert_eq!(g.table.unused_card.len(), wall_before - 1);
    assert!(!g.table.unused_card.contains(&drawn));
    assert_eq!(turn.current_action, GameTurnTypes::ThrowCard);

    let mut not_a_throw = ClientMessageType::default();
    not_a_throw.msg_type = ClientMessageTypeKinds::Eat;
    assert!(matches!(g.play_client_msg(&mut turn, not_a_throw), MoveOutcome::Unsupported));
    // a discard in the older form, not as a game action, is not read
    let mut older = ClientMessageType::default();
    older.msg_type = ClientMessageTypeKinds::ThrowCard;
    older.info_throw_card = Some(drawn);
    assert!(matches!(g.play_client_msg(&mut turn, older), MoveOutcome::Unsupported));
    assert_eq!(g.table.players[0].player_hand_cards.len(), 17);

    let mut throw = ClientMessageType::default();
    throw.msg_type = ClientMessageTypeKinds::GameAction;
    throw.info_game_action = Some(GameTurnTypes::ThrowCard);
    throw.info_throw_card = Some(drawn);
    match g.play_client_msg(&mut turn, throw) {
        MoveOutcome::Thrown(out) => {
            assert_eq!(out.len(), 2);
            let (to, m) = &out[0];
            assert_eq!(*to, 1);
            assert_eq!(m.msg_type, ServerMessageTypeKinds::HandCardChange);
            assert_eq!(m.info_hand_card_change.as_ref().unwrap().len(), 16);
            let (to, m) = &out[1];
            assert_eq!(*to, 2);
            assert_eq!(m.msg_type, ServerMessageTypeKinds::PlayerAction);
            assert_eq!(m.info_player_action, Some((1, GameTurnTypes::ThrowCard)));
            assert!(m.info_get_card.is_none());
        }
        _ => panic!("the discard should go through"),
    }
    assert_eq!(turn, TurnState { current_turn_player_id: 2, current_action: GameTurnTypes::GetCard });
    // the same card cannot be discarded twice
    turn.current_action = GameTurnTypes::ThrowCard;
    turn.current_turn_player_id = 1;
    assert!(matches!(g.play_client_msg(&mut turn, throw), MoveOutcome::NotInHand));
}

#[test]
fn base_first_message() {
    let mut g = PositiveMahjong::new();
    let ours = ClientConnectRequestType { app_name: String::from("positive_mahjong"), client: String::from("c") };
    match g.answer_first_msg(ip(3), &ours) {
        FirstMsgReply::Connect(r) => {
            assert_eq!(r.gamemode, GameModes::Base);
            assert_eq!(r.player_id, Some(1));
        }
        _ => panic!("a client of this game is seated"),
    }
    let other = ClientConnectRequestType { app_name: String::from("Positive_Mahjong"), client: String::from("c") };
    assert!(matches!(g.answer_first_msg(ip(4), &other), FirstMsgReply::NotOurApp(_)));
    assert_eq!(g.get_players_info().len(), 1);
}

#[test]
fn base_default_is_new() {
    let g = PositiveMahjong::default();
    assert!(g.table.players.is_empty());
    assert_eq!(g.table.unused_card, positive_mahjong::base_shared::new_deck());
    assert!(!g.is_game_start());
}

#[test]
fn base_discard_is_announced_to_the_others() {
    let mut g = PositiveMahjong::new();
    for k in 1..=4u128 {
        assert!(g.add_player(ip(k)).is_some());
    }
    let _ = g.start_game();
    let mut turn = g.begin_game_loop();
    turn.current_turn_player_id = 3;
    let (to, msg) = g.play_get_card(&mut turn).unwrap();
    assert_eq!(to, 3);
    let drawn = msg.info_get_card.unwrap();
    let mut throw = ClientMessageType::default();
    throw.msg_type = ClientMessageTypeKinds::GameAction;
    throw.info_game_action = Some(GameTurnTypes::ThrowCard);
    throw.info_throw_card = Some(drawn);
    match g.play_client_msg(&mut turn, throw) {
        MoveOutcome::Thrown(out) => {
            let to: Vec<u8> = out.iter().map(|(n, _)| *n).collect();
            assert_eq!(to, vec![3, 1, 2, 4]);
            assert_eq!(out[0].1.msg_type, ServerMessageTypeKinds::HandCardChange);
            for (_, m) in out.iter().skip(1) {
                assert_eq!(m.msg_type, ServerMessageTypeKinds::PlayerAction);
                assert_eq!(m.info_player_action, Some((3, GameTurnTypes::ThrowCard)));
            }
        }
        _ => panic!("the discard should go through"),
    }
    assert_eq!(turn, TurnState { current_turn_player_id: 4, current_action: GameTurnTypes::GetCard });
}
