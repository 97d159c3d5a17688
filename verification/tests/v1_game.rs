use positive_mahjong::v1_simple_mode::{
    AfterAction, GameLoopCursor, GameLoopStep, GameRoundType, PlayerAddr, PlayerPlayerRoundAction,
    PlayerWaitRoundAction, PositiveMahjong, WaitRoundScan,
};
use positive_mahjong::v1_simple_shared::{
    Either, GameActionAfter, GameActionPlayerRound, GameActionWaitRound, PMJCard, PMJCardFlowers,
    PMJCardTypes,
};

fn addr(n: u128) -> PlayerAddr {
    PlayerAddr { is_v6: false, ip: n, port: 5000 }
}

fn left(e: Either<String, impl std::fmt::Debug>) -> String {
    match e {
        Either::Left(s) => s,
        Either::Right(v) => panic!("expected an error, got {:?}", v),
    }
}

fn card(t: PMJCardTypes, n: u8, id: u8) -> PMJCard {
    PMJCard { card_type: t, card_number: n, card_id: id }
}

#[test]
fn join_and_leave() {
    let mut g = PositiveMahjong::new();
    assert_eq!(g.unuse_cards.len(), 84);
    assert_eq!(g.game_status.round_type, GameRoundType::WaitRound);
    for k in 1..=4u8 {
        match g.add_player(addr(k as u128)) {
            Either::Right(n) => assert_eq!(n, k),
            Either::Left(e) => panic!("{}", e),
        }
    }
    assert_eq!(left(g.add_player(addr(9))), "人數已達上限！");
    assert_eq!(left(g.remove_player(addr(1), 2)), "無此玩家！");
    assert!(matches!(g.remove_player(addr(2), 2), Either::Right(())));
    assert_eq!(g.players.len(), 3);
    assert_eq!(g.player_count, 3);
    // the next player gets the number after the count
    match g.add_player(addr(7)) {
        Either::Right(n) => assert_eq!(n, 4),
        Either::Left(e) => panic!("{}", e),
    }
    g.is_start = true;
    assert_eq!(left(g.add_player(addr(8))), "人數已達上限！");
    assert_eq!(left(g.remove_player(addr(1), 1)), "遊戲已開始！");
}

#[test]
fn started_room_refuses_new_players() {
    let mut g = PositiveMahjong::new();
    g.is_start = true;
    assert_eq!(left(g.add_player(addr(1))), "遊戲已開始！");
    assert_eq!(g.players.len(), 0);
}

#[test]
fn remove_undoes_add() {
    let mut g = PositiveMahjong::new();
    let _ = g.add_player(addr(1));
    let before: Vec<(PlayerAddr, u8)> = g.players.iter().map(|p| (p.ip, p.number)).collect();
    let count = g.player_count;
    let n = match g.add_player(addr(2)) {
        Either::Right(n) => n,
        Either::Left(e) => panic!("{}", e),
    };
    assert!(matches!(g.remove_player(addr(2), n), Either::Right(())));
    let after: Vec<(PlayerAddr, u8)> = g.players.iter().map(|p| (p.ip, p.number)).collect();
    assert_eq!(before, after);
    assert_eq!(g.player_count, count);
}

#[test]
fn start_game_deals_twenty_to_the_dealer() {
    let mut g = PositiveMahjong::new();
    for k in 1..=3u128 {
        let _ = g.add_player(addr(k));
    }
    g.start_game();
    assert_eq!(g.players[0].cards.len(), 20);
    assert_eq!(g.players[1].cards.len(), 16);
    assert_eq!(g.players[2].cards.len(), 16);
    assert_eq!(g.unuse_cards.len(), 84 - 52);
    let mut all: Vec<PMJCard> = g.unuse_cards.clone();
    for p in g.players.iter() {
        all.extend(p.cards.iter().cloned());
    }
    assert_eq!(all.len(), 84);
    for i in 0..all.len() {
        for j in (i + 1)..all.len() {
            assert_ne!(all[i], all[j]);
        }
    }
    // the wall was shuffled: it is no longer in the order of a new deck
    let fresh = positive_mahjong::v1_simple_mode::new_deck();
    let still_sorted = g.unuse_cards.windows(2).all(|w| {
        let a = fresh.iter().position(|c| *c == w[0]).unwrap();
        let b = fresh.iter().position(|c| *c == w[1]).unwrap();
        a < b
    });
    assert!(!still_sorted);
}

#[test]
fn requests_before_the_start_are_refused() {
    let mut g = PositiveMahjong::new();
    let _ = g.add_player(addr(1));
    assert_eq!(left(g.replacing_a_flower(addr(1), 1)), "遊戲未開始！");
    assert_eq!(left(g.get_cards(addr(1), 1)), "遊戲未開始！");
    assert_eq!(
        left(g.player_round_action(addr(1), 1, GameActionPlayerRound::DrawATile)),
        "遊戲未開始！"
    );
    assert!(g.msg_queue_player.is_empty());
}

#[test]
fn requests_after_the_start() {
    let mut g = PositiveMahjong::new();
    let _ = g.add_player(addr(1));
    let _ = g.add_player(addr(2));
    g.is_start = true;
    let flower = card(PMJCardTypes::Flower(PMJCardFlowers::Spring), 0, 1);
    let dots = card(PMJCardTypes::Dots, 3, 1);
    g.players[1].cards.push(dots);
    g.players[0].cards.push(flower);
    // the hand looked up is the one at the index given by the number
    assert!(matches!(g.replacing_a_flower(addr(1), 1), Either::Right(())));
    g.players[1].cards.push(flower);
    assert_eq!(left(g.replacing_a_flower(addr(1), 1)), "無花可補！");
    assert_eq!(left(g.replacing_a_flower(addr(3), 1)), "無此玩家！");
    match g.get_cards(addr(1), 1) {
        Either::Right(cards) => assert_eq!(cards, vec![dots, flower]),
        Either::Left(e) => panic!("{}", e),
    }
    assert_eq!(left(g.get_cards(addr(9), 1)), "無此玩家！");
    assert!(matches!(g.wait_round_action(addr(2), 2, GameActionWaitRound::Eat(dots)), Either::Right(())));
    assert_eq!(
        left(g.wait_round_action(addr(2), 1, GameActionWaitRound::Eat(dots))),
        "無此玩家或非此玩家回合！"
    );
    assert_eq!(g.msg_queue_wait.len(), 1);
    assert!(matches!(g.player_round_after_action(addr(1), 1, GameActionAfter::Throw(dots)), Either::Right(())));
    assert!(matches!(g.wait_round_after_action(addr(1), 1, GameActionAfter::Throw(dots)), Either::Right(())));
    assert_eq!(g.msg_queue_after.len(), 2);
    let status = g.get_game_status();
    assert_eq!(status.round_type, GameRoundType::WaitRound);
    assert_eq!(status.rounds_count, 0);
    assert!(status.game_winner.is_none());
    assert_eq!(g.check_win_have_card(0, PMJCardTypes::Dots, 3), None);
}

#[test]
fn have_card_with_or_without_copy() {
    let mut g = PositiveMahjong::new();
    let _ = g.add_player(addr(1));
    g.players[0].cards.push(card(PMJCardTypes::Line, 4, 2));
    assert!(g.have_card(0, &card(PMJCardTypes::Line, 4, 2), false));
    assert!(!g.have_card(0, &card(PMJCardTypes::Line, 4, 1), false));
    assert!(g.have_card(0, &card(PMJCardTypes::Line, 4, 0), true));
    assert!(!g.have_card(0, &card(PMJCardTypes::Dots, 4, 0), true));
}

#[test]
fn eating_in_the_waiting_round() {
    let mut g = PositiveMahjong::new();
    let _ = g.add_player(addr(1));
    let _ = g.add_player(addr(2));
    let _ = g.add_player(addr(3));
    let five = card(PMJCardTypes::Dots, 5, 1);
    g.game_status.last_throw_card = Some(five);
    // nobody acted yet
    assert_eq!(g.scan_wait_round(1), WaitRoundScan::Waiting { need_after_throw: false });
    // the player of the turn does not count
    g.msg_queue_wait.push(PlayerWaitRoundAction { player_ip: addr(2), player_number: 1, action: GameActionWaitRound::Eat(five) });
    assert_eq!(g.scan_wait_round(1), WaitRoundScan::Waiting { need_after_throw: false });
    // player 2 (hand at index 2) lacks the ranks around 5
    g.msg_queue_wait.push(PlayerWaitRoundAction { player_ip: addr(3), player_number: 2, action: GameActionWaitRound::Eat(five) });
    assert_eq!(g.scan_wait_round(1), WaitRoundScan::Waiting { need_after_throw: true });
    g.players[2].cards.push(card(PMJCardTypes::Dots, 4, 3));
    g.players[2].cards.push(card(PMJCardTypes::Dots, 6, 1));
    assert_eq!(g.scan_wait_round(1), WaitRoundScan::EatAccepted { player_number: 2, card: five });
    // a card other than the last discard cannot be eaten
    g.game_status.last_throw_card = Some(card(PMJCardTypes::Dots, 5, 2));
    assert_eq!(g.scan_wait_round(1), WaitRoundScan::Waiting { need_after_throw: true });
}

#[test]
fn eating_at_the_ends_of_a_suit() {
    let mut g = PositiveMahjong::new();
    let _ = g.add_player(addr(1));
    let _ = g.add_player(addr(2));
    let one = card(PMJCardTypes::Line, 1, 1);
    let nine = card(PMJCardTypes::Line, 9, 1);
    g.players[1].cards.push(card(PMJCardTypes::Line, 2, 1));
    g.game_status.last_throw_card = Some(one);
    g.msg_queue_wait.push(PlayerWaitRoundAction { player_ip: addr(2), player_number: 1, action: GameActionWaitRound::Eat(one) });
    assert_eq!(g.scan_wait_round(2), WaitRoundScan::EatAccepted { player_number: 1, card: one });
    g.msg_queue_wait.clear();
    g.game_status.last_throw_card = Some(nine);
    g.msg_queue_wait.push(PlayerWaitRoundAction { player_ip: addr(2), player_number: 1, action: GameActionWaitRound::Eat(nine) });
    g.players[1].cards.push(card(PMJCardTypes::Line, 8, 1));
    assert_eq!(g.scan_wait_round(2), WaitRoundScan::Waiting { need_after_throw: true });
    g.players[1].cards.push(card(PMJCardTypes::Line, 7, 1));
    assert_eq!(g.scan_wait_round(2), WaitRoundScan::EatAccepted { player_number: 1, card: nine });
}

#[test]
fn the_players_round() {
    let mut g = PositiveMahjong::new();
    let _ = g.add_player(addr(1));
    let _ = g.add_player(addr(2));
    // nothing queued: nothing happens
    assert!(!g.player_round_draw(0));
    g.msg_queue_player.push(PlayerPlayerRoundAction { player_ip: addr(2), player_number: 1, action: GameActionPlayerRound::DrawATile });
    assert!(!g.player_round_draw(0));
    assert!(g.player_round_draw(1));
    assert_eq!(g.players[1].cards.len(), 4);
    assert_eq!(g.unuse_cards.len(), 80);
    assert!(g.msg_queue_player.is_empty());

    let held = g.players[1].cards[2];
    let absent = card(PMJCardTypes::Words(positive_mahjong::v1_simple_shared::PMJCardWords::East), 0, 9);
    g.msg_queue_after.push(AfterAction { player_ip: addr(2), player_number: 1, action: GameActionAfter::Throw(absent) });
    assert!(!g.player_round_throw(1));
    assert_eq!(g.msg_queue_after.len(), 1);
    g.msg_queue_after.push(AfterAction { player_ip: addr(2), player_number: 1, action: GameActionAfter::Throw(held) });
    assert!(g.player_round_throw(1));
    assert_eq!(g.players[1].cards.len(), 3);
    assert!(!g.players[1].cards.contains(&held));
    assert_eq!(g.game_status.last_throw_card, Some(held));
    assert!(g.msg_queue_after.is_empty());

    // the discard of the waiting round is not recorded as the last discard
    let other = g.players[1].cards[0];
    g.msg_queue_after.push(AfterAction { player_ip: addr(2), player_number: 1, action: GameActionAfter::Throw(other) });
    assert!(g.wait_round_throw(1));
    assert_eq!(g.players[1].cards.len(), 2);
    assert_eq!(g.game_status.last_throw_card, Some(held));
}

#[test]
fn the_game_loop_alternates() {
    let mut g = PositiveMahjong::new();
    let _ = g.add_player(addr(1));
    let _ = g.add_player(addr(2));
    let mut c = GameLoopCursor::new();
    // a new room starts in the waiting round
    assert_eq!(g.game_loop_step(c), GameLoopStep::WaitRound(0));
    c = g.game_loop_advance(c);
    assert_eq!(c, GameLoopCursor { round_player: 0, half: 1 });
    assert_eq!(g.game_loop_step(c), GameLoopStep::PlayerRound(0));
    c = g.game_loop_advance(c);
    assert_eq!(c, GameLoopCursor { round_player: 1, half: 0 });
    assert_eq!(g.game_loop_step(c), GameLoopStep::WaitRound(1));
    c = g.game_loop_advance(c);
    c = g.game_loop_advance(c);
    assert_eq!(c, GameLoopCursor { round_player: 0, half: 0 });
    assert_eq!(g.game_status.rounds_count, 1);
    g.change_game_round_type();
    assert_eq!(g.game_status.round_type, GameRoundType::PlayerRoound);
    g.game_status.is_game_finish = true;
    assert_eq!(g.game_loop_step(c), GameLoopStep::Finished);
}
