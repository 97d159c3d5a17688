use positive_mahjong::base_shared;
use positive_mahjong::text::{u16_to_decimal, u8_to_decimal};
use positive_mahjong::v1_simple_mode;
use positive_mahjong::v1_simple_shared::{
    GameActionAfter, GameActionPlayerRound, GameActionWaitRound, PMJCard as V1Card, PMJCardFlowers,
    PMJCardTypes, PMJCardWords,
};
use positive_mahjong::v2_better_shared::{
    new_deck, PMJCard, PMJCardFlowerType, PMJCardType, PMJCardWordsType,
};

#[test]
fn v2_deck_has_every_tile_once() {
    let d = new_deck();
    assert_eq!(d.len(), 144);
    for i in 0..d.len() {
        for j in (i + 1)..d.len() {
            assert_ne!(d[i], d[j]);
        }
    }
    let flowers: Vec<usize> = (0..d.len()).filter(|&i| d[i].card_type.is_flower()).collect();
    assert_eq!(flowers, (108..116).collect::<Vec<usize>>());
    assert_eq!(d.iter().filter(|c| c.card_type.is_words()).count(), 28);
    assert_eq!(d.iter().filter(|c| c.card_type.is_dots()).count(), 36);
    assert_eq!(d.iter().filter(|c| c.card_type.is_line()).count(), 36);
    assert_eq!(d.iter().filter(|c| c.card_type.is_ten_thousand()).count(), 36);
    assert_eq!(d[0], PMJCard { card_type: PMJCardType::Dots(1), card_id: 1 });
}

#[test]
fn v2_card_kind_tests() {
    let t = PMJCardType::TenThousand(3);
    assert!(t.is_ten_thousand() && !t.is_line() && !t.is_dots() && !t.is_flower() && !t.is_words());
    let f = PMJCardType::Flower(PMJCardFlowerType::Plum);
    assert!(f.is_flower() && !f.is_words());
    let w = PMJCardType::Words(PMJCardWordsType::East);
    assert!(w.is_words() && !w.is_flower() && !w.is_dots());
    assert!(PMJCardType::Line(9).is_line());
    assert!(PMJCardType::Dots(1).is_dots());
}

#[test]
fn v2_card_names() {
    assert_eq!(PMJCard { card_type: PMJCardType::Dots(7), card_id: 2 }.to_string(), "7筒");
    assert_eq!(PMJCard { card_type: PMJCardType::Line(1), card_id: 1 }.to_string(), "1條");
    assert_eq!(PMJCard { card_type: PMJCardType::TenThousand(9), card_id: 4 }.to_string(), "9萬");
    assert_eq!(
        PMJCard { card_type: PMJCardType::Flower(PMJCardFlowerType::Chrysanthemum), card_id: 1 }.to_string(),
        "菊"
    );
    assert_eq!(
        PMJCard { card_type: PMJCardType::Words(PMJCardWordsType::GreenDragon), card_id: 1 }.to_string(),
        "青發"
    );
}

#[test]
fn base_deck_has_every_tile_once() {
    let d = base_shared::new_deck();
    assert_eq!(d.len(), 144);
    for i in 0..d.len() {
        for j in (i + 1)..d.len() {
            assert_ne!(d[i], d[j]);
        }
    }
    let flowers = d.iter().filter(|c| c.card_type == base_shared::PMJCardType::Flower).count();
    assert_eq!(flowers, 8);
    for c in d.iter() {
        match c.card_type {
            base_shared::PMJCardType::Dots => assert!(c.info_dots.is_some()),
            base_shared::PMJCardType::Line => assert!(c.info_line.is_some()),
            base_shared::PMJCardType::TenThousand => assert!(c.info_ten_thousand.is_some()),
            base_shared::PMJCardType::Flower => assert!(c.info_flower.is_some()),
            base_shared::PMJCardType::Words => assert!(c.info_words.is_some()),
        }
    }
    assert_eq!(base_shared::PMJCardFlowerType::Winter.to_string(), "冬");
    assert_eq!(base_shared::PMJCardWordsType::WhiteDragon.to_string(), "白板");
}

#[test]
fn v1_deck_has_every_tile_once() {
    let d = v1_simple_mode::new_deck();
    assert_eq!(d.len(), 84);
    for i in 0..d.len() {
        for j in (i + 1)..d.len() {
            assert_ne!(d[i], d[j]);
        }
    }
    for (i, c) in d.iter().enumerate() {
        let is_flower = matches!(c.card_type, PMJCardTypes::Flower(_));
        assert_eq!(is_flower, i >= 76);
    }
    for c in d.iter() {
        let suited = matches!(c.card_type, PMJCardTypes::TenThousand | PMJCardTypes::Line | PMJCardTypes::Dots);
        if suited {
            assert!(1 <= c.card_number && c.card_number <= 4);
        } else {
            assert_eq!(c.card_number, 0);
        }
    }
    assert_eq!(d[0], V1Card { card_type: PMJCardTypes::TenThousand, card_number: 1, card_id: 1 });
    assert_eq!(d[47], V1Card { card_type: PMJCardTypes::Dots, card_number: 4, card_id: 4 });
    assert_eq!(d[83], V1Card { card_type: PMJCardTypes::Flower(PMJCardFlowers::Chrysanthemum), card_number: 0, card_id: 1 });
}

#[test]
fn v1_get_all_lists_in_order() {
    let f = PMJCardFlowers::get_all();
    assert_eq!(
        f,
        vec![
            PMJCardFlowers::Spring,
            PMJCardFlowers::Summer,
            PMJCardFlowers::Fall,
            PMJCardFlowers::Winter,
            PMJCardFlowers::Plum,
            PMJCardFlowers::Orchid,
            PMJCardFlowers::Bamboo,
            PMJCardFlowers::Chrysanthemum,
        ]
    );
    let w = PMJCardWords::get_all();
    assert_eq!(
        w,
        vec![
            PMJCardWords::East,
            PMJCardWords::South,
            PMJCardWords::West,
            PMJCardWords::North,
            PMJCardWords::RedDragon,
            PMJCardWords::GreenDragon,
            PMJCardWords::WhiteDragon,
        ]
    );
}

#[test]
fn v1_names() {
    assert_eq!(V1Card { card_type: PMJCardTypes::Dots, card_number: 5, card_id: 1 }.to_string(), "5筒");
    assert_eq!(V1Card { card_type: PMJCardTypes::Words(PMJCardWords::RedDragon), card_number: 0, card_id: 1 }.to_string(), "0中");
    assert_eq!(PMJCardFlowers::Orchid.to_string(), "蘭");
    assert_eq!(PMJCardWords::North.to_string(), "北");
    let c = V1Card { card_type: PMJCardTypes::Line, card_number: 2, card_id: 3 };
    assert_eq!(GameActionAfter::Throw(c).to_string(), "丟牌");
    assert_eq!(GameActionWaitRound::Eat(c).to_string(), "吃");
    assert_eq!(GameActionWaitRound::ConcealedKong(c).to_string(), "暗槓");
    assert_eq!(GameActionPlayerRound::DrawATile.to_string(), "摸牌");
}

#[test]
fn decimal_numbers() {
    assert_eq!(u8_to_decimal(0), "0");
    assert_eq!(u8_to_decimal(9), "9");
    assert_eq!(u8_to_decimal(10), "10");
    assert_eq!(u8_to_decimal(255), "255");
    assert_eq!(u16_to_decimal(6060), "6060");
    assert_eq!(u16_to_decimal(65535), "65535");
    assert_eq!(u16_to_decimal(7), "7");
}

#[test]
fn cards_order_by_kind_then_rank_then_copy() {
    let a = PMJCard { card_type: PMJCardType::TenThousand(9), card_id: 4 };
    let b = PMJCard { card_type: PMJCardType::Line(1), card_id: 1 };
    let c = PMJCard { card_type: PMJCardType::Line(1), card_id: 2 };
    let d = PMJCard { card_type: PMJCardType::Line(2), card_id: 1 };
    assert!(a < b && b < c && c < d);
    let e = V1Card { card_type: PMJCardTypes::TenThousand, card_number: 4, card_id: 1 };
    let f = V1Card { card_type: PMJCardTypes::Line, card_number: 1, card_id: 1 };
    assert!(e < f);
    let mut v = vec![d, a, c, b];
    v.sort();
    assert_eq!(v, vec![a, b, c, d]);
}
