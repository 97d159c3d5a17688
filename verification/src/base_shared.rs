//! The Base ruleset: its tiles, written with one `info_` field per kind,
//! and the messages that server and clients exchange while playing it.

use vstd::prelude::*;
use vstd::string::StringExecFns;

use crate::table::{GameCard, TablePlayer};
use crate::v2_better_shared as v2;

verus! {

/// The most players a Base room seats.
pub const MAX_PLAYER_COUNT: u8 = 4;

/// A seated player: address, seat number, hand and the melds laid down
/// (for example a triplet `[A, A, A]` or a run `[B, C, D]`).
pub type PMJPlayer = TablePlayer<PMJCard, Vec<PMJCard>>;

/// A message from the server; which `info_` field is filled depends on
/// `msg_type`.
#[derive(Clone, Debug)]
pub struct ServerMessageType {
    pub msg_type: ServerMessageTypeKinds,
    pub info_change_turn: Option<u8>,
    pub info_hand_card_change: Option<Vec<PMJCard>>,
    /// The card that the receiver drew.
    pub info_get_card: Option<PMJCard>,
    /// Which player did what.
    pub info_player_action: Option<(u8, GameTurnTypes)>,
    pub info_error: Option<String>,
}

impl Default for ServerMessageType {
    fn default() -> (r: Self)
        ensures
            r.msg_type == ServerMessageTypeKinds::Error,
            r.info_change_turn is None,
            r.info_hand_card_change is None,
            r.info_get_card is None,
            r.info_player_action is None,
            r.info_error is None,
    {
        ServerMessageType {
            msg_type: ServerMessageTypeKinds::Error,
            info_change_turn: None,
            info_hand_card_change: None,
            info_get_card: None,
            info_player_action: None,
            info_error: None,
        }
    }
}

/// The kinds of server messages.
#[derive(Clone, Copy, Debug, PartialEq, Eq, Structural)]
pub enum ServerMessageTypeKinds {
    GameStart,
    GameFinish,
    ChangedTurn,
    /// The hand of the receiver changed.
    HandCardChange,
    /// The receiver drew a card.
    GetCard,
    /// Another player acted.
    PlayerAction,
    Error,
}

/// A message from a client; the `info_` field that matches `msg_type`
/// carries its cards. A game action names the action in
/// `info_game_action` and, for a discard, the card in `info_throw_card`.
#[derive(Clone, Copy, Debug)]
pub struct ClientMessageType {
    pub msg_type: ClientMessageTypeKinds,
    /// The action of a game action.
    pub info_game_action: Option<GameTurnTypes>,
    /// 丟牌
    pub info_throw_card: Option<PMJCard>,
    /// 補花
    pub info_replace_a_flower: Option<PMJCard>,
    /// 吃
    pub info_eat: Option<(PMJCard, PMJCard)>,
    /// 碰
    pub info_triplet: Option<(PMJCard, PMJCard)>,
    /// 明槓
    pub info_exposed_kong: Option<(PMJCard, PMJCard, PMJCard)>,
    /// 暗槓
    pub info_concealed_kong: Option<(PMJCard, PMJCard, PMJCard)>,
}

impl Default for ClientMessageType {
    fn default() -> (r: Self)
        ensures
            r.msg_type == ClientMessageTypeKinds::GetCard,
            r.info_game_action is None,
            r.info_throw_card is None,
            r.info_replace_a_flower is None,
            r.info_eat is None,
            r.info_triplet is None,
            r.info_exposed_kong is None,
            r.info_concealed_kong is None,
    {
        ClientMessageType {
            msg_type: ClientMessageTypeKinds::GetCard,
            info_game_action: None,
            info_throw_card: None,
            info_replace_a_flower: None,
            info_concealed_kong: None,
            info_eat: None,
            info_exposed_kong: None,
            info_triplet: None,
        }
    }
}

/// The kinds of client messages.
#[derive(Clone, Copy, Debug, PartialEq, Eq, Structural)]
pub enum ClientMessageTypeKinds {
    /// 抽牌
    GetCard,
    /// 丟牌
    ThrowCard,
    /// 補花
    ReplacingAFlower,
    /// 吃
    Eat,
    /// 碰
    Triplet,
    /// 明槓
    ExposedKong,
    /// 暗槓
    ConcealedKong,
    /// An action of the game, the kind of message the game loop reads.
    GameAction,
}

/// What a player is to do on its turn.
#[derive(Clone, Copy, Debug, PartialEq, Eq, Structural)]
pub enum GameTurnTypes {
    /// 抽牌
    GetCard,
    /// 丟牌
    ThrowCard,
    /// 吃
    Eat,
    /// 碰
    Triplet,
    /// 明槓
    ExposedKong,
    /// 暗槓
    ConcealedKong,
    /// 補花
    ReplaceFlower,
}

/// One tile: its kind, which copy it is, and in the field of its kind its
/// rank or name.
#[derive(Clone, Copy, Debug, PartialEq, Eq, Structural, PartialOrd, Ord)]
pub struct PMJCard {
    pub card_type: PMJCardType,
    pub card_id: u8,
    /// 萬
    pub info_ten_thousand: Option<u8>,
    /// 條
    pub info_line: Option<u8>,
    /// 筒
    pub info_dots: Option<u8>,
    /// 花
    pub info_flower: Option<PMJCardFlowerType>,
    /// 字
    pub info_words: Option<PMJCardWordsType>,
}

/// The kinds of tiles.
#[derive(Clone, Copy, Debug, PartialEq, Eq, Structural, PartialOrd, Ord)]
pub enum PMJCardType {
    /// 萬
    TenThousand,
    /// 條
    Line,
    /// 筒
    Dots,
    /// 花
    Flower,
    /// 字
    Words,
}

/// The eight flowers.
#[derive(Clone, Copy, Debug, PartialEq, Eq, Structural, PartialOrd, Ord)]
pub enum PMJCardFlowerType {
    /// 春
    Spring,
    /// 夏
    Summer,
    /// 秋
    Fall,
    /// 冬
    Winter,
    /// 梅
    Plum,
    /// 蘭
    Orchid,
    /// 竹
    Bamboo,
    /// 菊
    Chrysanthemum,
}

/// The seven honours.
#[derive(Clone, Copy, Debug, PartialEq, Eq, Structural, PartialOrd, Ord)]
pub enum PMJCardWordsType {
    /// 東
    East,
    /// 南
    South,
    /// 西
    West,
    /// 北
    North,
    /// 紅中
    RedDragon,
    /// 青發
    GreenDragon,
    /// 白板
    WhiteDragon,
}

impl GameCard for PMJCard {
    open spec fn spec_is_flower(&self) -> bool {
        self.card_type == PMJCardType::Flower
    }

    fn is_flower_card(&self) -> (r: bool) {
        self.card_type == PMJCardType::Flower
    }

    fn same_card(&self, other: &Self) -> (r: bool) {
        *self == *other
    }
}

/// The name of a flower.
pub open spec fn flower_name(f: PMJCardFlowerType) -> Seq<char> {
    match f {
        PMJCardFlowerType::Spring => "春"@,
        PMJCardFlowerType::Summer => "夏"@,
        PMJCardFlowerType::Fall => "秋"@,
        PMJCardFlowerType::Winter => "冬"@,
        PMJCardFlowerType::Plum => "梅"@,
        PMJCardFlowerType::Orchid => "蘭"@,
        PMJCardFlowerType::Bamboo => "竹"@,
        PMJCardFlowerType::Chrysanthemum => "菊"@,
    }
}

/// The name of an honour.
pub open spec fn word_name(w: PMJCardWordsType) -> Seq<char> {
    match w {
        PMJCardWordsType::East => "東"@,
        PMJCardWordsType::South => "南"@,
        PMJCardWordsType::West => "西"@,
        PMJCardWordsType::North => "北"@,
        PMJCardWordsType::RedDragon => "中"@,
        PMJCardWordsType::GreenDragon => "青發"@,
        PMJCardWordsType::WhiteDragon => "白板"@,
    }
}

/// Every flower and every honour has a name of its own, no flower shares
/// a name with an honour, and the names run, in the order of the variants,
/// 春夏秋冬梅蘭竹菊 for the flowers and 東南西北中青發白板 for the honours:
/// one character each, but two for the green and the white dragon.
pub proof fn lemma_tile_names()
    ensures
        forall|a: PMJCardWordsType, b: PMJCardWordsType| #![trigger word_name(a), word_name(b)] word_name(a) == word_name(b) ==> a == b,
        forall|a: PMJCardFlowerType, b: PMJCardFlowerType| #![trigger flower_name(a), flower_name(b)] flower_name(a) == flower_name(b) ==> a == b,
        forall|f: PMJCardFlowerType, w: PMJCardWordsType| #![trigger flower_name(f), word_name(w)] flower_name(f) != word_name(w),
        forall|f: PMJCardFlowerType| #[trigger] flower_name(f).len() == 1,
        forall|w: PMJCardWordsType| #[trigger] word_name(w).len() == if w is GreenDragon || w is WhiteDragon {
            2int
        } else {
            1int
        },
        flower_name(PMJCardFlowerType::Spring) + flower_name(PMJCardFlowerType::Summer) + flower_name(PMJCardFlowerType::Fall) + flower_name(PMJCardFlowerType::Winter) + flower_name(PMJCardFlowerType::Plum) + flower_name(PMJCardFlowerType::Orchid) + flower_name(PMJCardFlowerType::Bamboo) + flower_name(PMJCardFlowerType::Chrysanthemum) == "春夏秋冬梅蘭竹菊"@,
        word_name(PMJCardWordsType::East) + word_name(PMJCardWordsType::South) + word_name(PMJCardWordsType::West) + word_name(PMJCardWordsType::North) + word_name(PMJCardWordsType::RedDragon) + word_name(PMJCardWordsType::GreenDragon) + word_name(PMJCardWordsType::WhiteDragon) == "東南西北中青發白板"@,
{
    reveal_strlit("春");
    reveal_strlit("夏");
    reveal_strlit("秋");
    reveal_strlit("冬");
    reveal_strlit("梅");
    reveal_strlit("蘭");
    reveal_strlit("竹");
    reveal_strlit("菊");
    reveal_strlit("東");
    reveal_strlit("南");
    reveal_strlit("西");
    reveal_strlit("北");
    reveal_strlit("中");
    reveal_strlit("青發");
    reveal_strlit("白板");
    reveal_strlit("春夏秋冬梅蘭竹菊");
    reveal_strlit("東南西北中青發白板");
    assert forall|a: PMJCardWordsType, b: PMJCardWordsType| #![trigger word_name(a), word_name(b)] word_name(a) == word_name(b) implies a == b by {
        assert(word_name(a)[0] == word_name(b)[0]);
    }
    assert forall|a: PMJCardFlowerType, b: PMJCardFlowerType| #![trigger flower_name(a), flower_name(b)] flower_name(a) == flower_name(b) implies a == b by {
        assert(flower_name(a)[0] == flower_name(b)[0]);
    }
    assert forall|f: PMJCardFlowerType, w: PMJCardWordsType| #![trigger flower_name(f), word_name(w)] flower_name(f) != word_name(w) by {
        if flower_name(f).len() == word_name(w).len() {
            assert(flower_name(f)[0] != word_name(w)[0]);
        }
    }
    assert(flower_name(PMJCardFlowerType::Spring) + flower_name(PMJCardFlowerType::Summer) + flower_name(PMJCardFlowerType::Fall) + flower_name(PMJCardFlowerType::Winter) + flower_name(PMJCardFlowerType::Plum) + flower_name(PMJCardFlowerType::Orchid) + flower_name(PMJCardFlowerType::Bamboo) + flower_name(PMJCardFlowerType::Chrysanthemum) =~= "春夏秋冬梅蘭竹菊"@);
    assert(word_name(PMJCardWordsType::East) + word_name(PMJCardWordsType::South) + word_name(PMJCardWordsType::West) + word_name(PMJCardWordsType::North) + word_name(PMJCardWordsType::RedDragon) + word_name(PMJCardWordsType::GreenDragon) + word_name(PMJCardWordsType::WhiteDragon) =~= "東南西北中青發白板"@);
}

impl PMJCardFlowerType {
    pub fn to_string(&self) -> (r: String)
        ensures
            r@ == flower_name(*self),
    {
        String::from_str(
            match self {
                PMJCardFlowerType::Spring => "春",
                PMJCardFlowerType::Summer => "夏",
                PMJCardFlowerType::Fall => "秋",
                PMJCardFlowerType::Winter => "冬",
                PMJCardFlowerType::Plum => "梅",
                PMJCardFlowerType::Orchid => "蘭",
                PMJCardFlowerType::Bamboo => "竹",
                PMJCardFlowerType::Chrysanthemum => "菊",
            },
        )
    }
}

impl PMJCardWordsType {
    pub fn to_string(&self) -> (r: String)
        ensures
            r@ == word_name(*self),
    {
        String::from_str(
            match self {
                PMJCardWordsType::East => "東",
                PMJCardWordsType::South => "南",
                PMJCardWordsType::West => "西",
                PMJCardWordsType::North => "北",
                PMJCardWordsType::RedDragon => "中",
                PMJCardWordsType::GreenDragon => "青發",
                PMJCardWordsType::WhiteDragon => "白板",
            },
        )
    }
}

// ---------------------------------------------------------------------
// The deck
// ---------------------------------------------------------------------

pub open spec fn flower_of(f: v2::PMJCardFlowerType) -> PMJCardFlowerType {
    match f {
        v2::PMJCardFlowerType::Spring => PMJCardFlowerType::Spring,
        v2::PMJCardFlowerType::Summer => PMJCardFlowerType::Summer,
        v2::PMJCardFlowerType::Fall => PMJCardFlowerType::Fall,
        v2::PMJCardFlowerType::Winter => PMJCardFlowerType::Winter,
        v2::PMJCardFlowerType::Plum => PMJCardFlowerType::Plum,
        v2::PMJCardFlowerType::Orchid => PMJCardFlowerType::Orchid,
        v2::PMJCardFlowerType::Bamboo => PMJCardFlowerType::Bamboo,
        v2::PMJCardFlowerType::Chrysanthemum => PMJCardFlowerType::Chrysanthemum,
    }
}

pub open spec fn word_of(w: v2::PMJCardWordsType) -> PMJCardWordsType {
    match w {
        v2::PMJCardWordsType::East => PMJCardWordsType::East,
        v2::PMJCardWordsType::South => PMJCardWordsType::South,
        v2::PMJCardWordsType::West => PMJCardWordsType::West,
        v2::PMJCardWordsType::North => PMJCardWordsType::North,
        v2::PMJCardWordsType::RedDragon => PMJCardWordsType::RedDragon,
        v2::PMJCardWordsType::GreenDragon => PMJCardWordsType::GreenDragon,
        v2::PMJCardWordsType::WhiteDragon => PMJCardWordsType::WhiteDragon,
    }
}

/// The same tile written the Base way: the kind, the copy, and the rank or
/// name in the field of that kind.
pub open spec fn base_card(c: v2::PMJCard) -> PMJCard {
    let blank = PMJCard {
        card_type: PMJCardType::Dots,
        card_id: c.card_id,
        info_ten_thousand: None,
        info_line: None,
        info_dots: None,
        info_flower: None,
        info_words: None,
    };
    match c.card_type {
        v2::PMJCardType::Dots(n) => PMJCard { card_type: PMJCardType::Dots, info_dots: Some(n), ..blank },
        v2::PMJCardType::Line(n) => PMJCard { card_type: PMJCardType::Line, info_line: Some(n), ..blank },
        v2::PMJCardType::TenThousand(n) => PMJCard {
            card_type: PMJCardType::TenThousand,
            info_ten_thousand: Some(n),
            ..blank
        },
        v2::PMJCardType::Flower(f) => PMJCard {
            card_type: PMJCardType::Flower,
            info_flower: Some(flower_of(f)),
            ..blank
        },
        v2::PMJCardType::Words(w) => PMJCard {
            card_type: PMJCardType::Words,
            info_words: Some(word_of(w)),
            ..blank
        },
    }
}

/// The 144 cards of a new Base deck: the tiles of a new V2Better deck, in
/// the same order.
pub open spec fn full_deck() -> Seq<PMJCard> {
    v2::full_deck().map_values(|c: v2::PMJCard| base_card(c))
}

fn base_card_of(c: v2::PMJCard) -> (r: PMJCard)
    ensures
        r == base_card(c),
{
    let blank = PMJCard {
        card_type: PMJCardType::Dots,
        card_id: c.card_id,
        info_ten_thousand: None,
        info_line: None,
        info_dots: None,
        info_flower: None,
        info_words: None,
    };
    match c.card_type {
        v2::PMJCardType::Dots(n) => PMJCard { card_type: PMJCardType::Dots, info_dots: Some(n), ..blank },
        v2::PMJCardType::Line(n) => PMJCard { card_type: PMJCardType::Line, info_line: Some(n), ..blank },
        v2::PMJCardType::TenThousand(n) => PMJCard {
            card_type: PMJCardType::TenThousand,
            info_ten_thousand: Some(n),
            ..blank
        },
        v2::PMJCardType::Flower(f) => PMJCard {
            card_type: PMJCardType::Flower,
            info_flower: Some(
                match f {
                    v2::PMJCardFlowerType::Spring => PMJCardFlowerType::Spring,
                    v2::PMJCardFlowerType::Summer => PMJCardFlowerType::Summer,
                    v2::PMJCardFlowerType::Fall => PMJCardFlowerType::Fall,
                    v2::PMJCardFlowerType::Winter => PMJCardFlowerType::Winter,
                    v2::PMJCardFlowerType::Plum => PMJCardFlowerType::Plum,
                    v2::PMJCardFlowerType::Orchid => PMJCardFlowerType::Orchid,
                    v2::PMJCardFlowerType::Bamboo => PMJCardFlowerType::Bamboo,
                    v2::PMJCardFlowerType::Chrysanthemum => PMJCardFlowerType::Chrysanthemum,
                },
            ),
            ..blank
        },
        v2::PMJCardType::Words(w) => PMJCard {
            card_type: PMJCardType::Words,
            info_words: Some(
                match w {
                    v2::PMJCardWordsType::East => PMJCardWordsType::East,
                    v2::PMJCardWordsType::South => PMJCardWordsType::South,
                    v2::PMJCardWordsType::West => PMJCardWordsType::West,
                    v2::PMJCardWordsType::North => PMJCardWordsType::North,
                    v2::PMJCardWordsType::RedDragon => PMJCardWordsType::RedDragon,
                    v2::PMJCardWordsType::GreenDragon => PMJCardWordsType::GreenDragon,
                    v2::PMJCardWordsType::WhiteDragon => PMJCardWordsType::WhiteDragon,
                },
            ),
            ..blank
        },
    }
}

/// A new deck, in the order of `full_deck`.
pub fn new_deck() -> (d: Vec<PMJCard>)
    ensures
        d@ == full_deck(),
{
    let source = v2::new_deck();
    let mut d: Vec<PMJCard> = Vec::new();
    let mut i: usize = 0;
    while i < source.len()
        invariant
            i <= source@.len(),
            source@ == v2::full_deck(),
            d@ == full_deck().take(i as int),
        decreases source@.len() - i,
    {
        d.push(base_card_of(source[i]));
        proof {
            assert(d@ =~= full_deck().take(i + 1));
        }
        i = i + 1;
    }
    proof {
        assert(d@ =~= full_deck());
    }
    d
}

/// Writing a tile the Base way loses nothing: two tiles with the same Base
/// form are the same tile.
pub proof fn lemma_base_card_injective(a: v2::PMJCard, b: v2::PMJCard)
    requires
        base_card(a) == base_card(b),
    ensures
        a == b,
{
}

/// A new Base deck holds 144 cards, no card twice, and exactly the cards 108
/// to 115 are flowers.
pub proof fn lemma_full_deck()
    ensures
        full_deck().len() == 144,
        full_deck().no_duplicates(),
        forall|i: int|
            0 <= i < 144 ==> (#[trigger] full_deck()[i].card_type == PMJCardType::Flower <==> 108
                <= i < 116),
{
    v2::lemma_full_deck();
    assert forall|i: int, j: int| 0 <= i < 144 && 0 <= j < 144 && i != j implies full_deck()[i]
        != full_deck()[j] by {
        if full_deck()[i] == full_deck()[j] {
            lemma_base_card_injective(v2::full_deck()[i], v2::full_deck()[j]);
        }
    }
    assert forall|i: int| 0 <= i < 144 implies (#[trigger] full_deck()[i].card_type
        == PMJCardType::Flower <==> 108 <= i < 116) by {
        assert(v2::full_deck()[i].card_type is Flower <==> 108 <= i < 116);
    }
}


/// A tile that a new Base deck holds: a suited tile has its rank, 1 to 9, in
/// the field of its suit and is copy 1 to 4; a flower names its flower and
/// is copy 1; an honour names its honour and is copy 1 to 4. The fields of
/// the other kinds are empty.
pub open spec fn is_valid_base_tile(c: PMJCard) -> bool {
    &&& (c.info_dots is Some) == (c.card_type == PMJCardType::Dots)
    &&& (c.info_line is Some) == (c.card_type == PMJCardType::Line)
    &&& (c.info_ten_thousand is Some) == (c.card_type == PMJCardType::TenThousand)
    &&& (c.info_flower is Some) == (c.card_type == PMJCardType::Flower)
    &&& (c.info_words is Some) == (c.card_type == PMJCardType::Words)
    &&& match c.card_type {
        PMJCardType::Dots => 1 <= c.info_dots->0 <= 9 && 1 <= c.card_id <= 4,
        PMJCardType::Line => 1 <= c.info_line->0 <= 9 && 1 <= c.card_id <= 4,
        PMJCardType::TenThousand => 1 <= c.info_ten_thousand->0 <= 9 && 1 <= c.card_id <= 4,
        PMJCardType::Flower => c.card_id == 1,
        PMJCardType::Words => 1 <= c.card_id <= 4,
    }
}

spec fn v2_flower(f: PMJCardFlowerType) -> v2::PMJCardFlowerType {
    match f {
        PMJCardFlowerType::Spring => v2::PMJCardFlowerType::Spring,
        PMJCardFlowerType::Summer => v2::PMJCardFlowerType::Summer,
        PMJCardFlowerType::Fall => v2::PMJCardFlowerType::Fall,
        PMJCardFlowerType::Winter => v2::PMJCardFlowerType::Winter,
        PMJCardFlowerType::Plum => v2::PMJCardFlowerType::Plum,
        PMJCardFlowerType::Orchid => v2::PMJCardFlowerType::Orchid,
        PMJCardFlowerType::Bamboo => v2::PMJCardFlowerType::Bamboo,
        PMJCardFlowerType::Chrysanthemum => v2::PMJCardFlowerType::Chrysanthemum,
    }
}

spec fn v2_word(w: PMJCardWordsType) -> v2::PMJCardWordsType {
    match w {
        PMJCardWordsType::East => v2::PMJCardWordsType::East,
        PMJCardWordsType::South => v2::PMJCardWordsType::South,
        PMJCardWordsType::West => v2::PMJCardWordsType::West,
        PMJCardWordsType::North => v2::PMJCardWordsType::North,
        PMJCardWordsType::RedDragon => v2::PMJCardWordsType::RedDragon,
        PMJCardWordsType::GreenDragon => v2::PMJCardWordsType::GreenDragon,
        PMJCardWordsType::WhiteDragon => v2::PMJCardWordsType::WhiteDragon,
    }
}

spec fn v2_tile(c: PMJCard) -> v2::PMJCard {
    v2::PMJCard {
        card_type: match c.card_type {
            PMJCardType::Dots => v2::PMJCardType::Dots(c.info_dots->0),
            PMJCardType::Line => v2::PMJCardType::Line(c.info_line->0),
            PMJCardType::TenThousand => v2::PMJCardType::TenThousand(c.info_ten_thousand->0),
            PMJCardType::Flower => v2::PMJCardType::Flower(v2_flower(c.info_flower->0)),
            PMJCardType::Words => v2::PMJCardType::Words(v2_word(c.info_words->0)),
        },
        card_id: c.card_id,
    }
}

/// A new Base deck holds every valid Base tile exactly once and nothing
/// else: 144 cards.
pub proof fn lemma_base_deck_tiles()
    ensures
        full_deck().len() == 144,
        full_deck().no_duplicates(),
        forall|c: PMJCard| #[trigger] full_deck().contains(c) <==> is_valid_base_tile(c),
{
    lemma_full_deck();
    v2::lemma_full_deck();
    assert forall|c: PMJCard| #[trigger] full_deck().contains(c) <==> is_valid_base_tile(c) by {
        if full_deck().contains(c) {
            let i = choose|i: int| 0 <= i < full_deck().len() && full_deck()[i] == c;
            assert(v2::full_deck().contains(v2::full_deck()[i]));
            assert(v2::is_valid_tile(v2::full_deck()[i]));
        }
        if is_valid_base_tile(c) {
            let v = v2_tile(c);
            assert(v2::is_valid_tile(v));
            assert(base_card(v) == c);
            assert(v2::full_deck().contains(v));
            let j = choose|j: int| 0 <= j < v2::full_deck().len() && v2::full_deck()[j] == v;
            assert(full_deck()[j] == c);
        }
    }
}


/// Writing a tile the Base way keeps what it is: its copy, its suit and
/// rank, and the name of its flower or honour.
pub proof fn lemma_base_card_keeps_tile(c: v2::PMJCard)
    ensures
        base_card(c).card_id == c.card_id,
        c.card_type matches v2::PMJCardType::Dots(n) ==> base_card(c).card_type == PMJCardType::Dots
            && base_card(c).info_dots == Some(n),
        c.card_type matches v2::PMJCardType::Line(n) ==> base_card(c).card_type == PMJCardType::Line
            && base_card(c).info_line == Some(n),
        c.card_type matches v2::PMJCardType::TenThousand(n) ==> base_card(c).card_type
            == PMJCardType::TenThousand && base_card(c).info_ten_thousand == Some(n),
        c.card_type matches v2::PMJCardType::Flower(f) ==> base_card(c).card_type == PMJCardType::Flower
            && base_card(c).info_flower is Some && flower_name(base_card(c).info_flower->0) == v2::flower_name(f),
        c.card_type matches v2::PMJCardType::Words(w) ==> base_card(c).card_type == PMJCardType::Words
            && base_card(c).info_words is Some && word_name(base_card(c).info_words->0) == v2::word_name(w),
{
}

} // verus!
