//! The V1Simple ruleset: tiles with a separate rank, the actions of the
//! two kinds of rounds, and the replies of its HTTP protocol.

use vstd::prelude::*;
use vstd::string::StringExecFns;

use crate::text::{decimal, u8_to_decimal};

verus! {

/// One tile.
#[derive(Clone, Copy, Debug, PartialEq, Eq, Structural, PartialOrd, Ord)]
pub struct PMJCard {
    pub card_type: PMJCardTypes,
    /// The rank, 1 to 4, for characters, bamboos and dots; 0 for flowers and
    /// honours.
    pub card_number: u8,
    /// Which copy of the tile it is.
    pub card_id: u8,
}

/// The kinds of tiles.
#[derive(Clone, Copy, Debug, PartialEq, Eq, Structural, PartialOrd, Ord)]
pub enum PMJCardTypes {
    /// 萬
    TenThousand,
    /// 條
    Line,
    /// 筒
    Dots,
    /// 花
    Flower(PMJCardFlowers),
    /// 字
    Words(PMJCardWords),
}

/// The eight flowers.
#[derive(Clone, Copy, Debug, PartialEq, Eq, Structural, PartialOrd, Ord)]
pub enum PMJCardFlowers {
    /// 春
    Spring,
    /// 夏
    Summer,
    /// 秋
    Fall,
    /// 冬
    Winter,
    /// 梅
    Plum,
    /// 蘭
    Orchid,
    /// 竹
    Bamboo,
    /// 菊
    Chrysanthemum,
}

/// The seven honours.
#[derive(Clone, Copy, Debug, PartialEq, Eq, Structural, PartialOrd, Ord)]
pub enum PMJCardWords {
    /// 東
    East,
    /// 南
    South,
    /// 西
    West,
    /// 北
    North,
    /// 中 (紅中)
    RedDragon,
    /// 青發
    GreenDragon,
    /// 白板
    WhiteDragon,
}

/// All flowers, in declaration order.
pub open spec fn all_flowers() -> Seq<PMJCardFlowers> {
    seq![
        PMJCardFlowers::Spring,
        PMJCardFlowers::Summer,
        PMJCardFlowers::Fall,
        PMJCardFlowers::Winter,
        PMJCardFlowers::Plum,
        PMJCardFlowers::Orchid,
        PMJCardFlowers::Bamboo,
        PMJCardFlowers::Chrysanthemum,
    ]
}

/// All honours, in declaration order.
pub open spec fn all_words() -> Seq<PMJCardWords> {
    seq![
        PMJCardWords::East,
        PMJCardWords::South,
        PMJCardWords::West,
        PMJCardWords::North,
        PMJCardWords::RedDragon,
        PMJCardWords::GreenDragon,
        PMJCardWords::WhiteDragon,
    ]
}

impl PMJCardFlowers {
    /// Every flower once, in declaration order.
    pub fn get_all() -> (r: Vec<Self>)
        ensures
            r@ == all_flowers(),
    {
        let r = vec![
            PMJCardFlowers::Spring,
            PMJCardFlowers::Summer,
            PMJCardFlowers::Fall,
            PMJCardFlowers::Winter,
            PMJCardFlowers::Plum,
            PMJCardFlowers::Orchid,
            PMJCardFlowers::Bamboo,
            PMJCardFlowers::Chrysanthemum,
        ];
        proof {
            assert(r@ =~= all_flowers());
        }
        r
    }

    pub fn to_string(&self) -> (r: String)
        ensures
            r@ == flower_name(*self),
    {
        String::from_str(
            match self {
                PMJCardFlowers::Spring => "春",
                PMJCardFlowers::Summer => "夏",
                PMJCardFlowers::Fall => "秋",
                PMJCardFlowers::Winter => "冬",
                PMJCardFlowers::Plum => "梅",
                PMJCardFlowers::Orchid => "蘭",
                PMJCardFlowers::Bamboo => "竹",
                PMJCardFlowers::Chrysanthemum => "菊",
            },
        )
    }
}

impl PMJCardWords {
    /// Every honour once, in declaration order.
    pub fn get_all() -> (r: Vec<Self>)
        ensures
            r@ == all_words(),
    {
        let r = vec![
            PMJCardWords::East,
            PMJCardWords::South,
            PMJCardWords::West,
            PMJCardWords::North,
            PMJCardWords::RedDragon,
            PMJCardWords::GreenDragon,
            PMJCardWords::WhiteDragon,
        ];
        proof {
            assert(r@ =~= all_words());
        }
        r
    }

    pub fn to_string(&self) -> (r: String)
        ensures
            r@ == word_name(*self),
    {
        String::from_str(
            match self {
                PMJCardWords::East => "東",
                PMJCardWords::South => "南",
                PMJCardWords::West => "西",
                PMJCardWords::North => "北",
                PMJCardWords::RedDragon => "中",
                PMJCardWords::GreenDragon => "青發",
                PMJCardWords::WhiteDragon => "白板",
            },
        )
    }
}

/// The name of a flower.
pub open spec fn flower_name(f: PMJCardFlowers) -> Seq<char> {
    match f {
        PMJCardFlowers::Spring => "春"@,
        PMJCardFlowers::Summer => "夏"@,
        PMJCardFlowers::Fall => "秋"@,
        PMJCardFlowers::Winter => "冬"@,
        PMJCardFlowers::Plum => "梅"@,
        PMJCardFlowers::Orchid => "蘭"@,
        PMJCardFlowers::Bamboo => "竹"@,
        PMJCardFlowers::Chrysanthemum => "菊"@,
    }
}

/// The name of an honour.
pub open spec fn word_name(w: PMJCardWords) -> Seq<char> {
    match w {
        PMJCardWords::East => "東"@,
        PMJCardWords::South => "南"@,
        PMJCardWords::West => "西"@,
        PMJCardWords::North => "北"@,
        PMJCardWords::RedDragon => "中"@,
        PMJCardWords::GreenDragon => "青發"@,
        PMJCardWords::WhiteDragon => "白板"@,
    }
}

/// Every flower and every honour has a name of its own, no flower shares
/// a name with an honour, and the names run, in the order of the variants,
/// 春夏秋冬梅蘭竹菊 for the flowers and 東南西北中青發白板 for the honours:
/// one character each, but two for the green and the white dragon.
pub proof fn lemma_tile_names()
    ensures
        forall|a: PMJCardWords, b: PMJCardWords| #![trigger word_name(a), word_name(b)] word_name(a) == word_name(b) ==> a == b,
        forall|a: PMJCardFlowers, b: PMJCardFlowers| #![trigger flower_name(a), flower_name(b)] flower_name(a) == flower_name(b) ==> a == b,
        forall|f: PMJCardFlowers, w: PMJCardWords| #![trigger flower_name(f), word_name(w)] flower_name(f) != word_name(w),
        forall|f: PMJCardFlowers| #[trigger] flower_name(f).len() == 1,
        forall|w: PMJCardWords| #[trigger] word_name(w).len() == if w is GreenDragon || w is WhiteDragon {
            2int
        } else {
            1int
        },
        flower_name(PMJCardFlowers::Spring) + flower_name(PMJCardFlowers::Summer) + flower_name(PMJCardFlowers::Fall) + flower_name(PMJCardFlowers::Winter) + flower_name(PMJCardFlowers::Plum) + flower_name(PMJCardFlowers::Orchid) + flower_name(PMJCardFlowers::Bamboo) + flower_name(PMJCardFlowers::Chrysanthemum) == "春夏秋冬梅蘭竹菊"@,
        word_name(PMJCardWords::East) + word_name(PMJCardWords::South) + word_name(PMJCardWords::West) + word_name(PMJCardWords::North) + word_name(PMJCardWords::RedDragon) + word_name(PMJCardWords::GreenDragon) + word_name(PMJCardWords::WhiteDragon) == "東南西北中青發白板"@,
{
    reveal_strlit("春");
    reveal_strlit("夏");
    reveal_strlit("秋");
    reveal_strlit("冬");
    reveal_strlit("梅");
    reveal_strlit("蘭");
    reveal_strlit("竹");
    reveal_strlit("菊");
    reveal_strlit("東");
    reveal_strlit("南");
    reveal_strlit("西");
    reveal_strlit("北");
    reveal_strlit("中");
    reveal_strlit("青發");
    reveal_strlit("白板");
    reveal_strlit("春夏秋冬梅蘭竹菊");
    reveal_strlit("東南西北中青發白板");
    assert forall|a: PMJCardWords, b: PMJCardWords| #![trigger word_name(a), word_name(b)] word_name(a) == word_name(b) implies a == b by {
        assert(word_name(a)[0] == word_name(b)[0]);
    }
    assert forall|a: PMJCardFlowers, b: PMJCardFlowers| #![trigger flower_name(a), flower_name(b)] flower_name(a) == flower_name(b) implies a == b by {
        assert(flower_name(a)[0] == flower_name(b)[0]);
    }
    assert forall|f: PMJCardFlowers, w: PMJCardWords| #![trigger flower_name(f), word_name(w)] flower_name(f) != word_name(w) by {
        if flower_name(f).len() == word_name(w).len() {
            assert(flower_name(f)[0] != word_name(w)[0]);
        }
    }
    assert(flower_name(PMJCardFlowers::Spring) + flower_name(PMJCardFlowers::Summer) + flower_name(PMJCardFlowers::Fall) + flower_name(PMJCardFlowers::Winter) + flower_name(PMJCardFlowers::Plum) + flower_name(PMJCardFlowers::Orchid) + flower_name(PMJCardFlowers::Bamboo) + flower_name(PMJCardFlowers::Chrysanthemum) =~= "春夏秋冬梅蘭竹菊"@);
    assert(word_name(PMJCardWords::East) + word_name(PMJCardWords::South) + word_name(PMJCardWords::West) + word_name(PMJCardWords::North) + word_name(PMJCardWords::RedDragon) + word_name(PMJCardWords::GreenDragon) + word_name(PMJCardWords::WhiteDragon) =~= "東南西北中青發白板"@);
}

/// The name of a kind of tile.
pub open spec fn kind_name(t: PMJCardTypes) -> Seq<char> {
    match t {
        PMJCardTypes::TenThousand => "萬"@,
        PMJCardTypes::Line => "條"@,
        PMJCardTypes::Dots => "筒"@,
        PMJCardTypes::Flower(f) => flower_name(f),
        PMJCardTypes::Words(w) => word_name(w),
    }
}

/// The name of a tile: its rank, then the name of its kind.
pub open spec fn card_name(c: PMJCard) -> Seq<char> {
    decimal(c.card_number as nat) + kind_name(c.card_type)
}

impl PMJCardTypes {
    pub fn to_string(&self) -> (r: String)
        ensures
            r@ == kind_name(*self),
    {
        match self {
            PMJCardTypes::TenThousand => String::from_str("萬"),
            PMJCardTypes::Line => String::from_str("條"),
            PMJCardTypes::Dots => String::from_str("筒"),
            PMJCardTypes::Flower(flower) => flower.to_string(),
            PMJCardTypes::Words(word) => word.to_string(),
        }
    }
}

impl PMJCard {
    pub fn to_string(&self) -> (r: String)
        ensures
            r@ == card_name(*self),
    {
        let t = self.card_type.to_string();
        u8_to_decimal(self.card_number).concat(t.as_str())
    }
}

/// An action, in the round of its kind.
#[derive(Clone, Copy, Debug)]
pub enum GameActions {
    WaitRound(GameActionWaitRound),
    PlayerRound(GameActionPlayerRound),
}

/// The actions of the waiting round, each on the card it concerns.
#[derive(Clone, Copy, Debug, PartialEq, Eq, Structural)]
pub enum GameActionWaitRound {
    /// 補花
    ReplacingAFlower(PMJCard),
    /// 吃
    Eat(PMJCard),
    /// 碰
    Triplet(PMJCard),
    /// 明槓
    ExposedKong(PMJCard),
    /// 暗槓
    ConcealedKong(PMJCard),
}

/// What follows an action: the discard.
#[derive(Clone, Copy, Debug, PartialEq, Eq, Structural)]
pub enum GameActionAfter {
    /// 丟牌
    Throw(PMJCard),
}

/// The action of the player's own round.
#[derive(Clone, Copy, Debug, PartialEq, Eq, Structural)]
pub enum GameActionPlayerRound {
    /// 摸牌
    DrawATile,
}

pub open spec fn after_action_name(a: GameActionAfter) -> Seq<char> {
    match a {
        GameActionAfter::Throw(_) => "丟牌"@,
    }
}

pub open spec fn wait_round_action_name(a: GameActionWaitRound) -> Seq<char> {
    match a {
        GameActionWaitRound::ReplacingAFlower(_) => "補花"@,
        GameActionWaitRound::Eat(_) => "吃"@,
        GameActionWaitRound::Triplet(_) => "碰"@,
        GameActionWaitRound::ExposedKong(_) => "明槓"@,
        GameActionWaitRound::ConcealedKong(_) => "暗槓"@,
    }
}

/// The suits are named 萬, 條 and 筒, one character each and unlike any
/// flower or honour; the actions of the waiting round have names of their
/// own, in the order of the variants 補花, 吃, 碰, 明槓, 暗槓, and a discard
/// is 丟牌.
pub proof fn lemma_kind_and_action_names(c: PMJCard)
    ensures
        kind_name(PMJCardTypes::TenThousand) + kind_name(PMJCardTypes::Line) + kind_name(PMJCardTypes::Dots)
            == "萬條筒"@,
        forall|t: PMJCardTypes|
            #![trigger kind_name(t)]
            (t is TenThousand || t is Line || t is Dots) ==> kind_name(t).len() == 1,
        forall|t: PMJCardTypes, u: PMJCardTypes|
            #![trigger kind_name(t), kind_name(u)]
            kind_name(t) == kind_name(u) ==> t == u,
        forall|a: GameActionWaitRound, b: GameActionWaitRound|
            #![trigger wait_round_action_name(a), wait_round_action_name(b)]
            wait_round_action_name(a) == wait_round_action_name(b) ==> a == b || (a is ReplacingAFlower
                && b is ReplacingAFlower) || (a is Eat && b is Eat) || (a is Triplet && b is Triplet) || (
            a is ExposedKong && b is ExposedKong) || (a is ConcealedKong && b is ConcealedKong),
        wait_round_action_name(GameActionWaitRound::ReplacingAFlower(c)) + wait_round_action_name(
            GameActionWaitRound::Eat(c),
        ) + wait_round_action_name(GameActionWaitRound::Triplet(c)) + wait_round_action_name(
            GameActionWaitRound::ExposedKong(c),
        ) + wait_round_action_name(GameActionWaitRound::ConcealedKong(c)) == "補花吃碰明槓暗槓"@,
        after_action_name(GameActionAfter::Throw(c)) == "丟牌"@,
{
    lemma_tile_names();
    reveal_strlit("萬");
    reveal_strlit("條");
    reveal_strlit("筒");
    reveal_strlit("萬條筒");
    reveal_strlit("補花");
    reveal_strlit("吃");
    reveal_strlit("碰");
    reveal_strlit("明槓");
    reveal_strlit("暗槓");
    reveal_strlit("補花吃碰明槓暗槓");
    reveal_strlit("春");
    reveal_strlit("夏");
    reveal_strlit("秋");
    reveal_strlit("冬");
    reveal_strlit("梅");
    reveal_strlit("蘭");
    reveal_strlit("竹");
    reveal_strlit("菊");
    reveal_strlit("東");
    reveal_strlit("南");
    reveal_strlit("西");
    reveal_strlit("北");
    reveal_strlit("中");
    reveal_strlit("青發");
    reveal_strlit("白板");
    assert forall|t: PMJCardTypes, u: PMJCardTypes|
        #![trigger kind_name(t), kind_name(u)]
        kind_name(t) == kind_name(u) implies t == u by {
        assert(kind_name(t)[0] == kind_name(u)[0]);
        if t is Flower && u is Flower {
            assert(flower_name(t->Flower_0) == flower_name(u->Flower_0));
        }
        if t is Words && u is Words {
            assert(word_name(t->Words_0) == word_name(u->Words_0));
        }
    }
    assert forall|a: GameActionWaitRound, b: GameActionWaitRound|
        #![trigger wait_round_action_name(a), wait_round_action_name(b)]
        wait_round_action_name(a) == wait_round_action_name(b) implies a == b || (a is ReplacingAFlower
            && b is ReplacingAFlower) || (a is Eat && b is Eat) || (a is Triplet && b is Triplet) || (
        a is ExposedKong && b is ExposedKong) || (a is ConcealedKong && b is ConcealedKong) by {
        assert(wait_round_action_name(a)[0] == wait_round_action_name(b)[0]);
    }
    assert(kind_name(PMJCardTypes::TenThousand) + kind_name(PMJCardTypes::Line) + kind_name(PMJCardTypes::Dots)
        =~= "萬條筒"@);
    assert(wait_round_action_name(GameActionWaitRound::ReplacingAFlower(c)) + wait_round_action_name(
        GameActionWaitRound::Eat(c),
    ) + wait_round_action_name(GameActionWaitRound::Triplet(c)) + wait_round_action_name(
        GameActionWaitRound::ExposedKong(c),
    ) + wait_round_action_name(GameActionWaitRound::ConcealedKong(c)) =~= "補花吃碰明槓暗槓"@);
}

impl GameActionAfter {
    pub fn to_string(&self) -> (r: String)
        ensures
            r@ == after_action_name(*self),
    {
        match self {
            GameActionAfter::Throw(_) => String::from_str("丟牌"),
        }
    }
}

impl GameActionWaitRound {
    pub fn to_string(&self) -> (r: String)
        ensures
            r@ == wait_round_action_name(*self),
    {
        String::from_str(
            match self {
                GameActionWaitRound::ReplacingAFlower(_) => "補花",
                GameActionWaitRound::Eat(_) => "吃",
                GameActionWaitRound::Triplet(_) => "碰",
                GameActionWaitRound::ExposedKong(_) => "明槓",
                GameActionWaitRound::ConcealedKong(_) => "暗槓",
            },
        )
    }
}

impl GameActionPlayerRound {
    pub fn to_string(&self) -> (r: String)
        ensures
            r@ == "摸牌"@,
    {
        String::from_str("摸牌")
    }
}

/// One of two values.
#[derive(Debug)]
pub enum Either<A, B> {
    Left(A),
    Right(B),
}

/// The request kinds answered with V1Simple data.
#[derive(Clone, Copy, Debug, PartialEq, Eq, Structural)]
pub enum ActionType {
    AddPlayer,
    RemovePlayer,
    TestConnection,
    IsStart,
}

#[derive(Clone, Copy, Debug, PartialEq, Eq, Structural)]
pub struct ServerResponseDataAddPlayerType {
    pub number: u8,
}

#[derive(Clone, Copy, Debug, PartialEq, Eq, Structural)]
pub struct ServerResponseDataIsStartType {
    pub is_start: bool,
}

#[derive(Clone, Debug)]
pub struct ServerResponseDataTestConnectionType {
    pub msg: String,
}

/// The data of a V1Simple reply; the field that matches `data_type` is
/// filled.
#[derive(Debug)]
pub struct ServerResponseDataTypeV1 {
    pub data_add_player: Option<ServerResponseDataAddPlayerType>,
    pub data_test_connection: Option<ServerResponseDataTestConnectionType>,
    pub data_is_start: Option<ServerResponseDataIsStartType>,
    pub data_type: ActionType,
}

impl Default for ServerResponseDataTypeV1 {
    fn default() -> (r: Self)
        ensures
            r.data_add_player is None,
            r.data_test_connection is None,
            r.data_is_start is None,
            r.data_type == ActionType::TestConnection,
    {
        ServerResponseDataTypeV1 {
            data_add_player: None,
            data_test_connection: None,
            data_is_start: None,
            data_type: ActionType::TestConnection,
        }
    }
}

} // verus!
