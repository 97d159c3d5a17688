//! The V2Better ruleset: its tiles, the full deck, and the messages that
//! server and clients exchange while playing it.

use vstd::prelude::*;
use vstd::string::StringExecFns;

use crate::table::{GameCard, TablePlayer};
use crate::text::{decimal, u8_to_decimal};

verus! {

/// The most players a V2Better room seats.
pub const MAX_PLAYER_COUNT: u8 = 4;

/// A seated player: address, seat number, hand and the melds laid down,
/// each with the action that made it.
pub type PMJPlayer = TablePlayer<PMJCard, (Vec<PMJCard>, GameActions)>;

/// One tile.
#[derive(Clone, Copy, Debug, PartialEq, Eq, Structural, PartialOrd, Ord)]
pub struct PMJCard {
    /// The kind of tile, with its rank or its name.
    pub card_type: PMJCardType,
    /// Which copy of this tile it is (1 to 4 for suits and honours, 1 for flowers).
    pub card_id: u8,
}

/// The kind of a tile.
#[derive(Clone, Copy, Debug, PartialEq, Eq, Structural, PartialOrd, Ord)]
pub enum PMJCardType {
    /// Characters (萬), with a rank.
    TenThousand(u8),
    /// Bamboos (條), with a rank.
    Line(u8),
    /// Dots (筒), with a rank.
    Dots(u8),
    /// A flower (花).
    Flower(PMJCardFlowerType),
    /// An honour (字).
    Words(PMJCardWordsType),
}

/// The eight flowers.
#[derive(Clone, Copy, Debug, PartialEq, Eq, Structural, PartialOrd, Ord)]
pub enum PMJCardFlowerType {
    /// 春
    Spring,
    /// 夏
    Summer,
    /// 秋
    Fall,
    /// 冬
    Winter,
    /// 梅
    Plum,
    /// 蘭
    Orchid,
    /// 竹
    Bamboo,
    /// 菊
    Chrysanthemum,
}

/// The seven honours.
#[derive(Clone, Copy, Debug, PartialEq, Eq, Structural, PartialOrd, Ord)]
pub enum PMJCardWordsType {
    /// 東
    East,
    /// 南
    South,
    /// 西
    West,
    /// 北
    North,
    /// 紅中
    RedDragon,
    /// 青發
    GreenDragon,
    /// 白板
    WhiteDragon,
}

/// What a player did on its turn.
#[derive(Clone, Copy, Debug, PartialEq, Eq, Structural)]
pub enum GameActions {
    /// 抽牌
    GetCard,
    /// 丟牌
    ThrowCard,
    /// 吃
    Eat,
    /// 碰
    Triplet,
    /// 明槓
    ExposedKong,
    /// 暗槓
    ConcealedKong,
    /// 補花
    ReplaceFlower,
}

impl PMJCardType {
    pub fn is_ten_thousand(&self) -> (r: bool)
        ensures
            r == (*self is TenThousand),
    {
        match self {
            PMJCardType::TenThousand(_) => true,
            _ => false,
        }
    }

    pub fn is_line(&self) -> (r: bool)
        ensures
            r == (*self is Line),
    {
        match self {
            PMJCardType::Line(_) => true,
            _ => false,
        }
    }

    pub fn is_dots(&self) -> (r: bool)
        ensures
            r == (*self is Dots),
    {
        match self {
            PMJCardType::Dots(_) => true,
            _ => false,
        }
    }

    pub fn is_flower(&self) -> (r: bool)
        ensures
            r == (*self is Flower),
    {
        match self {
            PMJCardType::Flower(_) => true,
            _ => false,
        }
    }

    pub fn is_words(&self) -> (r: bool)
        ensures
            r == (*self is Words),
    {
        match self {
            PMJCardType::Words(_) => true,
            _ => false,
        }
    }
}

impl GameCard for PMJCard {
    open spec fn spec_is_flower(&self) -> bool {
        self.card_type is Flower
    }

    fn is_flower_card(&self) -> (r: bool) {
        self.card_type.is_flower()
    }

    fn same_card(&self, other: &Self) -> (r: bool) {
        *self == *other
    }
}

// ---------------------------------------------------------------------
// Messages
// ---------------------------------------------------------------------

/// A message from the server.
#[derive(Clone, Debug)]
pub enum ServerMessage {
    GameMsg(ServerGameMsg),
    RoomMsg(ServerRoomMsg),
}

/// A chat line in the room.
#[derive(Clone, Debug)]
pub struct ServerRoomMsg {
    pub msg_type: ServerGameMsgKinds,
    /// The player who spoke and what it said.
    pub info_player_say: Option<(u8, String)>,
    /// What the host said.
    pub info_root_say: Option<String>,
}

/// Who speaks in the room.
#[derive(Clone, Copy, Debug, PartialEq, Eq, Structural)]
pub enum ServerRoomMsgKinds {
    /// A player.
    PlayerSay,
    /// The host.
    RootSay,
}

/// A game event sent by the server; which `info_` field is filled depends
/// on `msg_type`.
#[derive(Clone, Debug)]
pub struct ServerGameMsg {
    pub msg_type: ServerGameMsgKinds,
    pub info_hand_card_change: Option<Vec<PMJCard>>,
    pub info_error: Option<String>,
    /// An action of some player: its number and the action.
    pub info_player_action: Option<(u8, GameActions)>,
    pub info_get_card: Option<PMJCard>,
    pub info_change_turn: Option<u8>,
}

/// The default game message is an error that says it is the default.
pub open spec fn is_default_game_msg(m: ServerGameMsg) -> bool {
    &&& m.msg_type == ServerGameMsgKinds::Error
    &&& m.info_player_action is None
    &&& m.info_hand_card_change is None
    &&& m.info_error matches Some(e) && e@ == "Default `info_error` value."@
    &&& m.info_change_turn is None
    &&& m.info_get_card is None
}

impl Default for ServerGameMsg {
    fn default() -> (r: Self)
        ensures
            is_default_game_msg(r),
    {
        ServerGameMsg {
            msg_type: ServerGameMsgKinds::Error,
            info_player_action: None,
            info_hand_card_change: None,
            info_error: Some(String::from_str("Default `info_error` value.")),
            info_change_turn: None,
            info_get_card: None,
        }
    }
}

/// The kinds of game events.
#[derive(Clone, Copy, Debug, PartialEq, Eq, Structural)]
pub enum ServerGameMsgKinds {
    GameStart,
    GameFinish,
    ChangedTurn,
    /// The hand of the receiver changed.
    HandCardChange,
    Error,
    /// Some player acted.
    PlayerAction,
    GetCard,
}

/// A message from a client.
#[derive(Clone, Copy, Debug)]
pub enum ClientMessage {
    GameMsg(ClientGameMsg),
    RoomMsg,
}

/// A move a client asks to make.
#[derive(Clone, Copy, Debug)]
pub enum ClientGameMsg {
    /// 丟牌
    ThrowCard(PMJCard),
    /// 補花
    ReplaceAFlower(PMJCard),
    /// 吃
    Eat((PMJCard, PMJCard)),
    /// 碰
    Triplet((PMJCard, PMJCard)),
    /// 明槓
    ExposedKong((PMJCard, PMJCard, PMJCard)),
    /// 暗槓
    ConcealedKong((PMJCard, PMJCard, PMJCard)),
}

#[derive(Clone, Copy, Debug, PartialEq, Eq, Structural)]
pub enum ClientGameMsgKinds {
    GameAction,
}

/// A game message of kind `kind` with no `info_` field filled.
pub open spec fn is_bare_game_msg(m: ServerGameMsg, kind: ServerGameMsgKinds) -> bool {
    &&& m.msg_type == kind
    &&& m.info_hand_card_change is None
    &&& m.info_error is None
    &&& m.info_player_action is None
    &&& m.info_get_card is None
    &&& m.info_change_turn is None
}

/// `m` is a game message of kind `kind` whose only filled field, if any, is
/// the one that belongs to that kind.
pub open spec fn only_field(m: ServerGameMsg, kind: ServerGameMsgKinds) -> bool {
    &&& m.msg_type == kind
    &&& m.info_error is None
    &&& (kind != ServerGameMsgKinds::HandCardChange ==> m.info_hand_card_change is None)
    &&& (kind != ServerGameMsgKinds::PlayerAction ==> m.info_player_action is None)
    &&& (kind != ServerGameMsgKinds::GetCard ==> m.info_get_card is None)
    &&& (kind != ServerGameMsgKinds::ChangedTurn ==> m.info_change_turn is None)
}

/// `m` announces the start of the game.
pub open spec fn is_game_start_msg(m: ServerMessage) -> bool {
    &&& m matches ServerMessage::GameMsg(g)
    &&& is_bare_game_msg(g, ServerGameMsgKinds::GameStart)
}

/// `m` tells its receiver that its hand is now `hand`.
pub open spec fn is_hand_change_msg(m: ServerMessage, hand: Seq<PMJCard>) -> bool {
    &&& m matches ServerMessage::GameMsg(g)
    &&& only_field(g, ServerGameMsgKinds::HandCardChange)
    &&& g.info_hand_card_change matches Some(h)
    &&& h@ == hand
}

/// `m` announces that it is the turn of player `player`.
pub open spec fn is_change_turn_msg(m: ServerMessage, player: u8) -> bool {
    &&& m matches ServerMessage::GameMsg(g)
    &&& only_field(g, ServerGameMsgKinds::ChangedTurn)
    &&& g.info_change_turn == Some(player)
}

/// `m` tells its receiver that it drew `card`.
pub open spec fn is_get_card_msg(m: ServerMessage, card: PMJCard) -> bool {
    &&& m matches ServerMessage::GameMsg(g)
    &&& only_field(g, ServerGameMsgKinds::GetCard)
    &&& g.info_get_card == Some(card)
}

/// `m` announces that player `player` did `action`.
pub open spec fn is_player_action_msg(m: ServerMessage, player: u8, action: GameActions) -> bool {
    &&& m matches ServerMessage::GameMsg(g)
    &&& only_field(g, ServerGameMsgKinds::PlayerAction)
    &&& g.info_player_action == Some((player, action))
}

fn game_msg(kind: ServerGameMsgKinds) -> (g: ServerGameMsg)
    ensures
        is_bare_game_msg(g, kind),
{
    ServerGameMsg {
        msg_type: kind,
        info_hand_card_change: None,
        info_error: None,
        info_player_action: None,
        info_get_card: None,
        info_change_turn: None,
    }
}

/// The announcement that the game starts.
pub fn game_start_msg() -> (m: ServerMessage)
    ensures
        is_game_start_msg(m),
{
    ServerMessage::GameMsg(game_msg(ServerGameMsgKinds::GameStart))
}

/// The news that the receiver's hand is now `hand`.
pub fn hand_change_msg(hand: Vec<PMJCard>) -> (m: ServerMessage)
    ensures
        is_hand_change_msg(m, hand@),
{
    let mut g = game_msg(ServerGameMsgKinds::HandCardChange);
    g.info_hand_card_change = Some(hand);
    ServerMessage::GameMsg(g)
}

/// The announcement that it is the turn of `player`.
pub fn change_turn_msg(player: u8) -> (m: ServerMessage)
    ensures
        is_change_turn_msg(m, player),
{
    let mut g = game_msg(ServerGameMsgKinds::ChangedTurn);
    g.info_change_turn = Some(player);
    ServerMessage::GameMsg(g)
}

/// The news that the receiver drew `card`.
pub fn get_card_msg(card: PMJCard) -> (m: ServerMessage)
    ensures
        is_get_card_msg(m, card),
{
    let mut g = game_msg(ServerGameMsgKinds::GetCard);
    g.info_get_card = Some(card);
    ServerMessage::GameMsg(g)
}

/// The announcement that `player` did `action`.
pub fn player_action_msg(player: u8, action: GameActions) -> (m: ServerMessage)
    ensures
        is_player_action_msg(m, player, action),
{
    let mut g = game_msg(ServerGameMsgKinds::PlayerAction);
    g.info_player_action = Some((player, action));
    ServerMessage::GameMsg(g)
}

// ---------------------------------------------------------------------
// Names
// ---------------------------------------------------------------------

/// The name of a flower.
pub open spec fn flower_name(f: PMJCardFlowerType) -> Seq<char> {
    match f {
        PMJCardFlowerType::Spring => "春"@,
        PMJCardFlowerType::Summer => "夏"@,
        PMJCardFlowerType::Fall => "秋"@,
        PMJCardFlowerType::Winter => "冬"@,
        PMJCardFlowerType::Plum => "梅"@,
        PMJCardFlowerType::Orchid => "蘭"@,
        PMJCardFlowerType::Bamboo => "竹"@,
        PMJCardFlowerType::Chrysanthemum => "菊"@,
    }
}

/// The name of an honour.
pub open spec fn word_name(w: PMJCardWordsType) -> Seq<char> {
    match w {
        PMJCardWordsType::East => "東"@,
        PMJCardWordsType::South => "南"@,
        PMJCardWordsType::West => "西"@,
        PMJCardWordsType::North => "北"@,
        PMJCardWordsType::RedDragon => "中"@,
        PMJCardWordsType::GreenDragon => "青發"@,
        PMJCardWordsType::WhiteDragon => "白板"@,
    }
}

/// Every flower and every honour has a name of its own, no flower shares
/// a name with an honour, and the names run, in the order of the variants,
/// 春夏秋冬梅蘭竹菊 for the flowers and 東南西北中青發白板 for the honours:
/// one character each, but two for the green and the white dragon.
pub proof fn lemma_tile_names()
    ensures
        forall|a: PMJCardWordsType, b: PMJCardWordsType| #![trigger word_name(a), word_name(b)] word_name(a) == word_name(b) ==> a == b,
        forall|a: PMJCardFlowerType, b: PMJCardFlowerType| #![trigger flower_name(a), flower_name(b)] flower_name(a) == flower_name(b) ==> a == b,
        forall|f: PMJCardFlowerType, w: PMJCardWordsType| #![trigger flower_name(f), word_name(w)] flower_name(f) != word_name(w),
        forall|f: PMJCardFlowerType| #[trigger] flower_name(f).len() == 1,
        forall|w: PMJCardWordsType| #[trigger] word_name(w).len() == if w is GreenDragon || w is WhiteDragon {
            2int
        } else {
            1int
        },
        flower_name(PMJCardFlowerType::Spring) + flower_name(PMJCardFlowerType::Summer) + flower_name(PMJCardFlowerType::Fall) + flower_name(PMJCardFlowerType::Winter) + flower_name(PMJCardFlowerType::Plum) + flower_name(PMJCardFlowerType::Orchid) + flower_name(PMJCardFlowerType::Bamboo) + flower_name(PMJCardFlowerType::Chrysanthemum) == "春夏秋冬梅蘭竹菊"@,
        word_name(PMJCardWordsType::East) + word_name(PMJCardWordsType::South) + word_name(PMJCardWordsType::West) + word_name(PMJCardWordsType::North) + word_name(PMJCardWordsType::RedDragon) + word_name(PMJCardWordsType::GreenDragon) + word_name(PMJCardWordsType::WhiteDragon) == "東南西北中青發白板"@,
{
    reveal_strlit("春");
    reveal_strlit("夏");
    reveal_strlit("秋");
    reveal_strlit("冬");
    reveal_strlit("梅");
    reveal_strlit("蘭");
    reveal_strlit("竹");
    reveal_strlit("菊");
    reveal_strlit("東");
    reveal_strlit("南");
    reveal_strlit("西");
    reveal_strlit("北");
    reveal_strlit("中");
    reveal_strlit("青發");
    reveal_strlit("白板");
    reveal_strlit("春夏秋冬梅蘭竹菊");
    reveal_strlit("東南西北中青發白板");
    assert forall|a: PMJCardWordsType, b: PMJCardWordsType| #![trigger word_name(a), word_name(b)] word_name(a) == word_name(b) implies a == b by {
        assert(word_name(a)[0] == word_name(b)[0]);
    }
    assert forall|a: PMJCardFlowerType, b: PMJCardFlowerType| #![trigger flower_name(a), flower_name(b)] flower_name(a) == flower_name(b) implies a == b by {
        assert(flower_name(a)[0] == flower_name(b)[0]);
    }
    assert forall|f: PMJCardFlowerType, w: PMJCardWordsType| #![trigger flower_name(f), word_name(w)] flower_name(f) != word_name(w) by {
        if flower_name(f).len() == word_name(w).len() {
            assert(flower_name(f)[0] != word_name(w)[0]);
        }
    }
    assert(flower_name(PMJCardFlowerType::Spring) + flower_name(PMJCardFlowerType::Summer) + flower_name(PMJCardFlowerType::Fall) + flower_name(PMJCardFlowerType::Winter) + flower_name(PMJCardFlowerType::Plum) + flower_name(PMJCardFlowerType::Orchid) + flower_name(PMJCardFlowerType::Bamboo) + flower_name(PMJCardFlowerType::Chrysanthemum) =~= "春夏秋冬梅蘭竹菊"@);
    assert(word_name(PMJCardWordsType::East) + word_name(PMJCardWordsType::South) + word_name(PMJCardWordsType::West) + word_name(PMJCardWordsType::North) + word_name(PMJCardWordsType::RedDragon) + word_name(PMJCardWordsType::GreenDragon) + word_name(PMJCardWordsType::WhiteDragon) =~= "東南西北中青發白板"@);
}

/// The name of a tile: the rank followed by the suit, or the name of the
/// flower or honour.
pub open spec fn card_name(c: PMJCard) -> Seq<char> {
    match c.card_type {
        PMJCardType::Dots(n) => decimal(n as nat) + "筒"@,
        PMJCardType::Flower(f) => flower_name(f),
        PMJCardType::Line(n) => decimal(n as nat) + "條"@,
        PMJCardType::TenThousand(n) => decimal(n as nat) + "萬"@,
        PMJCardType::Words(w) => word_name(w),
    }
}

/// A suited tile is named by its rank in decimal followed by one character
/// for its suit: 萬, 條 and 筒 for characters, bamboos and dots; copies of a
/// tile share its name.
pub proof fn lemma_suited_names(n: u8, a: u8, b: u8)
    ensures
        seq![
            card_name(PMJCard { card_type: PMJCardType::TenThousand(n), card_id: a }).last(),
            card_name(PMJCard { card_type: PMJCardType::Line(n), card_id: a }).last(),
            card_name(PMJCard { card_type: PMJCardType::Dots(n), card_id: a }).last(),
        ] == "萬條筒"@,
        card_name(PMJCard { card_type: PMJCardType::TenThousand(n), card_id: a }).drop_last() == decimal(n as nat),
        card_name(PMJCard { card_type: PMJCardType::Line(n), card_id: a }).drop_last() == decimal(n as nat),
        card_name(PMJCard { card_type: PMJCardType::Dots(n), card_id: a }).drop_last() == decimal(n as nat),
        card_name(PMJCard { card_type: PMJCardType::Dots(n), card_id: a }) == card_name(
            PMJCard { card_type: PMJCardType::Dots(n), card_id: b },
        ),
{
    reveal_strlit("萬");
    reveal_strlit("條");
    reveal_strlit("筒");
    reveal_strlit("萬條筒");
    let d = decimal(n as nat);
    assert((d + "萬"@).drop_last() =~= d);
    assert((d + "條"@).drop_last() =~= d);
    assert((d + "筒"@).drop_last() =~= d);
    assert(seq![
        card_name(PMJCard { card_type: PMJCardType::TenThousand(n), card_id: a }).last(),
        card_name(PMJCard { card_type: PMJCardType::Line(n), card_id: a }).last(),
        card_name(PMJCard { card_type: PMJCardType::Dots(n), card_id: a }).last(),
    ] =~= "萬條筒"@);
}

impl PMJCardFlowerType {
    pub fn to_string(&self) -> (r: String)
        ensures
            r@ == flower_name(*self),
    {
        String::from_str(
            match self {
                PMJCardFlowerType::Spring => "春",
                PMJCardFlowerType::Summer => "夏",
                PMJCardFlowerType::Fall => "秋",
                PMJCardFlowerType::Winter => "冬",
                PMJCardFlowerType::Plum => "梅",
                PMJCardFlowerType::Orchid => "蘭",
                PMJCardFlowerType::Bamboo => "竹",
                PMJCardFlowerType::Chrysanthemum => "菊",
            },
        )
    }
}

impl PMJCardWordsType {
    pub fn to_string(&self) -> (r: String)
        ensures
            r@ == word_name(*self),
    {
        String::from_str(
            match self {
                PMJCardWordsType::East => "東",
                PMJCardWordsType::South => "南",
                PMJCardWordsType::West => "西",
                PMJCardWordsType::North => "北",
                PMJCardWordsType::RedDragon => "中",
                PMJCardWordsType::GreenDragon => "青發",
                PMJCardWordsType::WhiteDragon => "白板",
            },
        )
    }
}

impl PMJCard {
    pub fn to_string(&self) -> (r: String)
        ensures
            r@ == card_name(*self),
    {
        match self.card_type {
            PMJCardType::Dots(num) => u8_to_decimal(num).concat("筒"),
            PMJCardType::Flower(flower) => flower.to_string(),
            PMJCardType::Line(num) => u8_to_decimal(num).concat("條"),
            PMJCardType::TenThousand(num) => u8_to_decimal(num).concat("萬"),
            PMJCardType::Words(word) => word.to_string(),
        }
    }
}

// ---------------------------------------------------------------------
// The deck
// ---------------------------------------------------------------------

/// The tile of rank `number` in the suit numbered `suit` (0 dots, 1 bamboos,
/// 2 characters), copy `id`.
pub open spec fn suit_card(suit: int, number: int, id: int) -> PMJCard {
    PMJCard {
        card_type: if suit == 0 {
            PMJCardType::Dots(number as u8)
        } else if suit == 1 {
            PMJCardType::Line(number as u8)
        } else {
            PMJCardType::TenThousand(number as u8)
        },
        card_id: id as u8,
    }
}

/// The flowers in the order the deck holds them.
pub open spec fn deck_flower(i: int) -> PMJCardFlowerType {
    if i == 0 {
        PMJCardFlowerType::Bamboo
    } else if i == 1 {
        PMJCardFlowerType::Chrysanthemum
    } else if i == 2 {
        PMJCardFlowerType::Fall
    } else if i == 3 {
        PMJCardFlowerType::Orchid
    } else if i == 4 {
        PMJCardFlowerType::Plum
    } else if i == 5 {
        PMJCardFlowerType::Spring
    } else if i == 6 {
        PMJCardFlowerType::Summer
    } else {
        PMJCardFlowerType::Winter
    }
}

/// The honours in the order the deck holds them.
pub open spec fn deck_word(i: int) -> PMJCardWordsType {
    if i == 0 {
        PMJCardWordsType::East
    } else if i == 1 {
        PMJCardWordsType::GreenDragon
    } else if i == 2 {
        PMJCardWordsType::North
    } else if i == 3 {
        PMJCardWordsType::RedDragon
    } else if i == 4 {
        PMJCardWordsType::South
    } else if i == 5 {
        PMJCardWordsType::West
    } else {
        PMJCardWordsType::WhiteDragon
    }
}

/// The card at position `i` of a new deck: dots, bamboos and characters
/// (copy 1 ranks 1 to 9, then copy 2, ...), the eight flowers, then the
/// honours (copy 1 of the seven, then copy 2, ...).
pub open spec fn deck_card(i: int) -> PMJCard {
    if i < 108 {
        suit_card(i / 36, (i % 36) % 9 + 1, (i % 36) / 9 + 1)
    } else if i < 116 {
        PMJCard { card_type: PMJCardType::Flower(deck_flower(i - 108)), card_id: 1 }
    } else {
        PMJCard { card_type: PMJCardType::Words(deck_word((i - 116) % 7)), card_id: ((i - 116) / 7 + 1) as u8 }
    }
}

/// The 144 cards of a new deck, in order.
pub open spec fn full_deck() -> Seq<PMJCard> {
    Seq::new(144, |i: int| deck_card(i))
}

fn suit_type(suit: u8, number: u8) -> (t: PMJCardType)
    requires
        suit < 3,
    ensures
        t == suit_card(suit as int, number as int, 1).card_type,
{
    if suit == 0 {
        PMJCardType::Dots(number)
    } else if suit == 1 {
        PMJCardType::Line(number)
    } else {
        PMJCardType::TenThousand(number)
    }
}

fn flower_at(i: u8) -> (f: PMJCardFlowerType)
    ensures
        f == deck_flower(i as int),
{
    match i {
        0 => PMJCardFlowerType::Bamboo,
        1 => PMJCardFlowerType::Chrysanthemum,
        2 => PMJCardFlowerType::Fall,
        3 => PMJCardFlowerType::Orchid,
        4 => PMJCardFlowerType::Plum,
        5 => PMJCardFlowerType::Spring,
        6 => PMJCardFlowerType::Summer,
        _ => PMJCardFlowerType::Winter,
    }
}

fn word_at(i: u8) -> (w: PMJCardWordsType)
    ensures
        w == deck_word(i as int),
{
    match i {
        0 => PMJCardWordsType::East,
        1 => PMJCardWordsType::GreenDragon,
        2 => PMJCardWordsType::North,
        3 => PMJCardWordsType::RedDragon,
        4 => PMJCardWordsType::South,
        5 => PMJCardWordsType::West,
        _ => PMJCardWordsType::WhiteDragon,
    }
}

/// A new deck, in the order of `full_deck`.
pub fn new_deck() -> (d: Vec<PMJCard>)
    ensures
        d@ == full_deck(),
{
    let mut d: Vec<PMJCard> = Vec::new();
    let mut suit: u8 = 0;
    while suit < 3
        invariant
            suit <= 3,
            d@ == full_deck().take(36 * suit),
        decreases 3 - suit,
    {
        let mut card_id: u8 = 1;
        while card_id <= 4
            invariant
                suit < 3,
                1 <= card_id <= 5,
                d@ == full_deck().take(36 * suit + 9 * (card_id - 1)),
            decreases 5 - card_id,
        {
            let mut number: u8 = 1;
            while number <= 9
                invariant
                    suit < 3,
                    1 <= card_id <= 4,
                    1 <= number <= 10,
                    d@ == full_deck().take(36 * suit + 9 * (card_id - 1) + (number - 1)),
                decreases 10 - number,
            {
                let ghost i: int = 36 * suit + 9 * (card_id - 1) + (number - 1);
                d.push(PMJCard { card_type: suit_type(suit, number), card_id });
                proof {
                    assert(i / 36 == suit as int);
                    assert(i % 36 == 9 * (card_id - 1) + (number - 1));
                    assert((i % 36) % 9 == number - 1);
                    assert((i % 36) / 9 == card_id - 1);
                    assert(d@ =~= full_deck().take(i + 1));
                }
                number = number + 1;
            }
            card_id = card_id + 1;
        }
        suit = suit + 1;
    }
    let mut f: u8 = 0;
    while f < 8
        invariant
            f <= 8,
            d@ == full_deck().take(108 + f),
        decreases 8 - f,
    {
        d.push(PMJCard { card_type: PMJCardType::Flower(flower_at(f)), card_id: 1 });
        proof {
            assert(d@ =~= full_deck().take(108 + f + 1));
        }
        f = f + 1;
    }
    let mut card_id: u8 = 1;
    while card_id <= 4
        invariant
            1 <= card_id <= 5,
            d@ == full_deck().take(116 + 7 * (card_id - 1)),
        decreases 5 - card_id,
    {
        let mut w: u8 = 0;
        while w < 7
            invariant
                1 <= card_id <= 4,
                w <= 7,
                d@ == full_deck().take(116 + 7 * (card_id - 1) + w),
            decreases 7 - w,
        {
            let ghost i: int = 116 + 7 * (card_id - 1) + w;
            d.push(PMJCard { card_type: PMJCardType::Words(word_at(w)), card_id });
            proof {
                assert((i - 116) % 7 == w as int);
                assert((i - 116) / 7 == card_id - 1);
                assert(d@ =~= full_deck().take(i + 1));
            }
            w = w + 1;
        }
        card_id = card_id + 1;
    }
    proof {
        assert(d@ =~= full_deck());
    }
    d
}

/// A tile that a deck holds: a suited tile of rank 1 to 9, copy 1 to 4; a
/// flower, copy 1; an honour, copy 1 to 4.
pub open spec fn is_valid_tile(c: PMJCard) -> bool {
    match c.card_type {
        PMJCardType::Dots(n) => 1 <= n <= 9 && 1 <= c.card_id <= 4,
        PMJCardType::Line(n) => 1 <= n <= 9 && 1 <= c.card_id <= 4,
        PMJCardType::TenThousand(n) => 1 <= n <= 9 && 1 <= c.card_id <= 4,
        PMJCardType::Flower(_) => c.card_id == 1,
        PMJCardType::Words(_) => 1 <= c.card_id <= 4,
    }
}

pub open spec fn flower_position(f: PMJCardFlowerType) -> int {
    match f {
        PMJCardFlowerType::Bamboo => 0,
        PMJCardFlowerType::Chrysanthemum => 1,
        PMJCardFlowerType::Fall => 2,
        PMJCardFlowerType::Orchid => 3,
        PMJCardFlowerType::Plum => 4,
        PMJCardFlowerType::Spring => 5,
        PMJCardFlowerType::Summer => 6,
        PMJCardFlowerType::Winter => 7,
    }
}

pub open spec fn word_position(w: PMJCardWordsType) -> int {
    match w {
        PMJCardWordsType::East => 0,
        PMJCardWordsType::GreenDragon => 1,
        PMJCardWordsType::North => 2,
        PMJCardWordsType::RedDragon => 3,
        PMJCardWordsType::South => 4,
        PMJCardWordsType::West => 5,
        PMJCardWordsType::WhiteDragon => 6,
    }
}

/// Where a valid tile stands in a new deck.
pub open spec fn deck_position(c: PMJCard) -> int {
    match c.card_type {
        PMJCardType::Dots(n) => (n - 1) + 9 * (c.card_id - 1),
        PMJCardType::Line(n) => 36 + (n - 1) + 9 * (c.card_id - 1),
        PMJCardType::TenThousand(n) => 72 + (n - 1) + 9 * (c.card_id - 1),
        PMJCardType::Flower(f) => 108 + flower_position(f),
        PMJCardType::Words(w) => 116 + word_position(w) + 7 * (c.card_id - 1),
    }
}

proof fn lemma_deck_card_position(i: int)
    requires
        0 <= i < 144,
    ensures
        is_valid_tile(deck_card(i)),
        deck_position(deck_card(i)) == i,
{
}

proof fn lemma_position_deck_card(c: PMJCard)
    requires
        is_valid_tile(c),
    ensures
        0 <= deck_position(c) < 144,
        deck_card(deck_position(c)) == c,
{
}

/// A new deck holds every valid tile exactly once, and nothing else: 144
/// cards, of which 8 are flowers.
pub proof fn lemma_full_deck()
    ensures
        full_deck().len() == 144,
        forall|c: PMJCard| full_deck().contains(c) <==> is_valid_tile(c),
        full_deck().no_duplicates(),
        forall|i: int| 0 <= i < 144 ==> (#[trigger] full_deck()[i].card_type is Flower <==> 108 <= i < 116),
{
    assert forall|c: PMJCard| full_deck().contains(c) <==> is_valid_tile(c) by {
        if is_valid_tile(c) {
            lemma_position_deck_card(c);
            assert(full_deck()[deck_position(c)] == c);
        }
        if full_deck().contains(c) {
            let i = choose|i: int| 0 <= i < 144 && full_deck()[i] == c;
            lemma_deck_card_position(i);
        }
    }
    assert forall|i: int, j: int| 0 <= i < 144 && 0 <= j < 144 && i != j implies full_deck()[i]
        != full_deck()[j] by {
        lemma_deck_card_position(i);
        lemma_deck_card_position(j);
    }
}

} // verus!
