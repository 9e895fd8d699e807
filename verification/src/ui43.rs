//! Panels laid out for a 1024 by 768 screen, shown in the middle of a wider
//! one: which code and which classes are concerned, and which objects were
//! moved.

use vstd::prelude::*;
use crate::rounding::{single_of, whole_to_single};
use crate::text::same;

verus! {

/// The number of places in the game that lay out panels by the window's size.
pub const CALLSITE_COUNT: usize = 244;

/// Return addresses of the calls that ask for the window's size to lay out a
/// panel.
pub const UI43_CALLSITES: [u32; 244] = [
    0xb468, 0xa71fe, 0xc07fa, 0xc93d0, 0xde600, 0xf2386, 0xf29fc, 0xf2b14,
    0xf2f46, 0xfbbe2, 0xfc76a, 0xfdb48, 0xfe6f4, 0xfe91c, 0x10fe60, 0x1102fc,
    0x110754, 0x110c42, 0x111952, 0x123932, 0x129e0a, 0x12d7c2, 0x134144, 0x134a86,
    0x13577e, 0x1358b6, 0x135bae, 0x136024, 0x137042, 0x1371d2, 0x1381d2, 0x13836e,
    0x138e24, 0x139e34, 0x13aab2, 0x13c338, 0x13c6e0, 0x13e318, 0x13f52e, 0x13f82a,
    0x140d86, 0x144532, 0x147280, 0x14cef4, 0x14e130, 0x14f94e, 0x150418, 0x152bd0,
    0x156604, 0x156916, 0x156ab2, 0x156da6, 0x158354, 0x159486, 0x159ac0, 0x164fa6,
    0x165146, 0x16641e, 0x1676d6, 0x168adc, 0x168fa0, 0x169eda, 0x16a06a, 0x16a3d2,
    0x16ba8c, 0x17176a, 0x174ade, 0x177ea2, 0x17b8ba, 0x17e12c, 0x17e51e, 0x17ea02,
    0x17ec6c, 0x17ed3a, 0x17f1ea, 0x17f37a, 0x17f66c, 0x1806c8, 0x180d98, 0x18667c,
    0x188bc2, 0x18a138, 0x18c2bc, 0x18c3e8, 0x18cc24, 0x18d1fa, 0x18e790, 0x190a2e,
    0x192de0, 0x193704, 0x193b36, 0x19c3d0, 0x1a24ec, 0x1a3f84, 0x1a6754, 0x1ac820,
    0x1ae7e4, 0x1af46e, 0x1af8c2, 0x1b11ec, 0x1b1c74, 0x1b2898, 0x1b40da, 0x1bb4a0,
    0x1ccf1c, 0x1cf50a, 0x1d0a5c, 0x1d2274, 0x1d33b4, 0x1d40ee, 0x1e299e, 0x1e50aa,
    0x1e6206, 0x1e73d4, 0x1eb2c8, 0x1f00a2, 0x1f21fc, 0x1f2c3c, 0x1fea1e, 0x1fffb6,
    0x1fffd6, 0x1fffec, 0x200314, 0x210a9a, 0x2126f0, 0x213060, 0x217e7e, 0x233188,
    0x235e68, 0x23687a, 0x23f17e, 0x246ce6, 0x24a802, 0x24d4b2, 0x2553ae, 0x27abfe,
    0x2c0942, 0x2d9d7a, 0x2ec99a, 0x2f68d0, 0x2f8190, 0x301562, 0x30ba98, 0x30f5d2,
    0x310186, 0x3107ec, 0x318ef2, 0x323c0c, 0x32d78e, 0x32ffea, 0x3319a2, 0x3335fe,
    0x336bc4, 0x339d5a, 0x345a52, 0x352f00, 0x3565c6, 0x358390, 0x359bae, 0x35cbfc,
    0x35e6ac, 0x36a260, 0x36e3c6, 0x370270, 0x370c80, 0x371140, 0x375fb6, 0x37794a,
    0x3796b4, 0x37af1c, 0x37cb66, 0x37de44, 0x37fb0a, 0x381434, 0x392f4a, 0x396402,
    0x3969a8, 0x397618, 0x39ac00, 0x39ca68, 0x3a035a, 0x3a3ef8, 0x3a8ddc, 0x3ae616,
    0x3af228, 0x3afb16, 0x3b5230, 0x3b770c, 0x3b786c, 0x3b8864, 0x3bda94, 0x3c18ce,
    0x3c3284, 0x3c359e, 0x3c3a0e, 0x3c63f4, 0x3c7d12, 0x3cae1c, 0x3cff0c, 0x3d8ffa,
    0x3da4b0, 0x3dace4, 0x3dc2e0, 0x3df538, 0x3e12e8, 0x3e21a0, 0x3e3b10, 0x3eced0,
    0x3ede0c, 0x3ef0a6, 0x3f032c, 0x3f22d4, 0x3f6f2e, 0x3f73f8, 0x3fa388, 0x3fa85c,
    0x3fed4a, 0x40012a, 0x40088a, 0x401a52, 0x401b5a, 0x4021f6, 0x40566a, 0x406c8c,
    0x40942c, 0x40e86a, 0x40f4a2, 0x410a44, 0x4147f0, 0x415254, 0x41664c, 0x41ddf4,
    0x41ef5e, 0x41f566, 0x420112, 0x4212c4, 0x4291e4, 0x42a360, 0x42bd38, 0x4318f6,
    0x4319aa, 0x434120, 0x43486c, 0x435a72,
];

/// The number of classes of panels.
pub const OFFSET_CLASS_COUNT: usize = 171;

/// Classes of panels that are moved as a whole.
pub const UI43_OFFSET_CLASSES: [&'static str; 171] = [
    "AcceptFriendsLayer", "AccountBindingLayer", "AchieveSystemLayer",
    "AchivementLayer", "ActionCenterLayer", "ActionCodeLayer",
    "ActionLevelLayer", "ActivityBulletinLayer", "ActivityCaribbeanBasePopLayer",
    "ActivityFlameWarsSelectLayer", "ActivityForecastLayer", "ActivityForecastSecondLayer",
    "ActivityHalloweenBasePopLayer", "ActivityXmasBasePopLayer", "Activity_Alice_BasePopLayer",
    "Activity_FlameWars_BasePopLayer", "Activity_FlameWars_MainLayer", "Activity_IceCream_BasePopLayer",
    "Activity_Shrek_BasePopLayer", "Activity_Totoro_BasePopLayer", "AnimalsRecyclerView",
    "AnniversaryMainLayer", "AnniversarySubLayer", "ApartmentView",
    "ApplyHongKongTourLayer", "AroundTheWorldMainLayer", "AutumnMainLayer",
    "AvatarLayer", "BugAchivement", "BugGame",
    "BugLevelBase", "BugLevelChoose", "CafeShopLayer",
    "CandyhouseLayer", "CaribbeanMainLayer", "ChangeRewardLayer",
    "ChooseVillageHelp", "ChooseVillageLayer", "ChoosingPagesMainLayer",
    "CommonChristmasFatherGiftLayer", "CropInfoView", "CrowPriestMessageLayer",
    "CustomerServiceLayer", "CutFruit", "CutFruitAchivement",
    "CutFruitLevelChoose", "DailyQuestLayer", "DailySignLayer",
    "DecorateRoomLayer", "DiscountInfoLayer", "DivineGame",
    "DriftBottleMessageLayer", "EasterEggGetRewardLayer", "EasterEggMainLayer",
    "ExchangeCenterLayer", "FinalRewardAnimation", "FirstChargeGiftsLayer",
    "FishingAchivement", "FishingGame", "FishingLevelChoose",
    "FlyKiteGetRewardLayer", "FlyKiteIntroductionsLayer", "FlyKiteMainLayer",
    "FriendsViewController", "FuncIntroLayer", "GameDataCompareLayer",
    "GamePlayGoView", "GetItemRewardFromHaiwangLayer", "GetLastRewardLayer",
    "GiftAndMessageLayer", "GiftLayer", "GiftViewLayer",
    "GoodsViewLayer", "GreenRiceBallMainLayer", "GreenhouseLayer",
    "GuessWorldCupMainLayer", "HalloweenMainLayer", "HelpLayer",
    "HelpQuestLayer", "HouseRecyclerView", "IceSummerMainLayer",
    "InviteFriendsLayer", "JunkShopLayer", "LeaveMessageLayer",
    "LeoAdvanceLayer", "Level1", "Level2",
    "Level3", "Level4", "LevelChooseLayer",
    "LevelUpLayer", "MagicNumberView", "MessageBox",
    "MessageBoxGift", "MessageViewController", "MessagesLayer",
    "MinerAchivement", "MinerGame", "MinerLevelChoose",
    "MiniBase", "MusicHallLayer", "NaramGetTodayRewardLayer",
    "NaramSpringIntroduceLayer", "NaramSpringMainLayer", "NewRewardsLayer",
    "NewSceneLevelUp", "NewSceneQuestLayer", "NewSceneStoryLayer",
    "NewSceneTestLayer", "NewStyleStoreItemsView", "NewStyleStoreMainLayer",
    "NewStyleStoreMenuView", "NoticeBoardLayer", "OpenTreasureChestMainLayer",
    "OptionLayer", "OscarDialogueLayer", "PaintingAchivement",
    "PaintingGame", "PaintingLevelChoose", "PaybackObjectsTableLayer",
    "PersonalTargetLayer", "Plow", "PlowAchivement",
    "PlowLevelChoose", "PopularItemsPKAdvanceLayer", "PopularItemsPKMainLayer",
    "PopularItemsPKVoteLayer", "PromoteSalesMainLayer", "PromoteShowItemsLayer",
    "QiXiAdvanceLayer", "QuestLayer", "QuestionnaireLayer",
    "ReceiveGiftLayer", "RegisterView", "RequestCodeLayer",
    "RestaurantView", "RewardLayer", "SeabedSeekingTreasureExchageRewardLayer",
    "SeabedSeekingTreasureMainLayer", "SeabedSeekingTreasureRuleLayer", "SealExchangeLayer",
    "SeekViewController", "ShopItemsLayer", "ShoppingView",
    "ShowActivityRuleLayer", "ShowFreeShellsLayer", "ShowMoreFriendsLayer",
    "ShowRuleLayer", "SpringPoemGetRewardLayer", "SpringPoemIntroduceLayer",
    "SpringPoemMainLayer", "SpringPoemPageLayer", "StoryLayer",
    "TeamTargetLayer", "TestLayer", "TimeQuestLayer",
    "TimeStoryLayer", "TourLineLayer", "TreasureHuntPopLayer",
    "TreasureRewardLayer", "VIPFunctionsLayer", "VIPLayer",
    "VerifyInviteCodeLayer", "VipQuestLayer", "VipStoryLayer",
    "WashRoomAchievement", "WashRoomGame", "WashRoomLevelChoose",
    "WaterTowerRewardView", "WiltWarningLayer", "XmasMainLayer",
];

/// The number of stretches of code.
pub const CODE_RANGE_COUNT: usize = 100;

/// Where the code of the panels begins.
pub const UI43_CODE_STARTS: [u32; 100] = [
    0xb2c0, 0xa70fc, 0xc06c8, 0xc92a4, 0xde4cc, 0xf2298, 0xfbb64, 0xfc628,
    0x10fdd0, 0x1118b0, 0x123804, 0x128844, 0x12d698, 0x133e4c, 0x143b6c, 0x14ce50,
    0x152b50, 0x159a28, 0x166388, 0x17d6e8, 0x180c6c, 0x186500, 0x18cb90, 0x190998,
    0x19c330, 0x1a2448, 0x1a66a8, 0x1ab468, 0x1ae6d8, 0x1b10e4, 0x1b3f58, 0x1baef0,
    0x1cce58, 0x1e60b0, 0x1eb158, 0x1efd78, 0x1fe968, 0x210a10, 0x212f7c, 0x233040,
    0x23f050, 0x246be8, 0x24a618, 0x2552a8, 0x27a92c, 0x2c0640, 0x2d9ce0, 0x2ec868,
    0x2f67b4, 0x2f8058, 0x3012d8, 0x30b920, 0x30f3a8, 0x3105d4, 0x323b08, 0x32b660,
    0x32ff58, 0x331700, 0x3334c0, 0x336388, 0x339c90, 0x3435f4, 0x352d60, 0x35645c,
    0x358310, 0x36a144, 0x3700cc, 0x371088, 0x375e78, 0x379578, 0x37ae84, 0x37dd08,
    0x37fa18, 0x392ba8, 0x396e98, 0x3a0010, 0x3a3e58, 0x3a8938, 0x3ae4e0, 0x3b4130,
    0x3b9130, 0x3c1400, 0x3ca988, 0x3da020, 0x3dc180, 0x3df49c, 0x3e1038, 0x3e39ac,
    0x3ece50, 0x3edd00, 0x3f6e84, 0x4000a0, 0x4019a8, 0x4146e8, 0x4151c4, 0x416570,
    0x41dce0, 0x428e88, 0x4317b4, 0x433f28,
];

/// Where the code of the panels ends, stretch by stretch.
pub const UI43_CODE_ENDS: [u32; 100] = [
    0xe890, 0xa7eb8, 0xc5a30, 0xcbda8, 0xdf040, 0xf32b8, 0xfbd88, 0x1001d4,
    0x111858, 0x112234, 0x123d9c, 0x12ad80, 0x12dda0, 0x1430c0, 0x147050, 0x151580,
    0x1596f8, 0x165b38, 0x17d5d0, 0x180b54, 0x182f90, 0x18c7e8, 0x1900f8, 0x193e24,
    0x19cf10, 0x1a3ef8, 0x1a8e58, 0x1ae628, 0x1af850, 0x1b35ec, 0x1b89dc, 0x1bd7fc,
    0x1d4480, 0x1e7814, 0x1ef3c4, 0x1f49ac, 0x203124, 0x212ec8, 0x218dec, 0x23669c,
    0x2401c8, 0x24a58c, 0x250a60, 0x2573b8, 0x27dc40, 0x2c3394, 0x2da998, 0x2edf60,
    0x2f6b90, 0x2f8a20, 0x3029d4, 0x30cc74, 0x310548, 0x318c98, 0x326828, 0x32e130,
    0x331298, 0x332c88, 0x333f78, 0x339c00, 0x33f69c, 0x345fcc, 0x353fb0, 0x3573f8,
    0x35e040, 0x36a584, 0x371028, 0x374028, 0x378800, 0x37aac4, 0x37cadc, 0x37f930,
    0x381138, 0x396c68, 0x39da08, 0x3a19b4, 0x3a50b8, 0x3aba8c, 0x3b2cc8, 0x3b90f4,
    0x3be850, 0x3ca780, 0x3d8b40, 0x3db924, 0x3dd244, 0x3e0418, 0x3e300c, 0x3e702c,
    0x3ed52c, 0x3f6a10, 0x3fff5c, 0x4017c8, 0x413914, 0x414d54, 0x41592c, 0x41dc20,
    0x4229e8, 0x42f488, 0x432ca4, 0x43aff4,
];

/// Bits of 1024 as a single-precision number.
pub const UI43_W_BITS: u32 = 0x4480_0000;

/// Bits of 768 as a single-precision number.
pub const UI43_H_BITS: u32 = 0x4440_0000;

/// The width the panels were designed for.
pub const DESIGN_WIDTH: u32 = 1024;

/// How many levels of superclasses are looked at.
pub const CHAIN_DEPTH: usize = 6;

/// How many ancestors of a node are looked at.
pub const ANCESTOR_DEPTH: usize = 32;

/// Whether a call returning to `lr` lays out a panel.
pub open spec fn is_callsite(lr: u32) -> bool {
    UI43_CALLSITES@.contains(lr)
}

/// Whether a call returning to `lr` lays out a panel.
pub fn ui43_callsite(lr: u32) -> (r: bool)
    ensures
        r == is_callsite(lr),
{
    let mut i: usize = 0;
    while i < CALLSITE_COUNT
        invariant
            i <= CALLSITE_COUNT,
            forall|j: int| 0 <= j < i ==> UI43_CALLSITES@[j] != lr,
        decreases CALLSITE_COUNT - i,
    {
        if UI43_CALLSITES[i] == lr {
            assert(UI43_CALLSITES@[i as int] == lr);
            return true;
        }
        i = i + 1;
    }
    false
}

/// Whether an address belongs to the code of a panel.
pub open spec fn in_panel_code(lr: u32) -> bool {
    exists|i: int|
        0 <= i < CODE_RANGE_COUNT && #[trigger] UI43_CODE_STARTS@[i] <= lr < UI43_CODE_ENDS@[i]
}

/// Whether an address belongs to the code of a panel.
pub fn ui43_lr_in_wl(lr: u32) -> (r: bool)
    ensures
        r == in_panel_code(lr),
{
    let mut i: usize = 0;
    while i < CODE_RANGE_COUNT
        invariant
            i <= CODE_RANGE_COUNT,
            forall|j: int|
                0 <= j < i ==> !(#[trigger] UI43_CODE_STARTS@[j] <= lr < UI43_CODE_ENDS@[j]),
        decreases CODE_RANGE_COUNT - i,
    {
        if UI43_CODE_STARTS[i] <= lr && lr < UI43_CODE_ENDS[i] {
            assert(UI43_CODE_STARTS@[i as int] <= lr < UI43_CODE_ENDS@[i as int]);
            return true;
        }
        i = i + 1;
    }
    false
}

/// Whether a name is that of a panel's class.
pub open spec fn is_panel_class(name: Seq<char>) -> bool {
    exists|i: int| 0 <= i < OFFSET_CLASS_COUNT && #[trigger] UI43_OFFSET_CLASSES@[i]@ == name
}

fn panel_class(name: &str) -> (r: bool)
    ensures
        r == is_panel_class(name@),
{
    let mut i: usize = 0;
    while i < OFFSET_CLASS_COUNT
        invariant
            i <= OFFSET_CLASS_COUNT,
            forall|j: int| 0 <= j < i ==> #[trigger] UI43_OFFSET_CLASSES@[j]@ != name@,
        decreases OFFSET_CLASS_COUNT - i,
    {
        if same(UI43_OFFSET_CLASSES[i], name) {
            assert(UI43_OFFSET_CLASSES@[i as int]@ == name@);
            return true;
        }
        i = i + 1;
    }
    false
}

/// Whether one of the first six classes of the chain is a panel's. The chain
/// holds the names of an object's class and its superclasses.
pub fn ui43_class_hit(chain: &Vec<String>) -> (r: bool)
    ensures
        r == is_panel(chain@),
{
    let mut i: usize = 0;
    while i < chain.len() && i < CHAIN_DEPTH
        invariant
            i <= chain@.len(),
            i <= CHAIN_DEPTH,
            forall|j: int| 0 <= j < i ==> !is_panel_class(#[trigger] chain@[j]@),
        decreases chain.len() - i,
    {
        if panel_class(chain[i].as_str()) {
            assert(is_panel_class(chain@[i as int]@));
            return true;
        }
        i = i + 1;
    }
    false
}

/// Whether one of the first six classes of the chain has the name `want`.
pub fn ui43_is_kind(chain: &Vec<String>, want: &str) -> (r: bool)
    ensures
        r == is_kind(chain@, want@),
{
    let mut i: usize = 0;
    while i < chain.len() && i < CHAIN_DEPTH
        invariant
            i <= chain@.len(),
            i <= CHAIN_DEPTH,
            forall|j: int| 0 <= j < i ==> #[trigger] chain@[j]@ != want@,
        decreases chain.len() - i,
    {
        if same(chain[i].as_str(), want) {
            assert(chain@[i as int]@ == want@);
            return true;
        }
        i = i + 1;
    }
    false
}

/// Whether one of the first six classes of the chain has this name.
pub open spec fn is_kind(chain: Seq<String>, want: Seq<char>) -> bool {
    exists|i: int| 0 <= i < chain.len() && i < CHAIN_DEPTH && #[trigger] chain[i]@ == want
}

/// Whether one of the first six classes of the chain is a panel's.
pub open spec fn is_panel(chain: Seq<String>) -> bool {
    exists|i: int|
        0 <= i < chain.len() && i < CHAIN_DEPTH && is_panel_class(#[trigger] chain[i]@)
}

/// Whether an object may be a background that has to be stretched: a picture
/// or a coloured layer without children, that is no panel and no text.
pub fn ui43_may_stretch(chain: &Vec<String>, children: u32) -> (r: bool)
    ensures
        r == may_stretch(chain@, children),
        r == (!is_panel(chain@) && (is_kind(chain@, "CCSprite"@) || is_kind(
            chain@,
            "CCLayerColor"@,
        )) && !is_kind(chain@, "CCLabelTTF"@) && !is_kind(chain@, "CCLabelBMFont"@) && !is_kind(
            chain@,
            "CCLabelAtlas"@,
        ) && children == 0),
{
    if ui43_class_hit(chain) {
        return false;
    }
    if !(ui43_is_kind(chain, "CCSprite") || ui43_is_kind(chain, "CCLayerColor")) {
        return false;
    }
    if ui43_is_kind(chain, "CCLabelTTF") || ui43_is_kind(chain, "CCLabelBMFont") || ui43_is_kind(
        chain,
        "CCLabelAtlas",
    ) {
        return false;
    }
    children == 0
}

/// How much wider the screen is than the panels' design, its width taken in
/// single precision. Panels are moved to the right by half of it.
pub open spec fn extra_width(portrait_height: u32) -> int {
    if single_of(portrait_height as int) > DESIGN_WIDTH {
        single_of(portrait_height as int) - DESIGN_WIDTH
    } else {
        0
    }
}

/// Whether panels are moved at all: by a point or more.
pub open spec fn moves_panels(portrait_height: u32) -> bool {
    extra_width(portrait_height) >= 2
}

/// How much wider the screen is than the panels' design: twice the distance by
/// which panels are moved.
pub fn ui43_offset_x(portrait_height: u32) -> (r: u32)
    ensures
        r == extra_width(portrait_height),
{
    let width: u64 = whole_to_single(portrait_height);
    if width > DESIGN_WIDTH as u64 {
        (width - DESIGN_WIDTH as u64) as u32
    } else {
        0
    }
}

/// Moved panels and views, and the threads that are asking the game for true
/// positions.
#[derive(Debug)]
pub struct Ui43 {
    pub roots: Vec<u32>,
    pub views: Vec<u32>,
    pub inner: u64,
}

fn listed(v: &Vec<u32>, p: u32) -> (r: bool)
    ensures
        r == v@.contains(p),
{
    let mut i: usize = 0;
    while i < v.len()
        invariant
            i <= v.len(),
            forall|j: int| 0 <= j < i ==> v@[j] != p,
        decreases v.len() - i,
    {
        if v[i] == p {
            return true;
        }
        i = i + 1;
    }
    false
}

fn insert(v: &mut Vec<u32>, p: u32)
    requires
        old(v)@.no_duplicates(),
    ensures
        final(v)@ == (if old(v)@.contains(p) { old(v)@ } else { old(v)@.push(p) }),
        final(v)@.no_duplicates(),
        final(v)@.to_set() == old(v)@.to_set().insert(p),
{
    let ghost before = v@;
    if !listed(v, p) {
        v.push(p);
        assert forall|x: u32| v@.to_set().contains(x) <==> before.to_set().insert(p).contains(x) by {
            if before.contains(x) {
                let i = choose|i: int| 0 <= i < before.len() && before[i] == x;
                assert(v@[i] == x);
            }
            if x == p {
                assert(v@[before.len() as int] == p);
            }
        }
    }
    assert(v@.to_set() =~= before.to_set().insert(p));
}

fn erase(v: &mut Vec<u32>, p: u32)
    requires
        old(v)@.no_duplicates(),
    ensures
        final(v)@.no_duplicates(),
        final(v)@.to_set() == old(v)@.to_set().remove(p),
{
    let ghost before = v@;
    let mut i: usize = 0;
    while i < v.len()
        invariant
            i <= v.len(),
            v@ == before,
            before == old(v)@,
            before.no_duplicates(),
            forall|j: int| 0 <= j < i ==> v@[j] != p,
        decreases v.len() - i,
    {
        if v[i] == p {
            let _gone: u32 = v.remove(i);
            proof {
                let k = i as int;
                assert(v@ =~= before.remove(k));
                assert forall|x: u32| v@.to_set().contains(x) <==> before.to_set().remove(p).contains(
                    x,
                ) by {
                    if v@.contains(x) {
                        let j = choose|j: int| 0 <= j < v@.len() && v@[j] == x;
                        assert(before[if j < k { j } else { j + 1 }] == x);
                    }
                    if before.contains(x) && x != p {
                        let j = choose|j: int| 0 <= j < before.len() && before[j] == x;
                        assert(v@[if j < k { j } else { j - 1 }] == x);
                    }
                }
                assert(v@.to_set() =~= before.to_set().remove(p));
            }
            return;
        }
        i = i + 1;
    }
    assert(!before.contains(p));
    assert(v@.to_set() =~= before.to_set().remove(p));
}

/// The selectors whose coordinates are translated.
#[derive(Clone, Copy, Debug, PartialEq, Eq, Structural)]
pub enum FastSel {
    Dealloc,
    Position,
    SetPosition,
    Frame,
    SetFrame,
    /// Where a touch is in a view.
    Location,
    /// From a node's to the screen's coordinates.
    ToWorld,
    /// From the screen's coordinates to a node's or to the interface's.
    ToNode,
    Other,
}

/// The selector with a name.
pub open spec fn fast_sel_of(name: Seq<char>) -> FastSel {
    if name == "dealloc"@ {
        FastSel::Dealloc
    } else if name == "position"@ {
        FastSel::Position
    } else if name == "setPosition:"@ {
        FastSel::SetPosition
    } else if name == "frame"@ {
        FastSel::Frame
    } else if name == "setFrame:"@ {
        FastSel::SetFrame
    } else if name == "locationInView:"@ || name == "previousLocationInView:"@ {
        FastSel::Location
    } else if name == "convertToWorldSpace:"@ || name == "convertToWorldSpaceAR:"@ {
        FastSel::ToWorld
    } else if name == "convertToNodeSpace:"@ || name == "convertToNodeSpaceAR:"@ || name
        == "convertToUI:"@ {
        FastSel::ToNode
    } else {
        FastSel::Other
    }
}

impl FastSel {
    /// The selector with a name.
    pub fn of(name: &str) -> (r: FastSel)
        ensures
            r == fast_sel_of(name@),
    {
        if same(name, "dealloc") {
            FastSel::Dealloc
        } else if same(name, "position") {
            FastSel::Position
        } else if same(name, "setPosition:") {
            FastSel::SetPosition
        } else if same(name, "frame") {
            FastSel::Frame
        } else if same(name, "setFrame:") {
            FastSel::SetFrame
        } else if same(name, "locationInView:") || same(name, "previousLocationInView:") {
            FastSel::Location
        } else if same(name, "convertToWorldSpace:") || same(name, "convertToWorldSpaceAR:") {
            FastSel::ToWorld
        } else if same(name, "convertToNodeSpace:") || same(name, "convertToNodeSpaceAR:") || same(
            name,
            "convertToUI:",
        ) {
            FastSel::ToNode
        } else {
            FastSel::Other
        }
    }
}

/// Registers of a message, as far as coordinates are translated by them. A
/// message that returns a structure has the place for it in `r0` and the
/// receiver in `r1`.
#[derive(Clone, Copy, Debug, PartialEq, Eq, Structural)]
pub struct FastRegs {
    pub r0: u32,
    pub r1: u32,
    pub r2: u32,
    pub r3: u32,
    pub sp: u32,
    pub lr: u32,
}

/// What to do with a message about coordinates. `halves` is by how many halves
/// of a point to move to the right, and below zero to the left.
#[derive(Clone, Copy, Debug, PartialEq, Eq, Structural)]
pub enum FastStep {
    /// Leave it to the game.
    Pass,
    /// Ask the receiver for its true position, and write it to `into`, moved.
    GetPosition { recv: u32, into: u32, halves: i64 },
    /// Give the receiver the position in these registers, moved.
    SetPosition { recv: u32, x: u32, y: u32, halves: i64 },
    /// Ask the receiver for its true frame, and write it to `into`, moved.
    GetFrame { recv: u32, into: u32, halves: i64 },
    /// Give the receiver the frame in these registers and at `rest`, moved.
    SetFrame { recv: u32, x: u32, y: u32, rest: u32, halves: i64 },
    /// Ask where the touch is in the view, and write it to `into`, moved.
    Location { recv: u32, view: u32, into: u32, halves: i64 },
    /// Translate the point from the node, and write it to `into`, moved.
    ToWorld { recv: u32, x: u32, y_at: u32, into: u32, halves: i64 },
    /// Translate the point, moved, to the node, and write the result to `into`.
    ToNode { recv: u32, x: u32, y_at: u32, into: u32, halves: i64 },
}

/// The bit of a thread.
pub open spec fn thread_bit(thread: u64) -> u64 {
    1u64 << (thread & 63)
}

/// Whether a thread is asking for true positions.
pub open spec fn is_inner(inner: u64, thread: u64) -> bool {
    inner & thread_bit(thread) != 0
}

impl Ui43 {
    /// No object is listed twice.
    pub open spec fn wf(&self) -> bool {
        self.roots@.no_duplicates() && self.views@.no_duplicates()
    }

    /// Nothing moved yet.
    pub fn new() -> (r: Ui43)
        ensures
            r.wf(),
            r.roots@.len() == 0,
            r.views@.len() == 0,
            r.inner == 0,
    {
        Ui43 { roots: Vec::new(), views: Vec::new(), inner: 0 }
    }

    /// Whether the panel was moved.
    pub fn ui43_root_contains(&self, p: u32) -> (r: bool)
        ensures
            r == self.roots@.contains(p),
    {
        listed(&self.roots, p)
    }

    /// Notes that the panel was moved.
    pub fn ui43_root_add(&mut self, p: u32)
        requires
            old(self).wf(),
        ensures
            final(self).wf(),
            final(self).roots@ == (if old(self).roots@.contains(p) {
                old(self).roots@
            } else {
                old(self).roots@.push(p)
            }),
            final(self).views == old(self).views,
            final(self).inner == old(self).inner,
    {
        insert(&mut self.roots, p);
    }

    /// Forgets the panel.
    pub fn ui43_root_remove(&mut self, p: u32)
        requires
            old(self).wf(),
        ensures
            final(self).wf(),
            final(self).roots@.to_set() == old(self).roots@.to_set().remove(p),
            final(self).views == old(self).views,
            final(self).inner == old(self).inner,
    {
        erase(&mut self.roots, p);
    }

    /// Whether the view was moved.
    pub fn ui43_view_contains(&self, p: u32) -> (r: bool)
        ensures
            r == self.views@.contains(p),
    {
        listed(&self.views, p)
    }

    /// Notes that the view was moved.
    pub fn ui43_view_add(&mut self, p: u32)
        requires
            old(self).wf(),
        ensures
            final(self).wf(),
            final(self).views@ == (if old(self).views@.contains(p) {
                old(self).views@
            } else {
                old(self).views@.push(p)
            }),
            final(self).roots == old(self).roots,
            final(self).inner == old(self).inner,
    {
        insert(&mut self.views, p);
    }

    /// Forgets the view.
    pub fn ui43_view_remove(&mut self, p: u32)
        requires
            old(self).wf(),
        ensures
            final(self).wf(),
            final(self).views@.to_set() == old(self).views@.to_set().remove(p),
            final(self).roots == old(self).roots,
            final(self).inner == old(self).inner,
    {
        erase(&mut self.views, p);
    }

    /// Whether the thread is asking for true positions.
    pub fn ui43_inner_active(&self, thread: u64) -> (r: bool)
        ensures
            r == is_inner(self.inner, thread),
    {
        let low: u64 = thread & 63;
        assert(thread & 63 < 64) by (bit_vector);
        self.inner & (1u64 << low) != 0
    }

    /// Notes that the thread asks for true positions; says whether it already
    /// did.
    pub fn enter_inner(&mut self, thread: u64) -> (was_set: bool)
        ensures
            was_set == is_inner(old(self).inner, thread),
            final(self).inner == old(self).inner | thread_bit(thread),
            is_inner(final(self).inner, thread),
            final(self).roots == old(self).roots,
            final(self).views == old(self).views,
    {
        let low: u64 = thread & 63;
        assert(thread & 63 < 64) by (bit_vector);
        let was_set = self.inner & (1u64 << low) != 0;
        let inner = self.inner;
        assert((inner | (1u64 << low)) & (1u64 << low) != 0) by (bit_vector)
            requires
                low < 64,
        ;
        self.inner = self.inner | (1u64 << low);
        was_set
    }

    /// Ends what [`Ui43::enter_inner`] began; `was_set` is what it said.
    pub fn leave_inner(&mut self, thread: u64, was_set: bool)
        ensures
            final(self).inner == (if was_set {
                old(self).inner
            } else {
                old(self).inner & !thread_bit(thread)
            }),
            final(self).roots == old(self).roots,
            final(self).views == old(self).views,
    {
        if !was_set {
            let low: u64 = thread & 63;
            assert(thread & 63 < 64) by (bit_vector);
            self.inner = self.inner & !(1u64 << low);
        }
    }

    /// Decides what happens to a layer that comes on screen, and notes a panel
    /// that is moved. `panel` tells whether it is of a panel's class,
    /// `ancestors` whether each node above it is, with its address;
    /// `color_layer` whether it paints its own background.
    pub fn ui43_center_on_enter(
        &mut self,
        recv: u32,
        panel: bool,
        portrait_height: u32,
        ancestors: &Vec<(u32, bool)>,
        color_layer: bool,
    ) -> (r: EnterPlan)
        requires
            old(self).wf(),
        ensures
            final(self).wf(),
            final(self).inner == old(self).inner,
            final(self).views == old(self).views,
            r == enter_plan(
                old(self).roots@,
                recv,
                panel,
                portrait_height,
                ancestors@,
                color_layer,
            ),
            ({
                let concerned = panel && moves_panels(portrait_height);
                let already = old(self).roots@.contains(recv);
                let nested = !already && has_moved_ancestor(old(self).roots@, ancestors@);
                &&& r.shift == (concerned && !already && !nested)
                &&& r.stretch_children == r.shift
                &&& r.extend_background == (concerned && !nested && color_layer)
                &&& final(self).roots@ == if r.shift {
                    old(self).roots@.push(recv)
                } else {
                    old(self).roots@
                }
            }),
    {
        if !panel || ui43_offset_x(portrait_height) < 2 {
            return EnterPlan { shift: false, extend_background: false, stretch_children: false };
        }
        let already = self.ui43_root_contains(recv);
        let nested = !already && self.ui43_has_shifted_ancestor(ancestors);
        let shift = !already && !nested;
        if shift {
            self.ui43_root_add(recv);
        }
        EnterPlan {
            shift,
            extend_background: !nested && color_layer,
            stretch_children: shift,
        }
    }

    /// Whether a node above was moved or belongs to a panel.
    pub fn ui43_has_shifted_ancestor(&self, ancestors: &Vec<(u32, bool)>) -> (r: bool)
        ensures
            r == has_moved_ancestor(self.roots@, ancestors@),
    {
        let mut i: usize = 0;
        while i < ancestors.len() && i < ANCESTOR_DEPTH
            invariant
                i <= ancestors@.len(),
                i <= ANCESTOR_DEPTH,
                forall|j: int|
                    0 <= j < i ==> !self.roots@.contains((#[trigger] ancestors@[j]).0)
                        && !ancestors@[j].1,
            decreases ancestors.len() - i,
        {
            let (node, panel) = ancestors[i];
            if panel || self.ui43_root_contains(node) {
                assert(self.roots@.contains(ancestors@[i as int].0) || ancestors@[i as int].1);
                return true;
            }
            i = i + 1;
        }
        false
    }

    /// Whether a child that is added may have to be stretched.
    pub fn ui43_on_add_child(&self, recv: u32, child: u32, portrait_height: u32) -> (r: bool)
        ensures
            r == takes_child(self.roots@, recv, child, portrait_height),
            r == (child != 0 && self.roots@.contains(recv) && moves_panels(portrait_height)),
    {
        child != 0 && self.ui43_root_contains(recv) && ui43_offset_x(portrait_height) >= 2
    }

    /// Whether a view that is added has to be moved, and notes it. `gl_view`
    /// tells whether it is added to the game's view, `in_design` whether it
    /// lies within the width of the design.
    pub fn ui43_on_add_subview(
        &mut self,
        recv: u32,
        child: u32,
        portrait_height: u32,
        gl_view: bool,
        in_design: bool,
    ) -> (r: bool)
        requires
            old(self).wf(),
        ensures
            final(self).wf(),
            final(self).inner == old(self).inner,
            final(self).roots == old(self).roots,
            r == takes_subview(
                old(self).views@,
                recv,
                child,
                portrait_height,
                gl_view,
                in_design,
            ),
            r == (child != 0 && recv != 0 && !old(self).views@.contains(child) && moves_panels(
                portrait_height,
            ) && gl_view && in_design),
            final(self).views@ == (if r {
                old(self).views@.push(child)
            } else {
                old(self).views@
            }),
    {
        if child == 0 || recv == 0 || self.ui43_view_contains(child) {
            return false;
        }
        if ui43_offset_x(portrait_height) < 2 || !gl_view || !in_design {
            return false;
        }
        self.ui43_view_add(child);
        true
    }
}

/// What to do with a message about coordinates. An object that is freed is
/// forgotten. Messages of the emulator itself are left alone, as are all
/// while nothing was moved.
pub fn intercept_fast(
    ui: &mut Ui43,
    sel: FastSel,
    from_host: bool,
    thread: u64,
    portrait_height: u32,
    regs: &FastRegs,
) -> (r: FastStep)
    requires
        old(ui).wf(),
    ensures
        final(ui).wf(),
        final(ui).inner == old(ui).inner,
        ({
            let freed = sel == FastSel::Dealloc;
            &&& final(ui).roots@.to_set() == if freed {
                old(ui).roots@.to_set().remove(regs.r0)
            } else {
                old(ui).roots@.to_set()
            }
            &&& final(ui).views@.to_set() == if freed {
                old(ui).views@.to_set().remove(regs.r0)
            } else {
                old(ui).views@.to_set()
            }
        }),
        r == fast_reply(
            old(ui).roots@,
            old(ui).views@,
            sel,
            from_host,
            is_inner(old(ui).inner, thread),
            portrait_height,
            *regs,
        ),
        r == (if from_host || is_inner(old(ui).inner, thread) || !moves_panels(portrait_height) {
            FastStep::Pass
        } else {
            translation(
                old(ui).roots@,
                old(ui).views@,
                sel,
                *regs,
                extra_width(portrait_height) as i64,
            )
        }),
{
    if ui.roots.len() == 0 && ui.views.len() == 0 {
        assert(ui.roots@ =~= Seq::empty() && ui.views@ =~= Seq::empty());
        assert(ui.roots@.to_set().remove(regs.r0) =~= ui.roots@.to_set());
        assert(ui.views@.to_set().remove(regs.r0) =~= ui.views@.to_set());
        return FastStep::Pass;
    }
    if let FastSel::Dealloc = sel {
        erase(&mut ui.roots, regs.r0);
        erase(&mut ui.views, regs.r0);
        return FastStep::Pass;
    }
    if from_host || ui.ui43_inner_active(thread) {
        return FastStep::Pass;
    }
    let right: i64 = ui43_offset_x(portrait_height) as i64;
    if right < 2 {
        return FastStep::Pass;
    }
    let left: i64 = -right;
    let clear: u32 = regs.lr & !1u32;
    match sel {
        FastSel::Position => {
            if !ui.ui43_root_contains(regs.r1) {
                return FastStep::Pass;
            }
            FastStep::GetPosition { recv: regs.r1, into: regs.r0, halves: left }
        },
        FastSel::SetPosition => {
            if !ui.ui43_root_contains(regs.r0) {
                return FastStep::Pass;
            }
            FastStep::SetPosition { recv: regs.r0, x: regs.r2, y: regs.r3, halves: right }
        },
        FastSel::Frame => {
            if !ui.ui43_view_contains(regs.r1) {
                return FastStep::Pass;
            }
            FastStep::GetFrame { recv: regs.r1, into: regs.r0, halves: left }
        },
        FastSel::SetFrame => {
            if !ui.ui43_view_contains(regs.r0) {
                return FastStep::Pass;
            }
            FastStep::SetFrame {
                recv: regs.r0,
                x: regs.r2,
                y: regs.r3,
                rest: regs.sp,
                halves: right,
            }
        },
        FastSel::Location => {
            if ui.roots.len() == 0 || !ui43_lr_in_wl(clear) {
                return FastStep::Pass;
            }
            FastStep::Location {
                recv: regs.r1,
                view: regs.r3,
                into: regs.r0,
                halves: if regs.r3 != 0 { left } else { 0 },
            }
        },
        FastSel::ToWorld => {
            if ui.roots.len() == 0 || !ui43_lr_in_wl(clear) {
                return FastStep::Pass;
            }
            FastStep::ToWorld {
                recv: regs.r1,
                x: regs.r3,
                y_at: regs.sp,
                into: regs.r0,
                halves: left,
            }
        },
        FastSel::ToNode => {
            if ui.roots.len() == 0 || !ui43_lr_in_wl(clear) {
                return FastStep::Pass;
            }
            FastStep::ToNode {
                recv: regs.r1,
                x: regs.r3,
                y_at: regs.sp,
                into: regs.r0,
                halves: right,
            }
        },
        _ => FastStep::Pass,
    }
}

/// What happens to a layer that comes on screen.
#[derive(Clone, Copy, Debug, PartialEq, Eq, Structural)]
pub struct EnterPlan {
    pub shift: bool,
    pub extend_background: bool,
    pub stretch_children: bool,
}

/// Whether one of the first 32 nodes above was moved or belongs to a panel.
pub open spec fn has_moved_ancestor(roots: Seq<u32>, ancestors: Seq<(u32, bool)>) -> bool {
    exists|i: int|
        0 <= i < ancestors.len() && i < ANCESTOR_DEPTH && (roots.contains(
            (#[trigger] ancestors[i]).0,
        ) || ancestors[i].1)
}

/// What to do with a message about coordinates. `asking` tells whether its
/// thread asks for true positions.
pub open spec fn fast_reply(
    roots: Seq<u32>,
    views: Seq<u32>,
    sel: FastSel,
    from_host: bool,
    asking: bool,
    portrait_height: u32,
    regs: FastRegs,
) -> FastStep {
    if from_host || asking || !moves_panels(portrait_height) {
        FastStep::Pass
    } else {
        translation(roots, views, sel, regs, extra_width(portrait_height) as i64)
    }
}

/// What happens to a layer that comes on screen.
pub open spec fn enter_plan(
    roots: Seq<u32>,
    recv: u32,
    panel: bool,
    portrait_height: u32,
    ancestors: Seq<(u32, bool)>,
    color_layer: bool,
) -> EnterPlan {
    let concerned = panel && moves_panels(portrait_height);
    let already = roots.contains(recv);
    let nested = !already && has_moved_ancestor(roots, ancestors);
    EnterPlan {
        shift: concerned && !already && !nested,
        extend_background: concerned && !nested && color_layer,
        stretch_children: concerned && !already && !nested,
    }
}

/// Whether an object may be a background that has to be stretched.
pub open spec fn may_stretch(chain: Seq<String>, children: u32) -> bool {
    !is_panel(chain) && (is_kind(chain, "CCSprite"@) || is_kind(chain, "CCLayerColor"@))
        && !is_kind(chain, "CCLabelTTF"@) && !is_kind(chain, "CCLabelBMFont"@) && !is_kind(
        chain,
        "CCLabelAtlas"@,
    ) && children == 0
}

/// Whether a child that is added may have to be stretched.
pub open spec fn takes_child(roots: Seq<u32>, recv: u32, child: u32, portrait_height: u32) -> bool {
    child != 0 && roots.contains(recv) && moves_panels(portrait_height)
}

/// Whether a view that is added has to be moved.
pub open spec fn takes_subview(
    views: Seq<u32>,
    recv: u32,
    child: u32,
    portrait_height: u32,
    gl_view: bool,
    in_design: bool,
) -> bool {
    child != 0 && recv != 0 && !views.contains(child) && moves_panels(portrait_height) && gl_view
        && in_design
}

/// How a message of the game about coordinates is translated, on a screen that
/// is `extra` points wider than the design. Positions of moved objects are
/// translated for everyone; other coordinates only for the code of the panels,
/// and only once a panel was moved.
pub open spec fn translation(
    roots: Seq<u32>,
    views: Seq<u32>,
    sel: FastSel,
    regs: FastRegs,
    extra: i64,
) -> FastStep {
    let asked_by_panel = roots.len() > 0 && in_panel_code(regs.lr & !1u32);
    let right = extra;
    let left = (-extra) as i64;
    match sel {
        FastSel::Position if roots.contains(regs.r1) => FastStep::GetPosition {
            recv: regs.r1,
            into: regs.r0,
            halves: left,
        },
        FastSel::SetPosition if roots.contains(regs.r0) => FastStep::SetPosition {
            recv: regs.r0,
            x: regs.r2,
            y: regs.r3,
            halves: right,
        },
        FastSel::Frame if views.contains(regs.r1) => FastStep::GetFrame {
            recv: regs.r1,
            into: regs.r0,
            halves: left,
        },
        FastSel::SetFrame if views.contains(regs.r0) => FastStep::SetFrame {
            recv: regs.r0,
            x: regs.r2,
            y: regs.r3,
            rest: regs.sp,
            halves: right,
        },
        FastSel::Location if asked_by_panel => FastStep::Location {
            recv: regs.r1,
            view: regs.r3,
            into: regs.r0,
            halves: if regs.r3 != 0 {
                left
            } else {
                0
            },
        },
        FastSel::ToWorld if asked_by_panel => FastStep::ToWorld {
            recv: regs.r1,
            x: regs.r3,
            y_at: regs.sp,
            into: regs.r0,
            halves: left,
        },
        FastSel::ToNode if asked_by_panel => FastStep::ToNode {
            recv: regs.r1,
            x: regs.r3,
            y_at: regs.sp,
            into: regs.r0,
            halves: right,
        },
        _ => FastStep::Pass,
    }
}

/// While nothing was moved, no message is translated.
pub proof fn law_nothing_moved_nothing_translated(sel: FastSel, regs: FastRegs, extra: i64)
    ensures
        translation(Seq::empty(), Seq::empty(), sel, regs, extra) == FastStep::Pass,
{
}

/// The game sees the coordinates of the design: the position of a moved panel
/// is read as far to the left as it is written to the right, half the extra
/// width. The position of an object that was not moved is left to the game.
pub proof fn law_game_sees_design_coordinates(
    roots: Seq<u32>,
    views: Seq<u32>,
    regs: FastRegs,
    extra: u32,
)
    ensures
        ({
            let read = translation(roots, views, FastSel::Position, regs, extra as i64);
            if roots.contains(regs.r1) {
                read == (FastStep::GetPosition {
                    recv: regs.r1,
                    into: regs.r0,
                    halves: (-(extra as i64)) as i64,
                })
            } else {
                read == FastStep::Pass
            }
        }),
        ({
            let written = translation(roots, views, FastSel::SetPosition, regs, extra as i64);
            if roots.contains(regs.r0) {
                written == (FastStep::SetPosition {
                    recv: regs.r0,
                    x: regs.r2,
                    y: regs.r3,
                    halves: extra as i64,
                })
            } else {
                written == FastStep::Pass
            }
        }),
{
}

/// What the game writes of a position reads back as it was written, counted in
/// halves of a point: `at` is moved out and back again, or not at all. The same
/// holds of frames. `regs` are the registers of the message that writes, `of`
/// those of one that reads from the same object.
pub proof fn law_written_coordinates_read_back(
    roots: Seq<u32>,
    views: Seq<u32>,
    regs: FastRegs,
    of: FastRegs,
    extra: u32,
    at: int,
)
    requires
        of.r1 == regs.r0,
    ensures
        match (
            translation(roots, views, FastSel::SetPosition, regs, extra as i64),
            translation(roots, views, FastSel::Position, of, extra as i64),
        ) {
            (
                FastStep::SetPosition { halves: out, .. },
                FastStep::GetPosition { halves: back, .. },
            ) => at + out + back == at,
            (FastStep::Pass, FastStep::Pass) => true,
            _ => false,
        },
        match (
            translation(roots, views, FastSel::SetFrame, regs, extra as i64),
            translation(roots, views, FastSel::Frame, of, extra as i64),
        ) {
            (
                FastStep::SetFrame { halves: out, .. },
                FastStep::GetFrame { halves: back, .. },
            ) => at + out + back == at,
            (FastStep::Pass, FastStep::Pass) => true,
            _ => false,
        },
{
}

/// Asking for true positions and ending it leaves the other threads' marks and
/// one's own as they were.
pub proof fn law_inner_is_undone(inner: u64, thread: u64)
    ensures
        !is_inner(inner, thread) ==> (inner | thread_bit(thread)) & !thread_bit(thread) == inner,
        is_inner(inner, thread) ==> inner | thread_bit(thread) == inner,
{
    let low = thread & 63;
    assert(thread & 63 < 64) by (bit_vector);
    assert(inner & (1u64 << low) == 0 ==> (inner | (1u64 << low)) & !(1u64 << low) == inner)
        by (bit_vector)
        requires
            low < 64,
    ;
    assert(inner & (1u64 << low) != 0 ==> inner | (1u64 << low) == inner) by (bit_vector)
        requires
            low < 64,
    ;
}

/// On a screen that is no wider than the design no panel is moved.
pub proof fn law_design_width_is_kept(portrait_height: u32)
    requires
        portrait_height <= DESIGN_WIDTH,
    ensures
        !moves_panels(portrait_height),
        extra_width(portrait_height) == 0,
{
}

} // verus!
