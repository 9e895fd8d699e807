//! Which code and which classes belong to panels, and what panels are told of
//! coordinates.

use vstd::prelude::*;
use crate::ui43::{
    enter_plan, extra_width, fast_reply, fast_sel_of, has_moved_ancestor, in_panel_code, is_callsite,
    is_kind, is_panel, is_panel_class, may_stretch, moves_panels, takes_child, takes_subview,
    translation, FastRegs, FastSel, FastStep, CODE_RANGE_COUNT, UI43_CALLSITES, UI43_CODE_ENDS,
    UI43_CODE_STARTS, UI43_OFFSET_CLASSES,
};

verus! {

/// The calls that ask for the window's size to lay out a panel, by their return
/// addresses.
pub open spec fn layout_calls() -> Seq<u32> {
    seq![
        0xb468u32, 0xa71fe, 0xc07fa, 0xc93d0, 0xde600, 0xf2386, 0xf29fc, 0xf2b14,
        0xf2f46, 0xfbbe2, 0xfc76a, 0xfdb48, 0xfe6f4, 0xfe91c, 0x10fe60, 0x1102fc,
        0x110754, 0x110c42, 0x111952, 0x123932, 0x129e0a, 0x12d7c2, 0x134144, 0x134a86,
        0x13577e, 0x1358b6, 0x135bae, 0x136024, 0x137042, 0x1371d2, 0x1381d2, 0x13836e,
        0x138e24, 0x139e34, 0x13aab2, 0x13c338, 0x13c6e0, 0x13e318, 0x13f52e, 0x13f82a,
        0x140d86, 0x144532, 0x147280, 0x14cef4, 0x14e130, 0x14f94e, 0x150418, 0x152bd0,
        0x156604, 0x156916, 0x156ab2, 0x156da6, 0x158354, 0x159486, 0x159ac0, 0x164fa6,
        0x165146, 0x16641e, 0x1676d6, 0x168adc, 0x168fa0, 0x169eda, 0x16a06a, 0x16a3d2,
        0x16ba8c, 0x17176a, 0x174ade, 0x177ea2, 0x17b8ba, 0x17e12c, 0x17e51e, 0x17ea02,
        0x17ec6c, 0x17ed3a, 0x17f1ea, 0x17f37a, 0x17f66c, 0x1806c8, 0x180d98, 0x18667c,
        0x188bc2, 0x18a138, 0x18c2bc, 0x18c3e8, 0x18cc24, 0x18d1fa, 0x18e790, 0x190a2e,
        0x192de0, 0x193704, 0x193b36, 0x19c3d0, 0x1a24ec, 0x1a3f84, 0x1a6754, 0x1ac820,
        0x1ae7e4, 0x1af46e, 0x1af8c2, 0x1b11ec, 0x1b1c74, 0x1b2898, 0x1b40da, 0x1bb4a0,
        0x1ccf1c, 0x1cf50a, 0x1d0a5c, 0x1d2274, 0x1d33b4, 0x1d40ee, 0x1e299e, 0x1e50aa,
        0x1e6206, 0x1e73d4, 0x1eb2c8, 0x1f00a2, 0x1f21fc, 0x1f2c3c, 0x1fea1e, 0x1fffb6,
        0x1fffd6, 0x1fffec, 0x200314, 0x210a9a, 0x2126f0, 0x213060, 0x217e7e, 0x233188,
        0x235e68, 0x23687a, 0x23f17e, 0x246ce6, 0x24a802, 0x24d4b2, 0x2553ae, 0x27abfe,
        0x2c0942, 0x2d9d7a, 0x2ec99a, 0x2f68d0, 0x2f8190, 0x301562, 0x30ba98, 0x30f5d2,
        0x310186, 0x3107ec, 0x318ef2, 0x323c0c, 0x32d78e, 0x32ffea, 0x3319a2, 0x3335fe,
        0x336bc4, 0x339d5a, 0x345a52, 0x352f00, 0x3565c6, 0x358390, 0x359bae, 0x35cbfc,
        0x35e6ac, 0x36a260, 0x36e3c6, 0x370270, 0x370c80, 0x371140, 0x375fb6, 0x37794a,
        0x3796b4, 0x37af1c, 0x37cb66, 0x37de44, 0x37fb0a, 0x381434, 0x392f4a, 0x396402,
        0x3969a8, 0x397618, 0x39ac00, 0x39ca68, 0x3a035a, 0x3a3ef8, 0x3a8ddc, 0x3ae616,
        0x3af228, 0x3afb16, 0x3b5230, 0x3b770c, 0x3b786c, 0x3b8864, 0x3bda94, 0x3c18ce,
        0x3c3284, 0x3c359e, 0x3c3a0e, 0x3c63f4, 0x3c7d12, 0x3cae1c, 0x3cff0c, 0x3d8ffa,
        0x3da4b0, 0x3dace4, 0x3dc2e0, 0x3df538, 0x3e12e8, 0x3e21a0, 0x3e3b10, 0x3eced0,
        0x3ede0c, 0x3ef0a6, 0x3f032c, 0x3f22d4, 0x3f6f2e, 0x3f73f8, 0x3fa388, 0x3fa85c,
        0x3fed4a, 0x40012a, 0x40088a, 0x401a52, 0x401b5a, 0x4021f6, 0x40566a, 0x406c8c,
        0x40942c, 0x40e86a, 0x40f4a2, 0x410a44, 0x4147f0, 0x415254, 0x41664c, 0x41ddf4,
        0x41ef5e, 0x41f566, 0x420112, 0x4212c4, 0x4291e4, 0x42a360, 0x42bd38, 0x4318f6,
        0x4319aa, 0x434120, 0x43486c, 0x435a72,
    ]
}

/// A call lays out a panel exactly if it is one of these.
pub proof fn law_layout_calls(lr: u32)
    ensures
        is_callsite(lr) <==> layout_calls().contains(lr),
{
    assert(UI43_CALLSITES@ =~= layout_calls());
}

/// Where the code of each panel begins.
pub open spec fn code_begins() -> Seq<u32> {
    seq![
        0xb2c0u32, 0xa70fc, 0xc06c8, 0xc92a4, 0xde4cc, 0xf2298, 0xfbb64, 0xfc628,
        0x10fdd0, 0x1118b0, 0x123804, 0x128844, 0x12d698, 0x133e4c, 0x143b6c, 0x14ce50,
        0x152b50, 0x159a28, 0x166388, 0x17d6e8, 0x180c6c, 0x186500, 0x18cb90, 0x190998,
        0x19c330, 0x1a2448, 0x1a66a8, 0x1ab468, 0x1ae6d8, 0x1b10e4, 0x1b3f58, 0x1baef0,
        0x1cce58, 0x1e60b0, 0x1eb158, 0x1efd78, 0x1fe968, 0x210a10, 0x212f7c, 0x233040,
        0x23f050, 0x246be8, 0x24a618, 0x2552a8, 0x27a92c, 0x2c0640, 0x2d9ce0, 0x2ec868,
        0x2f67b4, 0x2f8058, 0x3012d8, 0x30b920, 0x30f3a8, 0x3105d4, 0x323b08, 0x32b660,
        0x32ff58, 0x331700, 0x3334c0, 0x336388, 0x339c90, 0x3435f4, 0x352d60, 0x35645c,
        0x358310, 0x36a144, 0x3700cc, 0x371088, 0x375e78, 0x379578, 0x37ae84, 0x37dd08,
        0x37fa18, 0x392ba8, 0x396e98, 0x3a0010, 0x3a3e58, 0x3a8938, 0x3ae4e0, 0x3b4130,
        0x3b9130, 0x3c1400, 0x3ca988, 0x3da020, 0x3dc180, 0x3df49c, 0x3e1038, 0x3e39ac,
        0x3ece50, 0x3edd00, 0x3f6e84, 0x4000a0, 0x4019a8, 0x4146e8, 0x4151c4, 0x416570,
        0x41dce0, 0x428e88, 0x4317b4, 0x433f28,
    ]
}

/// Where the code of each panel ends.
pub open spec fn code_ends() -> Seq<u32> {
    seq![
        0xe890u32, 0xa7eb8, 0xc5a30, 0xcbda8, 0xdf040, 0xf32b8, 0xfbd88, 0x1001d4,
        0x111858, 0x112234, 0x123d9c, 0x12ad80, 0x12dda0, 0x1430c0, 0x147050, 0x151580,
        0x1596f8, 0x165b38, 0x17d5d0, 0x180b54, 0x182f90, 0x18c7e8, 0x1900f8, 0x193e24,
        0x19cf10, 0x1a3ef8, 0x1a8e58, 0x1ae628, 0x1af850, 0x1b35ec, 0x1b89dc, 0x1bd7fc,
        0x1d4480, 0x1e7814, 0x1ef3c4, 0x1f49ac, 0x203124, 0x212ec8, 0x218dec, 0x23669c,
        0x2401c8, 0x24a58c, 0x250a60, 0x2573b8, 0x27dc40, 0x2c3394, 0x2da998, 0x2edf60,
        0x2f6b90, 0x2f8a20, 0x3029d4, 0x30cc74, 0x310548, 0x318c98, 0x326828, 0x32e130,
        0x331298, 0x332c88, 0x333f78, 0x339c00, 0x33f69c, 0x345fcc, 0x353fb0, 0x3573f8,
        0x35e040, 0x36a584, 0x371028, 0x374028, 0x378800, 0x37aac4, 0x37cadc, 0x37f930,
        0x381138, 0x396c68, 0x39da08, 0x3a19b4, 0x3a50b8, 0x3aba8c, 0x3b2cc8, 0x3b90f4,
        0x3be850, 0x3ca780, 0x3d8b40, 0x3db924, 0x3dd244, 0x3e0418, 0x3e300c, 0x3e702c,
        0x3ed52c, 0x3f6a10, 0x3fff5c, 0x4017c8, 0x413914, 0x414d54, 0x41592c, 0x41dc20,
        0x4229e8, 0x42f488, 0x432ca4, 0x43aff4,
    ]
}

/// An address belongs to a panel's code exactly if it lies in one of these.
pub proof fn law_panel_code(lr: u32)
    ensures
        in_panel_code(lr) <==> exists|i: int|
            0 <= i < code_begins().len() && #[trigger] code_begins()[i] <= lr < code_ends()[i],
        code_begins().len() == code_ends().len(),
{
    assert(UI43_CODE_STARTS@ =~= code_begins());
    assert(UI43_CODE_ENDS@ =~= code_ends());
    if in_panel_code(lr) {
        let i = choose|i: int|
            0 <= i < CODE_RANGE_COUNT && #[trigger] UI43_CODE_STARTS@[i] <= lr < UI43_CODE_ENDS@[i];
        assert(code_begins()[i] <= lr < code_ends()[i]);
    }
    if exists|i: int|
        0 <= i < code_begins().len() && #[trigger] code_begins()[i] <= lr < code_ends()[i] {
        let i = choose|i: int|
            0 <= i < code_begins().len() && #[trigger] code_begins()[i] <= lr < code_ends()[i];
        assert(UI43_CODE_STARTS@[i] <= lr < UI43_CODE_ENDS@[i]);
    }
}

/// These are classes of panels.
pub proof fn law_panel_classes()
    ensures
        is_panel_class("AcceptFriendsLayer"@),
        is_panel_class("AccountBindingLayer"@),
        is_panel_class("AchieveSystemLayer"@),
        is_panel_class("AchivementLayer"@),
        is_panel_class("ActionCenterLayer"@),
        is_panel_class("ActionCodeLayer"@),
        is_panel_class("ActionLevelLayer"@),
        is_panel_class("ActivityBulletinLayer"@),
        is_panel_class("ActivityCaribbeanBasePopLayer"@),
        is_panel_class("ActivityFlameWarsSelectLayer"@),
        is_panel_class("ActivityForecastLayer"@),
        is_panel_class("ActivityForecastSecondLayer"@),
        is_panel_class("ActivityHalloweenBasePopLayer"@),
        is_panel_class("ActivityXmasBasePopLayer"@),
        is_panel_class("Activity_Alice_BasePopLayer"@),
        is_panel_class("Activity_FlameWars_BasePopLayer"@),
        is_panel_class("Activity_FlameWars_MainLayer"@),
        is_panel_class("Activity_IceCream_BasePopLayer"@),
        is_panel_class("Activity_Shrek_BasePopLayer"@),
        is_panel_class("Activity_Totoro_BasePopLayer"@),
        is_panel_class("AnimalsRecyclerView"@),
        is_panel_class("AnniversaryMainLayer"@),
        is_panel_class("AnniversarySubLayer"@),
        is_panel_class("ApartmentView"@),
        is_panel_class("ApplyHongKongTourLayer"@),
        is_panel_class("AroundTheWorldMainLayer"@),
        is_panel_class("AutumnMainLayer"@),
        is_panel_class("AvatarLayer"@),
        is_panel_class("BugAchivement"@),
        is_panel_class("BugGame"@),
        is_panel_class("BugLevelBase"@),
        is_panel_class("BugLevelChoose"@),
        is_panel_class("CafeShopLayer"@),
        is_panel_class("CandyhouseLayer"@),
        is_panel_class("CaribbeanMainLayer"@),
        is_panel_class("ChangeRewardLayer"@),
        is_panel_class("ChooseVillageHelp"@),
        is_panel_class("ChooseVillageLayer"@),
        is_panel_class("ChoosingPagesMainLayer"@),
        is_panel_class("CommonChristmasFatherGiftLayer"@),
        is_panel_class("CropInfoView"@),
        is_panel_class("CrowPriestMessageLayer"@),
        is_panel_class("CustomerServiceLayer"@),
        is_panel_class("CutFruit"@),
        is_panel_class("CutFruitAchivement"@),
        is_panel_class("CutFruitLevelChoose"@),
        is_panel_class("DailyQuestLayer"@),
        is_panel_class("DailySignLayer"@),
        is_panel_class("DecorateRoomLayer"@),
        is_panel_class("DiscountInfoLayer"@),
        is_panel_class("DivineGame"@),
        is_panel_class("DriftBottleMessageLayer"@),
        is_panel_class("EasterEggGetRewardLayer"@),
        is_panel_class("EasterEggMainLayer"@),
        is_panel_class("ExchangeCenterLayer"@),
        is_panel_class("FinalRewardAnimation"@),
        is_panel_class("FirstChargeGiftsLayer"@),
        is_panel_class("FishingAchivement"@),
        is_panel_class("FishingGame"@),
        is_panel_class("FishingLevelChoose"@),
        is_panel_class("FlyKiteGetRewardLayer"@),
        is_panel_class("FlyKiteIntroductionsLayer"@),
        is_panel_class("FlyKiteMainLayer"@),
        is_panel_class("FriendsViewController"@),
        is_panel_class("FuncIntroLayer"@),
        is_panel_class("GameDataCompareLayer"@),
        is_panel_class("GamePlayGoView"@),
        is_panel_class("GetItemRewardFromHaiwangLayer"@),
        is_panel_class("GetLastRewardLayer"@),
        is_panel_class("GiftAndMessageLayer"@),
        is_panel_class("GiftLayer"@),
        is_panel_class("GiftViewLayer"@),
        is_panel_class("GoodsViewLayer"@),
        is_panel_class("GreenRiceBallMainLayer"@),
        is_panel_class("GreenhouseLayer"@),
        is_panel_class("GuessWorldCupMainLayer"@),
        is_panel_class("HalloweenMainLayer"@),
        is_panel_class("HelpLayer"@),
        is_panel_class("HelpQuestLayer"@),
        is_panel_class("HouseRecyclerView"@),
        is_panel_class("IceSummerMainLayer"@),
        is_panel_class("InviteFriendsLayer"@),
        is_panel_class("JunkShopLayer"@),
        is_panel_class("LeaveMessageLayer"@),
        is_panel_class("LeoAdvanceLayer"@),
        is_panel_class("Level1"@),
        is_panel_class("Level2"@),
        is_panel_class("Level3"@),
        is_panel_class("Level4"@),
        is_panel_class("LevelChooseLayer"@),
        is_panel_class("LevelUpLayer"@),
        is_panel_class("MagicNumberView"@),
        is_panel_class("MessageBox"@),
        is_panel_class("MessageBoxGift"@),
        is_panel_class("MessageViewController"@),
        is_panel_class("MessagesLayer"@),
        is_panel_class("MinerAchivement"@),
        is_panel_class("MinerGame"@),
        is_panel_class("MinerLevelChoose"@),
        is_panel_class("MiniBase"@),
        is_panel_class("MusicHallLayer"@),
        is_panel_class("NaramGetTodayRewardLayer"@),
        is_panel_class("NaramSpringIntroduceLayer"@),
        is_panel_class("NaramSpringMainLayer"@),
        is_panel_class("NewRewardsLayer"@),
        is_panel_class("NewSceneLevelUp"@),
        is_panel_class("NewSceneQuestLayer"@),
        is_panel_class("NewSceneStoryLayer"@),
        is_panel_class("NewSceneTestLayer"@),
        is_panel_class("NewStyleStoreItemsView"@),
        is_panel_class("NewStyleStoreMainLayer"@),
        is_panel_class("NewStyleStoreMenuView"@),
        is_panel_class("NoticeBoardLayer"@),
        is_panel_class("OpenTreasureChestMainLayer"@),
        is_panel_class("OptionLayer"@),
        is_panel_class("OscarDialogueLayer"@),
        is_panel_class("PaintingAchivement"@),
        is_panel_class("PaintingGame"@),
        is_panel_class("PaintingLevelChoose"@),
        is_panel_class("PaybackObjectsTableLayer"@),
        is_panel_class("PersonalTargetLayer"@),
        is_panel_class("Plow"@),
        is_panel_class("PlowAchivement"@),
        is_panel_class("PlowLevelChoose"@),
        is_panel_class("PopularItemsPKAdvanceLayer"@),
        is_panel_class("PopularItemsPKMainLayer"@),
        is_panel_class("PopularItemsPKVoteLayer"@),
        is_panel_class("PromoteSalesMainLayer"@),
        is_panel_class("PromoteShowItemsLayer"@),
        is_panel_class("QiXiAdvanceLayer"@),
        is_panel_class("QuestLayer"@),
        is_panel_class("QuestionnaireLayer"@),
        is_panel_class("ReceiveGiftLayer"@),
        is_panel_class("RegisterView"@),
        is_panel_class("RequestCodeLayer"@),
        is_panel_class("RestaurantView"@),
        is_panel_class("RewardLayer"@),
        is_panel_class("SeabedSeekingTreasureExchageRewardLayer"@),
        is_panel_class("SeabedSeekingTreasureMainLayer"@),
        is_panel_class("SeabedSeekingTreasureRuleLayer"@),
        is_panel_class("SealExchangeLayer"@),
        is_panel_class("SeekViewController"@),
        is_panel_class("ShopItemsLayer"@),
        is_panel_class("ShoppingView"@),
        is_panel_class("ShowActivityRuleLayer"@),
        is_panel_class("ShowFreeShellsLayer"@),
        is_panel_class("ShowMoreFriendsLayer"@),
        is_panel_class("ShowRuleLayer"@),
        is_panel_class("SpringPoemGetRewardLayer"@),
        is_panel_class("SpringPoemIntroduceLayer"@),
        is_panel_class("SpringPoemMainLayer"@),
        is_panel_class("SpringPoemPageLayer"@),
        is_panel_class("StoryLayer"@),
        is_panel_class("TeamTargetLayer"@),
        is_panel_class("TestLayer"@),
        is_panel_class("TimeQuestLayer"@),
        is_panel_class("TimeStoryLayer"@),
        is_panel_class("TourLineLayer"@),
        is_panel_class("TreasureHuntPopLayer"@),
        is_panel_class("TreasureRewardLayer"@),
        is_panel_class("VIPFunctionsLayer"@),
        is_panel_class("VIPLayer"@),
        is_panel_class("VerifyInviteCodeLayer"@),
        is_panel_class("VipQuestLayer"@),
        is_panel_class("VipStoryLayer"@),
        is_panel_class("WashRoomAchievement"@),
        is_panel_class("WashRoomGame"@),
        is_panel_class("WashRoomLevelChoose"@),
        is_panel_class("WaterTowerRewardView"@),
        is_panel_class("WiltWarningLayer"@),
        is_panel_class("XmasMainLayer"@),
{
    assert(UI43_OFFSET_CLASSES@[0]@ == "AcceptFriendsLayer"@);
    assert(UI43_OFFSET_CLASSES@[1]@ == "AccountBindingLayer"@);
    assert(UI43_OFFSET_CLASSES@[2]@ == "AchieveSystemLayer"@);
    assert(UI43_OFFSET_CLASSES@[3]@ == "AchivementLayer"@);
    assert(UI43_OFFSET_CLASSES@[4]@ == "ActionCenterLayer"@);
    assert(UI43_OFFSET_CLASSES@[5]@ == "ActionCodeLayer"@);
    assert(UI43_OFFSET_CLASSES@[6]@ == "ActionLevelLayer"@);
    assert(UI43_OFFSET_CLASSES@[7]@ == "ActivityBulletinLayer"@);
    assert(UI43_OFFSET_CLASSES@[8]@ == "ActivityCaribbeanBasePopLayer"@);
    assert(UI43_OFFSET_CLASSES@[9]@ == "ActivityFlameWarsSelectLayer"@);
    assert(UI43_OFFSET_CLASSES@[10]@ == "ActivityForecastLayer"@);
    assert(UI43_OFFSET_CLASSES@[11]@ == "ActivityForecastSecondLayer"@);
    assert(UI43_OFFSET_CLASSES@[12]@ == "ActivityHalloweenBasePopLayer"@);
    assert(UI43_OFFSET_CLASSES@[13]@ == "ActivityXmasBasePopLayer"@);
    assert(UI43_OFFSET_CLASSES@[14]@ == "Activity_Alice_BasePopLayer"@);
    assert(UI43_OFFSET_CLASSES@[15]@ == "Activity_FlameWars_BasePopLayer"@);
    assert(UI43_OFFSET_CLASSES@[16]@ == "Activity_FlameWars_MainLayer"@);
    assert(UI43_OFFSET_CLASSES@[17]@ == "Activity_IceCream_BasePopLayer"@);
    assert(UI43_OFFSET_CLASSES@[18]@ == "Activity_Shrek_BasePopLayer"@);
    assert(UI43_OFFSET_CLASSES@[19]@ == "Activity_Totoro_BasePopLayer"@);
    assert(UI43_OFFSET_CLASSES@[20]@ == "AnimalsRecyclerView"@);
    assert(UI43_OFFSET_CLASSES@[21]@ == "AnniversaryMainLayer"@);
    assert(UI43_OFFSET_CLASSES@[22]@ == "AnniversarySubLayer"@);
    assert(UI43_OFFSET_CLASSES@[23]@ == "ApartmentView"@);
    assert(UI43_OFFSET_CLASSES@[24]@ == "ApplyHongKongTourLayer"@);
    assert(UI43_OFFSET_CLASSES@[25]@ == "AroundTheWorldMainLayer"@);
    assert(UI43_OFFSET_CLASSES@[26]@ == "AutumnMainLayer"@);
    assert(UI43_OFFSET_CLASSES@[27]@ == "AvatarLayer"@);
    assert(UI43_OFFSET_CLASSES@[28]@ == "BugAchivement"@);
    assert(UI43_OFFSET_CLASSES@[29]@ == "BugGame"@);
    assert(UI43_OFFSET_CLASSES@[30]@ == "BugLevelBase"@);
    assert(UI43_OFFSET_CLASSES@[31]@ == "BugLevelChoose"@);
    assert(UI43_OFFSET_CLASSES@[32]@ == "CafeShopLayer"@);
    assert(UI43_OFFSET_CLASSES@[33]@ == "CandyhouseLayer"@);
    assert(UI43_OFFSET_CLASSES@[34]@ == "CaribbeanMainLayer"@);
    assert(UI43_OFFSET_CLASSES@[35]@ == "ChangeRewardLayer"@);
    assert(UI43_OFFSET_CLASSES@[36]@ == "ChooseVillageHelp"@);
    assert(UI43_OFFSET_CLASSES@[37]@ == "ChooseVillageLayer"@);
    assert(UI43_OFFSET_CLASSES@[38]@ == "ChoosingPagesMainLayer"@);
    assert(UI43_OFFSET_CLASSES@[39]@ == "CommonChristmasFatherGiftLayer"@);
    assert(UI43_OFFSET_CLASSES@[40]@ == "CropInfoView"@);
    assert(UI43_OFFSET_CLASSES@[41]@ == "CrowPriestMessageLayer"@);
    assert(UI43_OFFSET_CLASSES@[42]@ == "CustomerServiceLayer"@);
    assert(UI43_OFFSET_CLASSES@[43]@ == "CutFruit"@);
    assert(UI43_OFFSET_CLASSES@[44]@ == "CutFruitAchivement"@);
    assert(UI43_OFFSET_CLASSES@[45]@ == "CutFruitLevelChoose"@);
    assert(UI43_OFFSET_CLASSES@[46]@ == "DailyQuestLayer"@);
    assert(UI43_OFFSET_CLASSES@[47]@ == "DailySignLayer"@);
    assert(UI43_OFFSET_CLASSES@[48]@ == "DecorateRoomLayer"@);
    assert(UI43_OFFSET_CLASSES@[49]@ == "DiscountInfoLayer"@);
    assert(UI43_OFFSET_CLASSES@[50]@ == "DivineGame"@);
    assert(UI43_OFFSET_CLASSES@[51]@ == "DriftBottleMessageLayer"@);
    assert(UI43_OFFSET_CLASSES@[52]@ == "EasterEggGetRewardLayer"@);
    assert(UI43_OFFSET_CLASSES@[53]@ == "EasterEggMainLayer"@);
    assert(UI43_OFFSET_CLASSES@[54]@ == "ExchangeCenterLayer"@);
    assert(UI43_OFFSET_CLASSES@[55]@ == "FinalRewardAnimation"@);
    assert(UI43_OFFSET_CLASSES@[56]@ == "FirstChargeGiftsLayer"@);
    assert(UI43_OFFSET_CLASSES@[57]@ == "FishingAchivement"@);
    assert(UI43_OFFSET_CLASSES@[58]@ == "FishingGame"@);
    assert(UI43_OFFSET_CLASSES@[59]@ == "FishingLevelChoose"@);
    assert(UI43_OFFSET_CLASSES@[60]@ == "FlyKiteGetRewardLayer"@);
    assert(UI43_OFFSET_CLASSES@[61]@ == "FlyKiteIntroductionsLayer"@);
    assert(UI43_OFFSET_CLASSES@[62]@ == "FlyKiteMainLayer"@);
    assert(UI43_OFFSET_CLASSES@[63]@ == "FriendsViewController"@);
    assert(UI43_OFFSET_CLASSES@[64]@ == "FuncIntroLayer"@);
    assert(UI43_OFFSET_CLASSES@[65]@ == "GameDataCompareLayer"@);
    assert(UI43_OFFSET_CLASSES@[66]@ == "GamePlayGoView"@);
    assert(UI43_OFFSET_CLASSES@[67]@ == "GetItemRewardFromHaiwangLayer"@);
    assert(UI43_OFFSET_CLASSES@[68]@ == "GetLastRewardLayer"@);
    assert(UI43_OFFSET_CLASSES@[69]@ == "GiftAndMessageLayer"@);
    assert(UI43_OFFSET_CLASSES@[70]@ == "GiftLayer"@);
    assert(UI43_OFFSET_CLASSES@[71]@ == "GiftViewLayer"@);
    assert(UI43_OFFSET_CLASSES@[72]@ == "GoodsViewLayer"@);
    assert(UI43_OFFSET_CLASSES@[73]@ == "GreenRiceBallMainLayer"@);
    assert(UI43_OFFSET_CLASSES@[74]@ == "GreenhouseLayer"@);
    assert(UI43_OFFSET_CLASSES@[75]@ == "GuessWorldCupMainLayer"@);
    assert(UI43_OFFSET_CLASSES@[76]@ == "HalloweenMainLayer"@);
    assert(UI43_OFFSET_CLASSES@[77]@ == "HelpLayer"@);
    assert(UI43_OFFSET_CLASSES@[78]@ == "HelpQuestLayer"@);
    assert(UI43_OFFSET_CLASSES@[79]@ == "HouseRecyclerView"@);
    assert(UI43_OFFSET_CLASSES@[80]@ == "IceSummerMainLayer"@);
    assert(UI43_OFFSET_CLASSES@[81]@ == "InviteFriendsLayer"@);
    assert(UI43_OFFSET_CLASSES@[82]@ == "JunkShopLayer"@);
    assert(UI43_OFFSET_CLASSES@[83]@ == "LeaveMessageLayer"@);
    assert(UI43_OFFSET_CLASSES@[84]@ == "LeoAdvanceLayer"@);
    assert(UI43_OFFSET_CLASSES@[85]@ == "Level1"@);
    assert(UI43_OFFSET_CLASSES@[86]@ == "Level2"@);
    assert(UI43_OFFSET_CLASSES@[87]@ == "Level3"@);
    assert(UI43_OFFSET_CLASSES@[88]@ == "Level4"@);
    assert(UI43_OFFSET_CLASSES@[89]@ == "LevelChooseLayer"@);
    assert(UI43_OFFSET_CLASSES@[90]@ == "LevelUpLayer"@);
    assert(UI43_OFFSET_CLASSES@[91]@ == "MagicNumberView"@);
    assert(UI43_OFFSET_CLASSES@[92]@ == "MessageBox"@);
    assert(UI43_OFFSET_CLASSES@[93]@ == "MessageBoxGift"@);
    assert(UI43_OFFSET_CLASSES@[94]@ == "MessageViewController"@);
    assert(UI43_OFFSET_CLASSES@[95]@ == "MessagesLayer"@);
    assert(UI43_OFFSET_CLASSES@[96]@ == "MinerAchivement"@);
    assert(UI43_OFFSET_CLASSES@[97]@ == "MinerGame"@);
    assert(UI43_OFFSET_CLASSES@[98]@ == "MinerLevelChoose"@);
    assert(UI43_OFFSET_CLASSES@[99]@ == "MiniBase"@);
    assert(UI43_OFFSET_CLASSES@[100]@ == "MusicHallLayer"@);
    assert(UI43_OFFSET_CLASSES@[101]@ == "NaramGetTodayRewardLayer"@);
    assert(UI43_OFFSET_CLASSES@[102]@ == "NaramSpringIntroduceLayer"@);
    assert(UI43_OFFSET_CLASSES@[103]@ == "NaramSpringMainLayer"@);
    assert(UI43_OFFSET_CLASSES@[104]@ == "NewRewardsLayer"@);
    assert(UI43_OFFSET_CLASSES@[105]@ == "NewSceneLevelUp"@);
    assert(UI43_OFFSET_CLASSES@[106]@ == "NewSceneQuestLayer"@);
    assert(UI43_OFFSET_CLASSES@[107]@ == "NewSceneStoryLayer"@);
    assert(UI43_OFFSET_CLASSES@[108]@ == "NewSceneTestLayer"@);
    assert(UI43_OFFSET_CLASSES@[109]@ == "NewStyleStoreItemsView"@);
    assert(UI43_OFFSET_CLASSES@[110]@ == "NewStyleStoreMainLayer"@);
    assert(UI43_OFFSET_CLASSES@[111]@ == "NewStyleStoreMenuView"@);
    assert(UI43_OFFSET_CLASSES@[112]@ == "NoticeBoardLayer"@);
    assert(UI43_OFFSET_CLASSES@[113]@ == "OpenTreasureChestMainLayer"@);
    assert(UI43_OFFSET_CLASSES@[114]@ == "OptionLayer"@);
    assert(UI43_OFFSET_CLASSES@[115]@ == "OscarDialogueLayer"@);
    assert(UI43_OFFSET_CLASSES@[116]@ == "PaintingAchivement"@);
    assert(UI43_OFFSET_CLASSES@[117]@ == "PaintingGame"@);
    assert(UI43_OFFSET_CLASSES@[118]@ == "PaintingLevelChoose"@);
    assert(UI43_OFFSET_CLASSES@[119]@ == "PaybackObjectsTableLayer"@);
    assert(UI43_OFFSET_CLASSES@[120]@ == "PersonalTargetLayer"@);
    assert(UI43_OFFSET_CLASSES@[121]@ == "Plow"@);
    assert(UI43_OFFSET_CLASSES@[122]@ == "PlowAchivement"@);
    assert(UI43_OFFSET_CLASSES@[123]@ == "PlowLevelChoose"@);
    assert(UI43_OFFSET_CLASSES@[124]@ == "PopularItemsPKAdvanceLayer"@);
    assert(UI43_OFFSET_CLASSES@[125]@ == "PopularItemsPKMainLayer"@);
    assert(UI43_OFFSET_CLASSES@[126]@ == "PopularItemsPKVoteLayer"@);
    assert(UI43_OFFSET_CLASSES@[127]@ == "PromoteSalesMainLayer"@);
    assert(UI43_OFFSET_CLASSES@[128]@ == "PromoteShowItemsLayer"@);
    assert(UI43_OFFSET_CLASSES@[129]@ == "QiXiAdvanceLayer"@);
    assert(UI43_OFFSET_CLASSES@[130]@ == "QuestLayer"@);
    assert(UI43_OFFSET_CLASSES@[131]@ == "QuestionnaireLayer"@);
    assert(UI43_OFFSET_CLASSES@[132]@ == "ReceiveGiftLayer"@);
    assert(UI43_OFFSET_CLASSES@[133]@ == "RegisterView"@);
    assert(UI43_OFFSET_CLASSES@[134]@ == "RequestCodeLayer"@);
    assert(UI43_OFFSET_CLASSES@[135]@ == "RestaurantView"@);
    assert(UI43_OFFSET_CLASSES@[136]@ == "RewardLayer"@);
    assert(UI43_OFFSET_CLASSES@[137]@ == "SeabedSeekingTreasureExchageRewardLayer"@);
    assert(UI43_OFFSET_CLASSES@[138]@ == "SeabedSeekingTreasureMainLayer"@);
    assert(UI43_OFFSET_CLASSES@[139]@ == "SeabedSeekingTreasureRuleLayer"@);
    assert(UI43_OFFSET_CLASSES@[140]@ == "SealExchangeLayer"@);
    assert(UI43_OFFSET_CLASSES@[141]@ == "SeekViewController"@);
    assert(UI43_OFFSET_CLASSES@[142]@ == "ShopItemsLayer"@);
    assert(UI43_OFFSET_CLASSES@[143]@ == "ShoppingView"@);
    assert(UI43_OFFSET_CLASSES@[144]@ == "ShowActivityRuleLayer"@);
    assert(UI43_OFFSET_CLASSES@[145]@ == "ShowFreeShellsLayer"@);
    assert(UI43_OFFSET_CLASSES@[146]@ == "ShowMoreFriendsLayer"@);
    assert(UI43_OFFSET_CLASSES@[147]@ == "ShowRuleLayer"@);
    assert(UI43_OFFSET_CLASSES@[148]@ == "SpringPoemGetRewardLayer"@);
    assert(UI43_OFFSET_CLASSES@[149]@ == "SpringPoemIntroduceLayer"@);
    assert(UI43_OFFSET_CLASSES@[150]@ == "SpringPoemMainLayer"@);
    assert(UI43_OFFSET_CLASSES@[151]@ == "SpringPoemPageLayer"@);
    assert(UI43_OFFSET_CLASSES@[152]@ == "StoryLayer"@);
    assert(UI43_OFFSET_CLASSES@[153]@ == "TeamTargetLayer"@);
    assert(UI43_OFFSET_CLASSES@[154]@ == "TestLayer"@);
    assert(UI43_OFFSET_CLASSES@[155]@ == "TimeQuestLayer"@);
    assert(UI43_OFFSET_CLASSES@[156]@ == "TimeStoryLayer"@);
    assert(UI43_OFFSET_CLASSES@[157]@ == "TourLineLayer"@);
    assert(UI43_OFFSET_CLASSES@[158]@ == "TreasureHuntPopLayer"@);
    assert(UI43_OFFSET_CLASSES@[159]@ == "TreasureRewardLayer"@);
    assert(UI43_OFFSET_CLASSES@[160]@ == "VIPFunctionsLayer"@);
    assert(UI43_OFFSET_CLASSES@[161]@ == "VIPLayer"@);
    assert(UI43_OFFSET_CLASSES@[162]@ == "VerifyInviteCodeLayer"@);
    assert(UI43_OFFSET_CLASSES@[163]@ == "VipQuestLayer"@);
    assert(UI43_OFFSET_CLASSES@[164]@ == "VipStoryLayer"@);
    assert(UI43_OFFSET_CLASSES@[165]@ == "WashRoomAchievement"@);
    assert(UI43_OFFSET_CLASSES@[166]@ == "WashRoomGame"@);
    assert(UI43_OFFSET_CLASSES@[167]@ == "WashRoomLevelChoose"@);
    assert(UI43_OFFSET_CLASSES@[168]@ == "WaterTowerRewardView"@);
    assert(UI43_OFFSET_CLASSES@[169]@ == "WiltWarningLayer"@);
    assert(UI43_OFFSET_CLASSES@[170]@ == "XmasMainLayer"@);
}

/// No other class is one.
pub proof fn law_no_other_panel_classes(name: Seq<char>)
    requires
        name != "AcceptFriendsLayer"@,
        name != "AccountBindingLayer"@,
        name != "AchieveSystemLayer"@,
        name != "AchivementLayer"@,
        name != "ActionCenterLayer"@,
        name != "ActionCodeLayer"@,
        name != "ActionLevelLayer"@,
        name != "ActivityBulletinLayer"@,
        name != "ActivityCaribbeanBasePopLayer"@,
        name != "ActivityFlameWarsSelectLayer"@,
        name != "ActivityForecastLayer"@,
        name != "ActivityForecastSecondLayer"@,
        name != "ActivityHalloweenBasePopLayer"@,
        name != "ActivityXmasBasePopLayer"@,
        name != "Activity_Alice_BasePopLayer"@,
        name != "Activity_FlameWars_BasePopLayer"@,
        name != "Activity_FlameWars_MainLayer"@,
        name != "Activity_IceCream_BasePopLayer"@,
        name != "Activity_Shrek_BasePopLayer"@,
        name != "Activity_Totoro_BasePopLayer"@,
        name != "AnimalsRecyclerView"@,
        name != "AnniversaryMainLayer"@,
        name != "AnniversarySubLayer"@,
        name != "ApartmentView"@,
        name != "ApplyHongKongTourLayer"@,
        name != "AroundTheWorldMainLayer"@,
        name != "AutumnMainLayer"@,
        name != "AvatarLayer"@,
        name != "BugAchivement"@,
        name != "BugGame"@,
        name != "BugLevelBase"@,
        name != "BugLevelChoose"@,
        name != "CafeShopLayer"@,
        name != "CandyhouseLayer"@,
        name != "CaribbeanMainLayer"@,
        name != "ChangeRewardLayer"@,
        name != "ChooseVillageHelp"@,
        name != "ChooseVillageLayer"@,
        name != "ChoosingPagesMainLayer"@,
        name != "CommonChristmasFatherGiftLayer"@,
        name != "CropInfoView"@,
        name != "CrowPriestMessageLayer"@,
        name != "CustomerServiceLayer"@,
        name != "CutFruit"@,
        name != "CutFruitAchivement"@,
        name != "CutFruitLevelChoose"@,
        name != "DailyQuestLayer"@,
        name != "DailySignLayer"@,
        name != "DecorateRoomLayer"@,
        name != "DiscountInfoLayer"@,
        name != "DivineGame"@,
        name != "DriftBottleMessageLayer"@,
        name != "EasterEggGetRewardLayer"@,
        name != "EasterEggMainLayer"@,
        name != "ExchangeCenterLayer"@,
        name != "FinalRewardAnimation"@,
        name != "FirstChargeGiftsLayer"@,
        name != "FishingAchivement"@,
        name != "FishingGame"@,
        name != "FishingLevelChoose"@,
        name != "FlyKiteGetRewardLayer"@,
        name != "FlyKiteIntroductionsLayer"@,
        name != "FlyKiteMainLayer"@,
        name != "FriendsViewController"@,
        name != "FuncIntroLayer"@,
        name != "GameDataCompareLayer"@,
        name != "GamePlayGoView"@,
        name != "GetItemRewardFromHaiwangLayer"@,
        name != "GetLastRewardLayer"@,
        name != "GiftAndMessageLayer"@,
        name != "GiftLayer"@,
        name != "GiftViewLayer"@,
        name != "GoodsViewLayer"@,
        name != "GreenRiceBallMainLayer"@,
        name != "GreenhouseLayer"@,
        name != "GuessWorldCupMainLayer"@,
        name != "HalloweenMainLayer"@,
        name != "HelpLayer"@,
        name != "HelpQuestLayer"@,
        name != "HouseRecyclerView"@,
        name != "IceSummerMainLayer"@,
        name != "InviteFriendsLayer"@,
        name != "JunkShopLayer"@,
        name != "LeaveMessageLayer"@,
        name != "LeoAdvanceLayer"@,
        name != "Level1"@,
        name != "Level2"@,
        name != "Level3"@,
        name != "Level4"@,
        name != "LevelChooseLayer"@,
        name != "LevelUpLayer"@,
        name != "MagicNumberView"@,
        name != "MessageBox"@,
        name != "MessageBoxGift"@,
        name != "MessageViewController"@,
        name != "MessagesLayer"@,
        name != "MinerAchivement"@,
        name != "MinerGame"@,
        name != "MinerLevelChoose"@,
        name != "MiniBase"@,
        name != "MusicHallLayer"@,
        name != "NaramGetTodayRewardLayer"@,
        name != "NaramSpringIntroduceLayer"@,
        name != "NaramSpringMainLayer"@,
        name != "NewRewardsLayer"@,
        name != "NewSceneLevelUp"@,
        name != "NewSceneQuestLayer"@,
        name != "NewSceneStoryLayer"@,
        name != "NewSceneTestLayer"@,
        name != "NewStyleStoreItemsView"@,
        name != "NewStyleStoreMainLayer"@,
        name != "NewStyleStoreMenuView"@,
        name != "NoticeBoardLayer"@,
        name != "OpenTreasureChestMainLayer"@,
        name != "OptionLayer"@,
        name != "OscarDialogueLayer"@,
        name != "PaintingAchivement"@,
        name != "PaintingGame"@,
        name != "PaintingLevelChoose"@,
        name != "PaybackObjectsTableLayer"@,
        name != "PersonalTargetLayer"@,
        name != "Plow"@,
        name != "PlowAchivement"@,
        name != "PlowLevelChoose"@,
        name != "PopularItemsPKAdvanceLayer"@,
        name != "PopularItemsPKMainLayer"@,
        name != "PopularItemsPKVoteLayer"@,
        name != "PromoteSalesMainLayer"@,
        name != "PromoteShowItemsLayer"@,
        name != "QiXiAdvanceLayer"@,
        name != "QuestLayer"@,
        name != "QuestionnaireLayer"@,
        name != "ReceiveGiftLayer"@,
        name != "RegisterView"@,
        name != "RequestCodeLayer"@,
        name != "RestaurantView"@,
        name != "RewardLayer"@,
        name != "SeabedSeekingTreasureExchageRewardLayer"@,
        name != "SeabedSeekingTreasureMainLayer"@,
        name != "SeabedSeekingTreasureRuleLayer"@,
        name != "SealExchangeLayer"@,
        name != "SeekViewController"@,
        name != "ShopItemsLayer"@,
        name != "ShoppingView"@,
        name != "ShowActivityRuleLayer"@,
        name != "ShowFreeShellsLayer"@,
        name != "ShowMoreFriendsLayer"@,
        name != "ShowRuleLayer"@,
        name != "SpringPoemGetRewardLayer"@,
        name != "SpringPoemIntroduceLayer"@,
        name != "SpringPoemMainLayer"@,
        name != "SpringPoemPageLayer"@,
        name != "StoryLayer"@,
        name != "TeamTargetLayer"@,
        name != "TestLayer"@,
        name != "TimeQuestLayer"@,
        name != "TimeStoryLayer"@,
        name != "TourLineLayer"@,
        name != "TreasureHuntPopLayer"@,
        name != "TreasureRewardLayer"@,
        name != "VIPFunctionsLayer"@,
        name != "VIPLayer"@,
        name != "VerifyInviteCodeLayer"@,
        name != "VipQuestLayer"@,
        name != "VipStoryLayer"@,
        name != "WashRoomAchievement"@,
        name != "WashRoomGame"@,
        name != "WashRoomLevelChoose"@,
        name != "WaterTowerRewardView"@,
        name != "WiltWarningLayer"@,
        name != "XmasMainLayer"@,
    ensures
        !is_panel_class(name),
{
}

/// What tells the names of the selectors apart.
proof fn lemma_coordinate_names()
    ensures
        "dealloc"@.len() == 7,
        "position"@.len() == 8,
        "setPosition:"@.len() == 12 && "setPosition:"@[0] == 's',
        "frame"@.len() == 5,
        "setFrame:"@.len() == 9,
        "locationInView:"@.len() == 15,
        "previousLocationInView:"@.len() == 23,
        "convertToWorldSpace:"@.len() == 20,
        "convertToWorldSpaceAR:"@.len() == 22,
        "convertToNodeSpace:"@.len() == 19,
        "convertToNodeSpaceAR:"@.len() == 21,
        "convertToUI:"@.len() == 12 && "convertToUI:"@[0] == 'c',
{
    reveal_strlit("dealloc");
    reveal_strlit("position");
    reveal_strlit("setPosition:");
    reveal_strlit("frame");
    reveal_strlit("setFrame:");
    reveal_strlit("locationInView:");
    reveal_strlit("previousLocationInView:");
    reveal_strlit("convertToWorldSpace:");
    reveal_strlit("convertToWorldSpaceAR:");
    reveal_strlit("convertToNodeSpace:");
    reveal_strlit("convertToNodeSpaceAR:");
    reveal_strlit("convertToUI:");
}

/// Each selector about coordinates is known by its own names and no other.
pub proof fn law_names_of_coordinates(name: Seq<char>)
    ensures
        fast_sel_of(name) == FastSel::Dealloc <==> name == "dealloc"@,
        fast_sel_of(name) == FastSel::Position <==> name == "position"@,
        fast_sel_of(name) == FastSel::SetPosition <==> name == "setPosition:"@,
        fast_sel_of(name) == FastSel::Frame <==> name == "frame"@,
        fast_sel_of(name) == FastSel::SetFrame <==> name == "setFrame:"@,
        fast_sel_of(name) == FastSel::Location <==> name == "locationInView:"@ || name
            == "previousLocationInView:"@,
        fast_sel_of(name) == FastSel::ToWorld <==> name == "convertToWorldSpace:"@ || name
            == "convertToWorldSpaceAR:"@,
        fast_sel_of(name) == FastSel::ToNode <==> name == "convertToNodeSpace:"@ || name
            == "convertToNodeSpaceAR:"@ || name == "convertToUI:"@,
{
    lemma_coordinate_names();
}

/// How far panels are moved: a screen of up to 1024 points moves none; a wider
/// one by half of what it is wider, from a whole point on.
pub proof fn law_panels_are_centered(portrait_height: u32)
    requires
        portrait_height < 0x100_0000,
    ensures
        portrait_height <= 1024 ==> extra_width(portrait_height) == 0,
        portrait_height > 1024 ==> extra_width(portrait_height) == portrait_height - 1024,
        moves_panels(portrait_height) <==> portrait_height >= 1026,
{
}

/// Coordinates are translated for objects that were moved: what the game reads
/// is moved to the left by the extra halves, and what it writes to the right.
/// Places of touches and of nodes are translated only for the code of a panel,
/// and only once one was moved. The registers say which object is asked, with
/// which coordinates, and where the result goes.
pub proof fn law_coordinates_are_translated(
    roots: Seq<u32>,
    views: Seq<u32>,
    regs: FastRegs,
    extra: i64,
)
    requires
        0 <= extra,
    ensures
        ({
            let t = |sel: FastSel| translation(roots, views, sel, regs, extra);
            let panel = roots.len() > 0 && in_panel_code(regs.lr & 0xffff_fffe);
            let left = (-extra) as i64;
            &&& t(FastSel::Position) == if roots.contains(regs.r1) {
                FastStep::GetPosition { recv: regs.r1, into: regs.r0, halves: left }
            } else {
                FastStep::Pass
            }
            &&& t(FastSel::SetPosition) == if roots.contains(regs.r0) {
                FastStep::SetPosition { recv: regs.r0, x: regs.r2, y: regs.r3, halves: extra }
            } else {
                FastStep::Pass
            }
            &&& t(FastSel::Frame) == if views.contains(regs.r1) {
                FastStep::GetFrame { recv: regs.r1, into: regs.r0, halves: left }
            } else {
                FastStep::Pass
            }
            &&& t(FastSel::SetFrame) == if views.contains(regs.r0) {
                FastStep::SetFrame {
                    recv: regs.r0,
                    x: regs.r2,
                    y: regs.r3,
                    rest: regs.sp,
                    halves: extra,
                }
            } else {
                FastStep::Pass
            }
            &&& panel && regs.r3 != 0 ==> t(FastSel::Location) == (FastStep::Location {
                recv: regs.r1,
                view: regs.r3,
                into: regs.r0,
                halves: left,
            })
            &&& panel && regs.r3 == 0 ==> t(FastSel::Location) == (FastStep::Location {
                recv: regs.r1,
                view: regs.r3,
                into: regs.r0,
                halves: 0,
            })
            &&& panel ==> t(FastSel::ToWorld) == (FastStep::ToWorld {
                recv: regs.r1,
                x: regs.r3,
                y_at: regs.sp,
                into: regs.r0,
                halves: left,
            })
            &&& panel ==> t(FastSel::ToNode) == (FastStep::ToNode {
                recv: regs.r1,
                x: regs.r3,
                y_at: regs.sp,
                into: regs.r0,
                halves: extra,
            })
            &&& !panel ==> t(FastSel::Location) == FastStep::Pass && t(FastSel::ToWorld)
                == FastStep::Pass && t(FastSel::ToNode) == FastStep::Pass
            &&& t(FastSel::Dealloc) == FastStep::Pass && t(FastSel::Other) == FastStep::Pass
        }),
{
    let lr = regs.lr;
    assert(lr & !1u32 == lr & 0xffff_fffe) by (bit_vector);
}

/// Messages of the emulator itself, those of a thread that asks for true
/// positions, and all on a screen where panels are not moved, are left alone;
/// any other is translated by the extra width.
pub proof fn law_true_positions_can_be_asked_for(
    roots: Seq<u32>,
    views: Seq<u32>,
    sel: FastSel,
    from_host: bool,
    asking: bool,
    portrait_height: u32,
    regs: FastRegs,
)
    requires
        portrait_height < 0x100_0000,
    ensures
        ({
            let r = fast_reply(roots, views, sel, from_host, asking, portrait_height, regs);
            &&& from_host || asking || portrait_height < 1026 ==> r == FastStep::Pass
            &&& !from_host && !asking && portrait_height >= 1026 ==> r == translation(
                roots,
                views,
                sel,
                regs,
                (portrait_height - 1024) as i64,
            )
        }),
{
}

/// A panel that comes on screen where panels are moved is moved once, with its
/// children, unless it lies within one that was; its own background is extended
/// each time, unless it lies within another. Nothing else is moved.
pub proof fn law_panels_are_moved_once(
    roots: Seq<u32>,
    recv: u32,
    panel: bool,
    portrait_height: u32,
    ancestors: Seq<(u32, bool)>,
    color_layer: bool,
)
    requires
        portrait_height < 0x100_0000,
    ensures
        ({
            let p = enter_plan(roots, recv, panel, portrait_height, ancestors, color_layer);
            let concerned = panel && portrait_height >= 1026;
            let moved = roots.contains(recv);
            let within = has_moved_ancestor(roots, ancestors);
            &&& !concerned ==> !p.shift && !p.extend_background && !p.stretch_children
            &&& concerned && moved ==> !p.shift && !p.stretch_children && p.extend_background
                == color_layer
            &&& concerned && !moved && within ==> !p.shift && !p.stretch_children
                && !p.extend_background
            &&& concerned && !moved && !within ==> p.shift && p.stretch_children
                && p.extend_background == color_layer
        }),
        forall|i: int|
            0 <= i < ancestors.len() && i < 32 && (roots.contains((#[trigger] ancestors[i]).0)
                || ancestors[i].1) ==> has_moved_ancestor(roots, ancestors),
        (forall|i: int|
            0 <= i < ancestors.len() && i < 32 ==> !roots.contains((#[trigger] ancestors[i]).0)
                && !ancestors[i].1) ==> !has_moved_ancestor(roots, ancestors),
{
}

/// What is stretched: a picture or coloured layer that has no children, and is
/// neither a panel nor a text, by the first six classes above it. A child is
/// looked at where it is added to a panel that was moved, and a view where it
/// is added to the game's own, within the design, for the first time.
pub proof fn law_what_is_stretched(
    chain: Seq<String>,
    children: u32,
    roots: Seq<u32>,
    views: Seq<u32>,
    recv: u32,
    child: u32,
    portrait_height: u32,
    gl_view: bool,
    in_design: bool,
)
    requires
        portrait_height < 0x100_0000,
    ensures
        may_stretch(chain, children) <==> {
            &&& children == 0 && !is_panel(chain)
            &&& is_kind(chain, "CCSprite"@) || is_kind(chain, "CCLayerColor"@)
            &&& !is_kind(chain, "CCLabelTTF"@) && !is_kind(chain, "CCLabelBMFont"@) && !is_kind(
                chain,
                "CCLabelAtlas"@,
            )
        },
        forall|i: int|
            0 <= i < chain.len() && i < 6 && is_panel_class(#[trigger] chain[i]@) ==> is_panel(chain),
        (forall|i: int|
            0 <= i < chain.len() && i < 6 ==> !is_panel_class(#[trigger] chain[i]@)) ==> !is_panel(
            chain,
        ),
        takes_child(roots, recv, child, portrait_height) <==> child != 0 && roots.contains(recv)
            && portrait_height >= 1026,
        takes_subview(views, recv, child, portrait_height, gl_view, in_design) <==> child != 0
            && recv != 0 && !views.contains(child) && portrait_height >= 1026 && gl_view && in_design,
{
}

} // verus!
