//! Each name of the game stands for its own class or selector, and for no
//! other.

use vstd::prelude::*;
use crate::names::{class_of, message_of, sel_of, Class, Sel};

verus! {

/// What tells the names of the classes apart.
pub proof fn lemma_class_names()
    ensures
        "AsyncSocket"@.len() == 11 && "AsyncSocket"@[1] == 's',
        "Building"@.len() == 8 && "Building"@[0] == 'B',
        "Farm"@.len() == 4,
        "FlowerFarm"@.len() == 10 && "FlowerFarm"@[0] == 'F',
        "FruitFarm"@.len() == 9 && "FruitFarm"@[0] == 'F',
        "GameManager"@.len() == 11 && "GameManager"@[1] == 'a',
        "HolidayVillageLayer"@.len() == 19 && "HolidayVillageLayer"@[0] == 'H',
        "LoadingHoliday"@.len() == 14 && "LoadingHoliday"@[3] == 'd' && "LoadingHoliday"@[7] == 'H',
        "LoadingLayer"@.len() == 12 && "LoadingLayer"@[0] == 'L' && "LoadingLayer"@[8] == 'a',
        "MVPacketHeader"@.len() == 14 && "MVPacketHeader"@[3] == 'a' && "MVPacketHeader"@[7] == 't',
        "MainMenuScene"@.len() == 13 && "MainMenuScene"@[1] == 'a' && "MainMenuScene"@[8] == 'S',
        "NetworkManager"@.len() == 14 && "NetworkManager"@[3] == 'w' && "NetworkManager"@[7] == 'M',
        "NewSceneApartment"@.len() == 17 && "NewSceneApartment"@[0] == 'N',
        "SeabedSeekingTreasureMainLayer"@.len() == 30,
        "TMADataManager"@.len() == 14 && "TMADataManager"@[3] == 'D' && "TMADataManager"@[7] == 'M',
        "TMAHttpManager"@.len() == 14 && "TMAHttpManager"@[3] == 'H' && "TMAHttpManager"@[7] == 'M',
        "TMA_ASIFormDataRequest"@.len() == 22,
        "TMA_ASIHTTPRequest"@.len() == 18 && "TMA_ASIHTTPRequest"@[0] == 'T',
        "TMA_ASINetworkQueue"@.len() == 19 && "TMA_ASINetworkQueue"@[0] == 'T',
        "TMA_SSKeychain"@.len() == 14 && "TMA_SSKeychain"@[3] == '_' && "TMA_SSKeychain"@[7] == 'e',
        "TaomeeGetServerIpListManager"@.len() == 28,
        "TaomeeUserInfo"@.len() == 14 && "TaomeeUserInfo"@[3] == 'm' && "TaomeeUserInfo"@[7] == 's',
        "UserInfoData"@.len() == 12 && "UserInfoData"@[0] == 'U' && "UserInfoData"@[8] == 'D',
        "AchievementControl"@.len() == 18 && "AchievementControl"@[0] == 'A',
        "AchievementItems"@.len() == 16 && "AchievementItems"@[0] == 'A',
        "AvatarLayer"@.len() == 11 && "AvatarLayer"@[1] == 'v',
        "DecorateRoomLayer"@.len() == 17 && "DecorateRoomLayer"@[0] == 'D',
        "FishingGame"@.len() == 11 && "FishingGame"@[1] == 'i',
        "GameData"@.len() == 8 && "GameData"@[0] == 'G',
        "MCNpcActor"@.len() == 10 && "MCNpcActor"@[0] == 'M',
        "MinerGame"@.len() == 9 && "MinerGame"@[0] == 'M',
        "MusicHallLayer"@.len() == 14 && "MusicHallLayer"@[3] == 'i' && "MusicHallLayer"@[7] == 'l',
        "NewGameManager"@.len() == 14 && "NewGameManager"@[3] == 'G' && "NewGameManager"@[7] == 'M',
        "NewSceneAchievement"@.len() == 19 && "NewSceneAchievement"@[0] == 'N',
        "NewSceneData"@.len() == 12 && "NewSceneData"@[0] == 'N' && "NewSceneData"@[8] == 'D',
        "NewScenePorter"@.len() == 14 && "NewScenePorter"@[3] == 'S' && "NewScenePorter"@[7] == 'e',
        "NewSceneRestaurant"@.len() == 18 && "NewSceneRestaurant"@[0] == 'N',
        "NewSceneUserInfoData"@.len() == 20 && "NewSceneUserInfoData"@[2] == 'w',
        "ObjectManager"@.len() == 13 && "ObjectManager"@[1] == 'b' && "ObjectManager"@[8] == 'n',
        "Quest"@.len() == 5,
        "SystemTimeCheck"@.len() == 15 && "SystemTimeCheck"@[0] == 'S',
        "TimeQuest"@.len() == 9 && "TimeQuest"@[0] == 'T',
        "UserInfoLayer"@.len() == 13 && "UserInfoLayer"@[1] == 's' && "UserInfoLayer"@[8] == 'L',
        "UserVIPInfoData"@.len() == 15 && "UserVIPInfoData"@[0] == 'U',
        "WrapperManager"@.len() == 14 && "WrapperManager"@[3] == 'p' && "WrapperManager"@[7] == 'M',
        "YaliNpcActor"@.len() == 12 && "YaliNpcActor"@[0] == 'Y' && "YaliNpcActor"@[8] == 'c',
        "iMoleVillageAppDelegate"@.len() == 23,
        "ShowAdwallBoardLayer"@.len() == 20 && "ShowAdwallBoardLayer"@[2] == 'o',
        "AutoPopZhongXinLayer"@.len() == 20 && "AutoPopZhongXinLayer"@[2] == 't',
        "GameDataCompareLayer"@.len() == 20 && "GameDataCompareLayer"@[2] == 'm',
        "VillageMenuLayer"@.len() == 16 && "VillageMenuLayer"@[0] == 'V',
        "SharedInterfaceLayer"@.len() == 20 && "SharedInterfaceLayer"@[2] == 'a',
        "WashRoomLevelChoose"@.len() == 19 && "WashRoomLevelChoose"@[0] == 'W',
        "AdViewForMoleCart"@.len() == 17 && "AdViewForMoleCart"@[0] == 'A',
        "LoadingManager"@.len() == 14 && "LoadingManager"@[3] == 'd' && "LoadingManager"@[7] == 'M',
        "SceneMannager"@.len() == 13 && "SceneMannager"@[1] == 'c' && "SceneMannager"@[8] == 'n',
        "Porter"@.len() == 6 && "Porter"@[0] == 'P',
        "NewSceneTimer"@.len() == 13 && "NewSceneTimer"@[1] == 'e' && "NewSceneTimer"@[8] == 'T',
        "NewSceneQuest"@.len() == 13 && "NewSceneQuest"@[1] == 'e' && "NewSceneQuest"@[8] == 'Q',
        "DailyQuest"@.len() == 10 && "DailyQuest"@[0] == 'D',
        "VipQuest"@.len() == 8 && "VipQuest"@[0] == 'V',
        "NewSceneShop"@.len() == 12 && "NewSceneShop"@[0] == 'N' && "NewSceneShop"@[8] == 'S',
        "Bridge"@.len() == 6 && "Bridge"@[0] == 'B',
        "Ladder"@.len() == 6 && "Ladder"@[0] == 'L',
        "SpacialObject"@.len() == 13 && "SpacialObject"@[1] == 'p' && "SpacialObject"@[8] == 'b',
        "YellowDuck"@.len() == 10 && "YellowDuck"@[0] == 'Y',
{
    reveal_strlit("AsyncSocket");
    reveal_strlit("Building");
    reveal_strlit("Farm");
    reveal_strlit("FlowerFarm");
    reveal_strlit("FruitFarm");
    reveal_strlit("GameManager");
    reveal_strlit("HolidayVillageLayer");
    reveal_strlit("LoadingHoliday");
    reveal_strlit("LoadingLayer");
    reveal_strlit("MVPacketHeader");
    reveal_strlit("MainMenuScene");
    reveal_strlit("NetworkManager");
    reveal_strlit("NewSceneApartment");
    reveal_strlit("SeabedSeekingTreasureMainLayer");
    reveal_strlit("TMADataManager");
    reveal_strlit("TMAHttpManager");
    reveal_strlit("TMA_ASIFormDataRequest");
    reveal_strlit("TMA_ASIHTTPRequest");
    reveal_strlit("TMA_ASINetworkQueue");
    reveal_strlit("TMA_SSKeychain");
    reveal_strlit("TaomeeGetServerIpListManager");
    reveal_strlit("TaomeeUserInfo");
    reveal_strlit("UserInfoData");
    reveal_strlit("AchievementControl");
    reveal_strlit("AchievementItems");
    reveal_strlit("AvatarLayer");
    reveal_strlit("DecorateRoomLayer");
    reveal_strlit("FishingGame");
    reveal_strlit("GameData");
    reveal_strlit("MCNpcActor");
    reveal_strlit("MinerGame");
    reveal_strlit("MusicHallLayer");
    reveal_strlit("NewGameManager");
    reveal_strlit("NewSceneAchievement");
    reveal_strlit("NewSceneData");
    reveal_strlit("NewScenePorter");
    reveal_strlit("NewSceneRestaurant");
    reveal_strlit("NewSceneUserInfoData");
    reveal_strlit("ObjectManager");
    reveal_strlit("Quest");
    reveal_strlit("SystemTimeCheck");
    reveal_strlit("TimeQuest");
    reveal_strlit("UserInfoLayer");
    reveal_strlit("UserVIPInfoData");
    reveal_strlit("WrapperManager");
    reveal_strlit("YaliNpcActor");
    reveal_strlit("iMoleVillageAppDelegate");
    reveal_strlit("ShowAdwallBoardLayer");
    reveal_strlit("AutoPopZhongXinLayer");
    reveal_strlit("GameDataCompareLayer");
    reveal_strlit("VillageMenuLayer");
    reveal_strlit("SharedInterfaceLayer");
    reveal_strlit("WashRoomLevelChoose");
    reveal_strlit("AdViewForMoleCart");
    reveal_strlit("LoadingManager");
    reveal_strlit("SceneMannager");
    reveal_strlit("Porter");
    reveal_strlit("NewSceneTimer");
    reveal_strlit("NewSceneQuest");
    reveal_strlit("DailyQuest");
    reveal_strlit("VipQuest");
    reveal_strlit("NewSceneShop");
    reveal_strlit("Bridge");
    reveal_strlit("Ladder");
    reveal_strlit("SpacialObject");
    reveal_strlit("YellowDuck");
}

/// Each class is known by its own name and no other.
pub proof fn law_class_names(name: Seq<char>)
    ensures
        class_of(name) == Class::AsyncSocket <==> name == "AsyncSocket"@,
        class_of(name) == Class::Building <==> name == "Building"@,
        class_of(name) == Class::Farm <==> name == "Farm"@,
        class_of(name) == Class::FlowerFarm <==> name == "FlowerFarm"@,
        class_of(name) == Class::FruitFarm <==> name == "FruitFarm"@,
        class_of(name) == Class::GameManager <==> name == "GameManager"@,
        class_of(name) == Class::HolidayVillageLayer <==> name == "HolidayVillageLayer"@,
        class_of(name) == Class::LoadingHoliday <==> name == "LoadingHoliday"@,
        class_of(name) == Class::LoadingLayer <==> name == "LoadingLayer"@,
        class_of(name) == Class::MVPacketHeader <==> name == "MVPacketHeader"@,
        class_of(name) == Class::MainMenuScene <==> name == "MainMenuScene"@,
        class_of(name) == Class::NetworkManager <==> name == "NetworkManager"@,
        class_of(name) == Class::NewSceneApartment <==> name == "NewSceneApartment"@,
        class_of(name) == Class::SeabedSeekingTreasureMainLayer <==> name == "SeabedSeekingTreasureMainLayer"@,
        class_of(name) == Class::TMADataManager <==> name == "TMADataManager"@,
        class_of(name) == Class::TMAHttpManager <==> name == "TMAHttpManager"@,
        class_of(name) == Class::TMAASIFormDataRequest <==> name == "TMA_ASIFormDataRequest"@,
        class_of(name) == Class::TMAASIHTTPRequest <==> name == "TMA_ASIHTTPRequest"@,
        class_of(name) == Class::TMAASINetworkQueue <==> name == "TMA_ASINetworkQueue"@,
        class_of(name) == Class::TMASSKeychain <==> name == "TMA_SSKeychain"@,
        class_of(name) == Class::TaomeeGetServerIpListManager <==> name == "TaomeeGetServerIpListManager"@,
        class_of(name) == Class::TaomeeUserInfo <==> name == "TaomeeUserInfo"@,
        class_of(name) == Class::UserInfoData <==> name == "UserInfoData"@,
        class_of(name) == Class::AchievementControl <==> name == "AchievementControl"@,
        class_of(name) == Class::AchievementItems <==> name == "AchievementItems"@,
        class_of(name) == Class::AvatarLayer <==> name == "AvatarLayer"@,
        class_of(name) == Class::DecorateRoomLayer <==> name == "DecorateRoomLayer"@,
        class_of(name) == Class::FishingGame <==> name == "FishingGame"@,
        class_of(name) == Class::GameData <==> name == "GameData"@,
        class_of(name) == Class::MCNpcActor <==> name == "MCNpcActor"@,
        class_of(name) == Class::MinerGame <==> name == "MinerGame"@,
        class_of(name) == Class::MusicHallLayer <==> name == "MusicHallLayer"@,
        class_of(name) == Class::NewGameManager <==> name == "NewGameManager"@,
        class_of(name) == Class::NewSceneAchievement <==> name == "NewSceneAchievement"@,
        class_of(name) == Class::NewSceneData <==> name == "NewSceneData"@,
        class_of(name) == Class::NewScenePorter <==> name == "NewScenePorter"@,
        class_of(name) == Class::NewSceneRestaurant <==> name == "NewSceneRestaurant"@,
        class_of(name) == Class::NewSceneUserInfoData <==> name == "NewSceneUserInfoData"@,
        class_of(name) == Class::ObjectManager <==> name == "ObjectManager"@,
        class_of(name) == Class::Quest <==> name == "Quest"@,
        class_of(name) == Class::SystemTimeCheck <==> name == "SystemTimeCheck"@,
        class_of(name) == Class::TimeQuest <==> name == "TimeQuest"@,
        class_of(name) == Class::UserInfoLayer <==> name == "UserInfoLayer"@,
        class_of(name) == Class::UserVIPInfoData <==> name == "UserVIPInfoData"@,
        class_of(name) == Class::WrapperManager <==> name == "WrapperManager"@,
        class_of(name) == Class::YaliNpcActor <==> name == "YaliNpcActor"@,
        class_of(name) == Class::IMoleVillageAppDelegate <==> name == "iMoleVillageAppDelegate"@,
        class_of(name) == Class::ShowAdwallBoardLayer <==> name == "ShowAdwallBoardLayer"@,
        class_of(name) == Class::AutoPopZhongXinLayer <==> name == "AutoPopZhongXinLayer"@,
        class_of(name) == Class::GameDataCompareLayer <==> name == "GameDataCompareLayer"@,
        class_of(name) == Class::VillageMenuLayer <==> name == "VillageMenuLayer"@,
        class_of(name) == Class::SharedInterfaceLayer <==> name == "SharedInterfaceLayer"@,
        class_of(name) == Class::WashRoomLevelChoose <==> name == "WashRoomLevelChoose"@,
        class_of(name) == Class::AdViewForMoleCart <==> name == "AdViewForMoleCart"@,
        class_of(name) == Class::LoadingManager <==> name == "LoadingManager"@,
        class_of(name) == Class::SceneMannager <==> name == "SceneMannager"@,
        class_of(name) == Class::Porter <==> name == "Porter"@,
        class_of(name) == Class::NewSceneTimer <==> name == "NewSceneTimer"@,
        class_of(name) == Class::NewSceneQuest <==> name == "NewSceneQuest"@,
        class_of(name) == Class::DailyQuest <==> name == "DailyQuest"@,
        class_of(name) == Class::VipQuest <==> name == "VipQuest"@,
        class_of(name) == Class::NewSceneShop <==> name == "NewSceneShop"@,
        class_of(name) == Class::Bridge <==> name == "Bridge"@,
        class_of(name) == Class::Ladder <==> name == "Ladder"@,
        class_of(name) == Class::SpacialObject <==> name == "SpacialObject"@,
        class_of(name) == Class::YellowDuck <==> name == "YellowDuck"@,
{
    lemma_class_names();
}

/// What tells the names of the selectors apart.
pub proof fn lemma_selector_names()
    ensures
        "drawScene"@.len() == 9 && "drawScene"@[1] == 'r',
        "mainLoop"@.len() == 8 && "mainLoop"@[2] == 'i' && "mainLoop"@[0] == 'm',
        "moleHudTick"@.len() == 11 && "moleHudTick"@[4] == 'H',
        "showWithTarget:"@.len() == 15 && "showWithTarget:"@[0] == 's',
        "showWithTarget:selector:"@.len() == 24 && "showWithTarget:selector:"@[0] == 's',
        "checkPromptForLoadingNewApp"@.len() == 27,
        "showMoreGameOnRootView:withScale:andOrientationSupported:"@.len() == 57 && "showMoreGameOnRootView:withScale:andOrientationSupported:"@[0] == 's',
        "showMoreGameOnRootView:withScale:"@.len() == 33 && "showMoreGameOnRootView:withScale:"@[0] == 's',
        "showMoreGameWithScale:andOrientationSupported:"@.len() == 46,
        "showMoreGameWithScale:"@.len() == 22 && "showMoreGameWithScale:"@[0] == 's',
        "showMoreGameWithUrl:"@.len() == 20 && "showMoreGameWithUrl:"@[9] == 'a',
        "onServerListResult:"@.len() == 19 && "onServerListResult:"@[8] == 'L',
        "showAccountManagerViewWithDelegate:andUserID:"@.len() == 45,
        "enterLoadingWithDelegate:nextSceneId:"@.len() == 37,
        "loadNewScene:"@.len() == 13 && "loadNewScene:"@[3] == 'd',
        "gobackMainVillage"@.len() == 17 && "gobackMainVillage"@[12] == 'l',
        "deleteObjectFromServer:"@.len() == 23 && "deleteObjectFromServer:"@[0] == 'd',
        "startNewSceneFrom:toScene:"@.len() == 26 && "startNewSceneFrom:toScene:"@[3] == 'r',
        "moleIslandTick"@.len() == 14 && "moleIslandTick"@[4] == 'I',
        "getCurrentServerTime"@.len() == 20 && "getCurrentServerTime"@[9] == 't',
        "enterNewIslands"@.len() == 15 && "enterNewIslands"@[0] == 'e',
        "getAllObjectsListFromServerWithStartId:"@.len() == 39,
        "getMatureTime"@.len() == 13 && "getMatureTime"@[3] == 'M',
        "isReachable"@.len() == 11 && "isReachable"@[4] == 'a',
        "sendPacket:commandId:"@.len() == 21 && "sendPacket:commandId:"@[3] == 'd',
        "sendAllBufferDatas"@.len() == 18 && "sendAllBufferDatas"@[0] == 's',
        "sendAllBuffDataInNewSceneLoading"@.len() == 32,
        "generateRandomRewardId"@.len() == 22 && "generateRandomRewardId"@[0] == 'g',
        "onTaomeeLoginViewDidUnloadWithUserID:password:returnCode:"@.len() == 57 && "onTaomeeLoginViewDidUnloadWithUserID:password:returnCode:"@[0] == 'o',
        "curSceneId"@.len() == 10 && "curSceneId"@[0] == 'c',
        "winSize"@.len() == 7 && "winSize"@[0] == 'w',
        "onEnter"@.len() == 7 && "onEnter"@[0] == 'o',
        "addChild:"@.len() == 9 && "addChild:"@[1] == 'd',
        "addChild:z:"@.len() == 11 && "addChild:z:"@[4] == 'h',
        "addChild:z:tag:"@.len() == 15 && "addChild:z:tag:"@[0] == 'a',
        "addSubview:"@.len() == 11 && "addSubview:"@[4] == 'u',
        "CheckUserInfoData:"@.len() == 18 && "CheckUserInfoData:"@[0] == 'C',
        "addAdventureMapFragment:"@.len() == 24 && "addAdventureMapFragment:"@[0] == 'a',
        "addGold:"@.len() == 8 && "addGold:"@[2] == 'd' && "addGold:"@[0] == 'a',
        "addObjectToServer:"@.len() == 18 && "addObjectToServer:"@[0] == 'a',
        "addOperation:"@.len() == 13 && "addOperation:"@[3] == 'O',
        "addVipGold:"@.len() == 11 && "addVipGold:"@[4] == 'i',
        "addXp:"@.len() == 6 && "addXp:"@[0] == 'a',
        "alertView:didDismissWithButtonIndex:"@.len() == 36 && "alertView:didDismissWithButtonIndex:"@[0] == 'a',
        "allAccounts"@.len() == 11 && "allAccounts"@[4] == 'c',
        "applicationWillResignActive:"@.len() == 28 && "applicationWillResignActive:"@[0] == 'a',
        "applicationWillTerminate:"@.len() == 25 && "applicationWillTerminate:"@[2] == 'p',
        "autoLoginWithUserID:"@.len() == 20 && "autoLoginWithUserID:"@[9] == 'W',
        "availableWorkers"@.len() == 16 && "availableWorkers"@[0] == 'a',
        "changeStateTo:withMessage:"@.len() == 26 && "changeStateTo:withMessage:"@[3] == 'n',
        "check"@.len() == 5 && "check"@[3] == 'c',
        "checkBeyoundLeftCircleBeach:"@.len() == 28 && "checkBeyoundLeftCircleBeach:"@[0] == 'c',
        "checkCooltimeOver"@.len() == 17 && "checkCooltimeOver"@[12] == 'e',
        "checkInAlreadyUnlockList:"@.len() == 25 && "checkInAlreadyUnlockList:"@[2] == 'e',
        "checkIsUnlockMusic:"@.len() == 19 && "checkIsUnlockMusic:"@[8] == 'n',
        "checkIsVipUser"@.len() == 14 && "checkIsVipUser"@[4] == 'k',
        "checkRequiredVipLevel:"@.len() == 22 && "checkRequiredVipLevel:"@[0] == 'c',
        "checkUserinfoMd5:"@.len() == 17 && "checkUserinfoMd5:"@[12] == 'o',
        "compareRemoteGameDataWithLocalOne"@.len() == 33 && "compareRemoteGameDataWithLocalOne"@[0] == 'c',
        "cropWitherHandler:"@.len() == 18 && "cropWitherHandler:"@[0] == 'c',
        "curLevel"@.len() == 8 && "curLevel"@[2] == 'r' && "curLevel"@[0] == 'c',
        "currentGameMode"@.len() == 15 && "currentGameMode"@[0] == 'c',
        "establishConnection"@.len() == 19 && "establishConnection"@[8] == 'h',
        "gainCoin"@.len() == 8 && "gainCoin"@[2] == 'i' && "gainCoin"@[0] == 'g',
        "gainXP"@.len() == 6 && "gainXP"@[0] == 'g',
        "gameMode"@.len() == 8 && "gameMode"@[2] == 'm' && "gameMode"@[0] == 'g',
        "getBuildTime:"@.len() == 13 && "getBuildTime:"@[3] == 'B',
        "getCurLevelCoolTime"@.len() == 19 && "getCurLevelCoolTime"@[8] == 'v',
        "getCurLevelCooltime:"@.len() == 20 && "getCurLevelCooltime:"@[9] == 'e',
        "getDictionaryWithJsonData:"@.len() == 26 && "getDictionaryWithJsonData:"@[3] == 'D',
        "getGoldSpeedUpObjectMultiple"@.len() == 28 && "getGoldSpeedUpObjectMultiple"@[0] == 'g',
        "getLastCooldownTime"@.len() == 19 && "getLastCooldownTime"@[8] == 'o',
        "getLastGameCoolTime"@.len() == 19 && "getLastGameCoolTime"@[8] == 'a',
        "getLevel"@.len() == 8 && "getLevel"@[2] == 't' && "getLevel"@[0] == 'g',
        "getLockType4Crop:"@.len() == 17 && "getLockType4Crop:"@[12] == 'C',
        "getLockType4CropWithId:"@.len() == 23 && "getLockType4CropWithId:"@[0] == 'g',
        "getLockType4Decorate:"@.len() == 21 && "getLockType4Decorate:"@[3] == 'L',
        "getLockType4Gift:"@.len() == 17 && "getLockType4Gift:"@[12] == 'G',
        "getLockType4Object:"@.len() == 19 && "getLockType4Object:"@[8] == 'y',
        "getLockType4ShopItem:shop:"@.len() == 26 && "getLockType4ShopItem:shop:"@[3] == 'L',
        "getOutCoolTime"@.len() == 14 && "getOutCoolTime"@[4] == 'u',
        "getServerListWithServiceName:andDelegate:"@.len() == 41 && "getServerListWithServiceName:andDelegate:"@[0] == 'g',
        "getWitherTime"@.len() == 13 && "getWitherTime"@[3] == 'W',
        "getXPSpeedUpObjectMultiple"@.len() == 26 && "getXPSpeedUpObjectMultiple"@[3] == 'X',
        "inRectOfAquaticAreaOrNot:"@.len() == 25 && "inRectOfAquaticAreaOrNot:"@[2] == 'R',
        "innerupdate:"@.len() == 12 && "innerupdate:"@[3] == 'e',
        "isConnected"@.len() == 11 && "isConnected"@[4] == 'n',
        "isHackData"@.len() == 10 && "isHackData"@[0] == 'i',
        "isNetworkReachable"@.len() == 18 && "isNetworkReachable"@[0] == 'i',
        "isShowVIPFunctionsButton:"@.len() == 25 && "isShowVIPFunctionsButton:"@[2] == 'S',
        "isUnlockedItem:"@.len() == 15 && "isUnlockedItem:"@[0] == 'i',
        "loadUserInfoData"@.len() == 16 && "loadUserInfoData"@[0] == 'l',
        "loginWithDeviceInfoAndUserIDInfoInSendType:"@.len() == 43,
        "mapExtend"@.len() == 9 && "mapExtend"@[1] == 'a',
        "moleUpperLimit"@.len() == 14 && "moleUpperLimit"@[4] == 'U',
        "onButtonChangeIDSelected:"@.len() == 25 && "onButtonChangeIDSelected:"@[2] == 'B',
        "onLoginMainMenuCommandReceived:"@.len() == 31,
        "onSharedToSinaWeibo"@.len() == 19 && "onSharedToSinaWeibo"@[8] == 'T',
        "onSharedToSinaWeiboGetShareReward"@.len() == 33 && "onSharedToSinaWeiboGetShareReward"@[0] == 'o',
        "open"@.len() == 4,
        "responseData"@.len() == 12 && "responseData"@[3] == 'p',
        "saveUserinfoToLocal"@.len() == 19 && "saveUserinfoToLocal"@[8] == 'i',
        "sendRequest:"@.len() == 12 && "sendRequest:"@[3] == 'd',
        "setCurrentProduceMoleNums:"@.len() == 26 && "setCurrentProduceMoleNums:"@[3] == 'C',
        "setMapFragments:"@.len() == 16 && "setMapFragments:"@[0] == 's',
        "setModObjectToServer:"@.len() == 21 && "setModObjectToServer:"@[3] == 'M',
        "setSocketFromStreamsAndReturnError:"@.len() == 35,
        "setUserID:"@.len() == 10 && "setUserID:"@[0] == 's',
        "shellsNeeded"@.len() == 12 && "shellsNeeded"@[3] == 'l',
        "showCheatWarningMessage"@.len() == 23 && "showCheatWarningMessage"@[0] == 's',
        "showLayer"@.len() == 9 && "showLayer"@[1] == 'h',
        "showMultiLoginErrorMessageInNewScene"@.len() == 36 && "showMultiLoginErrorMessageInNewScene"@[0] == 's',
        "showNetConnectErrorMessageWithRetryButton"@.len() == 41 && "showNetConnectErrorMessageWithRetryButton"@[0] == 's',
        "showNoNetConnectErrorMessage"@.len() == 28 && "showNoNetConnectErrorMessage"@[0] == 's',
        "start"@.len() == 5 && "start"@[3] == 'r',
        "startGame"@.len() == 9 && "startGame"@[1] == 't',
        "state"@.len() == 5 && "state"@[3] == 't',
        "taomeePassword"@.len() == 14 && "taomeePassword"@[4] == 'e',
        "totalRooms"@.len() == 10 && "totalRooms"@[0] == 't',
        "totalWorkers"@.len() == 12 && "totalWorkers"@[3] == 'a',
        "unlocked:"@.len() == 9 && "unlocked:"@[1] == 'n',
        "update:"@.len() == 7 && "update:"@[0] == 'u',
        "updateGameDateForEnterNewSceneWithTarget:andCallback:"@.len() == 53,
        "updateLoading:"@.len() == 14 && "updateLoading:"@[4] == 't',
        "vipLevelWithNewType"@.len() == 19 && "vipLevelWithNewType"@[8] == 'W',
        "vipValue"@.len() == 8 && "vipValue"@[2] == 'p' && "vipValue"@[0] == 'v',
{
    reveal_strlit("drawScene");
    reveal_strlit("mainLoop");
    reveal_strlit("moleHudTick");
    reveal_strlit("showWithTarget:");
    reveal_strlit("showWithTarget:selector:");
    reveal_strlit("checkPromptForLoadingNewApp");
    reveal_strlit("showMoreGameOnRootView:withScale:andOrientationSupported:");
    reveal_strlit("showMoreGameOnRootView:withScale:");
    reveal_strlit("showMoreGameWithScale:andOrientationSupported:");
    reveal_strlit("showMoreGameWithScale:");
    reveal_strlit("showMoreGameWithUrl:");
    reveal_strlit("onServerListResult:");
    reveal_strlit("showAccountManagerViewWithDelegate:andUserID:");
    reveal_strlit("enterLoadingWithDelegate:nextSceneId:");
    reveal_strlit("loadNewScene:");
    reveal_strlit("gobackMainVillage");
    reveal_strlit("deleteObjectFromServer:");
    reveal_strlit("startNewSceneFrom:toScene:");
    reveal_strlit("moleIslandTick");
    reveal_strlit("getCurrentServerTime");
    reveal_strlit("enterNewIslands");
    reveal_strlit("getAllObjectsListFromServerWithStartId:");
    reveal_strlit("getMatureTime");
    reveal_strlit("isReachable");
    reveal_strlit("sendPacket:commandId:");
    reveal_strlit("sendAllBufferDatas");
    reveal_strlit("sendAllBuffDataInNewSceneLoading");
    reveal_strlit("generateRandomRewardId");
    reveal_strlit("onTaomeeLoginViewDidUnloadWithUserID:password:returnCode:");
    reveal_strlit("curSceneId");
    reveal_strlit("winSize");
    reveal_strlit("onEnter");
    reveal_strlit("addChild:");
    reveal_strlit("addChild:z:");
    reveal_strlit("addChild:z:tag:");
    reveal_strlit("addSubview:");
    reveal_strlit("CheckUserInfoData:");
    reveal_strlit("addAdventureMapFragment:");
    reveal_strlit("addGold:");
    reveal_strlit("addObjectToServer:");
    reveal_strlit("addOperation:");
    reveal_strlit("addVipGold:");
    reveal_strlit("addXp:");
    reveal_strlit("alertView:didDismissWithButtonIndex:");
    reveal_strlit("allAccounts");
    reveal_strlit("applicationWillResignActive:");
    reveal_strlit("applicationWillTerminate:");
    reveal_strlit("autoLoginWithUserID:");
    reveal_strlit("availableWorkers");
    reveal_strlit("changeStateTo:withMessage:");
    reveal_strlit("check");
    reveal_strlit("checkBeyoundLeftCircleBeach:");
    reveal_strlit("checkCooltimeOver");
    reveal_strlit("checkInAlreadyUnlockList:");
    reveal_strlit("checkIsUnlockMusic:");
    reveal_strlit("checkIsVipUser");
    reveal_strlit("checkRequiredVipLevel:");
    reveal_strlit("checkUserinfoMd5:");
    reveal_strlit("compareRemoteGameDataWithLocalOne");
    reveal_strlit("cropWitherHandler:");
    reveal_strlit("curLevel");
    reveal_strlit("currentGameMode");
    reveal_strlit("establishConnection");
    reveal_strlit("gainCoin");
    reveal_strlit("gainXP");
    reveal_strlit("gameMode");
    reveal_strlit("getBuildTime:");
    reveal_strlit("getCurLevelCoolTime");
    reveal_strlit("getCurLevelCooltime:");
    reveal_strlit("getDictionaryWithJsonData:");
    reveal_strlit("getGoldSpeedUpObjectMultiple");
    reveal_strlit("getLastCooldownTime");
    reveal_strlit("getLastGameCoolTime");
    reveal_strlit("getLevel");
    reveal_strlit("getLockType4Crop:");
    reveal_strlit("getLockType4CropWithId:");
    reveal_strlit("getLockType4Decorate:");
    reveal_strlit("getLockType4Gift:");
    reveal_strlit("getLockType4Object:");
    reveal_strlit("getLockType4ShopItem:shop:");
    reveal_strlit("getOutCoolTime");
    reveal_strlit("getServerListWithServiceName:andDelegate:");
    reveal_strlit("getWitherTime");
    reveal_strlit("getXPSpeedUpObjectMultiple");
    reveal_strlit("inRectOfAquaticAreaOrNot:");
    reveal_strlit("innerupdate:");
    reveal_strlit("isConnected");
    reveal_strlit("isHackData");
    reveal_strlit("isNetworkReachable");
    reveal_strlit("isShowVIPFunctionsButton:");
    reveal_strlit("isUnlockedItem:");
    reveal_strlit("loadUserInfoData");
    reveal_strlit("loginWithDeviceInfoAndUserIDInfoInSendType:");
    reveal_strlit("mapExtend");
    reveal_strlit("moleUpperLimit");
    reveal_strlit("onButtonChangeIDSelected:");
    reveal_strlit("onLoginMainMenuCommandReceived:");
    reveal_strlit("onSharedToSinaWeibo");
    reveal_strlit("onSharedToSinaWeiboGetShareReward");
    reveal_strlit("open");
    reveal_strlit("responseData");
    reveal_strlit("saveUserinfoToLocal");
    reveal_strlit("sendRequest:");
    reveal_strlit("setCurrentProduceMoleNums:");
    reveal_strlit("setMapFragments:");
    reveal_strlit("setModObjectToServer:");
    reveal_strlit("setSocketFromStreamsAndReturnError:");
    reveal_strlit("setUserID:");
    reveal_strlit("shellsNeeded");
    reveal_strlit("showCheatWarningMessage");
    reveal_strlit("showLayer");
    reveal_strlit("showMultiLoginErrorMessageInNewScene");
    reveal_strlit("showNetConnectErrorMessageWithRetryButton");
    reveal_strlit("showNoNetConnectErrorMessage");
    reveal_strlit("start");
    reveal_strlit("startGame");
    reveal_strlit("state");
    reveal_strlit("taomeePassword");
    reveal_strlit("totalRooms");
    reveal_strlit("totalWorkers");
    reveal_strlit("unlocked:");
    reveal_strlit("update:");
    reveal_strlit("updateGameDateForEnterNewSceneWithTarget:andCallback:");
    reveal_strlit("updateLoading:");
    reveal_strlit("vipLevelWithNewType");
    reveal_strlit("vipValue");
}

/// Frames, boards and scenes: each selector is known by its own name and no other.
pub proof fn law_names_of_frames_and_boards(name: Seq<char>)
    ensures
        sel_of(name) == Sel::DrawScene <==> name == "drawScene"@,
        sel_of(name) == Sel::MainLoop <==> name == "mainLoop"@,
        sel_of(name) == Sel::MoleHudTick <==> name == "moleHudTick"@,
        sel_of(name) == Sel::ShowWithTarget <==> name == "showWithTarget:"@,
        sel_of(name) == Sel::ShowWithTargetSelector <==> name == "showWithTarget:selector:"@,
        sel_of(name) == Sel::CheckPromptForLoadingNewApp <==> name == "checkPromptForLoadingNewApp"@,
        sel_of(name) == Sel::ShowMoreGameOnRootViewWithScaleAndOrientationSupported <==> name == "showMoreGameOnRootView:withScale:andOrientationSupported:"@,
        sel_of(name) == Sel::ShowMoreGameOnRootViewWithScale <==> name == "showMoreGameOnRootView:withScale:"@,
        sel_of(name) == Sel::ShowMoreGameWithScaleAndOrientationSupported <==> name == "showMoreGameWithScale:andOrientationSupported:"@,
        sel_of(name) == Sel::ShowMoreGameWithScale <==> name == "showMoreGameWithScale:"@,
        sel_of(name) == Sel::ShowMoreGameWithUrl <==> name == "showMoreGameWithUrl:"@,
        sel_of(name) == Sel::OnServerListResult <==> name == "onServerListResult:"@,
        sel_of(name) == Sel::ShowAccountManagerViewWithDelegateAndUserID <==> name == "showAccountManagerViewWithDelegate:andUserID:"@,
        sel_of(name) == Sel::EnterLoadingWithDelegateNextSceneId <==> name == "enterLoadingWithDelegate:nextSceneId:"@,
        sel_of(name) == Sel::LoadNewScene <==> name == "loadNewScene:"@,
        sel_of(name) == Sel::GobackMainVillage <==> name == "gobackMainVillage"@,
        sel_of(name) == Sel::DeleteObjectFromServer <==> name == "deleteObjectFromServer:"@,
        sel_of(name) == Sel::StartNewSceneFromToScene <==> name == "startNewSceneFrom:toScene:"@,
        sel_of(name) == Sel::MoleIslandTick <==> name == "moleIslandTick"@,
        sel_of(name) == Sel::GetCurrentServerTime <==> name == "getCurrentServerTime"@,
        sel_of(name) == Sel::EnterNewIslands <==> name == "enterNewIslands"@,
        sel_of(name) == Sel::GetAllObjectsListFromServerWithStartId <==> name == "getAllObjectsListFromServerWithStartId:"@,
        sel_of(name) == Sel::GetMatureTime <==> name == "getMatureTime"@,
        sel_of(name) == Sel::IsReachable <==> name == "isReachable"@,
        sel_of(name) == Sel::SendPacketCommandId <==> name == "sendPacket:commandId:"@,
        sel_of(name) == Sel::SendAllBufferDatas <==> name == "sendAllBufferDatas"@,
        sel_of(name) == Sel::SendAllBuffDataInNewSceneLoading <==> name == "sendAllBuffDataInNewSceneLoading"@,
        sel_of(name) == Sel::GenerateRandomRewardId <==> name == "generateRandomRewardId"@,
        sel_of(name) == Sel::OnTaomeeLoginViewDidUnloadWithUserIDPasswordReturnCode <==> name == "onTaomeeLoginViewDidUnloadWithUserID:password:returnCode:"@,
        sel_of(name) == Sel::CurSceneId <==> name == "curSceneId"@,
{
    lemma_selector_names();
}

/// Layout, money, accounts and checks: each selector is known by its own name and
/// no other.
pub proof fn law_names_of_layout_and_accounts(name: Seq<char>)
    ensures
        sel_of(name) == Sel::WinSize <==> name == "winSize"@,
        sel_of(name) == Sel::OnEnter <==> name == "onEnter"@,
        sel_of(name) == Sel::AddChild <==> name == "addChild:"@,
        sel_of(name) == Sel::AddChildZ <==> name == "addChild:z:"@,
        sel_of(name) == Sel::AddChildZTag <==> name == "addChild:z:tag:"@,
        sel_of(name) == Sel::AddSubview <==> name == "addSubview:"@,
        sel_of(name) == Sel::CheckUserInfoData <==> name == "CheckUserInfoData:"@,
        sel_of(name) == Sel::AddAdventureMapFragment <==> name == "addAdventureMapFragment:"@,
        sel_of(name) == Sel::AddGold <==> name == "addGold:"@,
        sel_of(name) == Sel::AddObjectToServer <==> name == "addObjectToServer:"@,
        sel_of(name) == Sel::AddOperation <==> name == "addOperation:"@,
        sel_of(name) == Sel::AddVipGold <==> name == "addVipGold:"@,
        sel_of(name) == Sel::AddXp <==> name == "addXp:"@,
        sel_of(name) == Sel::AlertViewDidDismissWithButtonIndex <==> name == "alertView:didDismissWithButtonIndex:"@,
        sel_of(name) == Sel::AllAccounts <==> name == "allAccounts"@,
        sel_of(name) == Sel::ApplicationWillResignActive <==> name == "applicationWillResignActive:"@,
        sel_of(name) == Sel::ApplicationWillTerminate <==> name == "applicationWillTerminate:"@,
        sel_of(name) == Sel::AutoLoginWithUserID <==> name == "autoLoginWithUserID:"@,
        sel_of(name) == Sel::AvailableWorkers <==> name == "availableWorkers"@,
        sel_of(name) == Sel::ChangeStateToWithMessage <==> name == "changeStateTo:withMessage:"@,
        sel_of(name) == Sel::Check <==> name == "check"@,
        sel_of(name) == Sel::CheckBeyoundLeftCircleBeach <==> name == "checkBeyoundLeftCircleBeach:"@,
        sel_of(name) == Sel::CheckCooltimeOver <==> name == "checkCooltimeOver"@,
        sel_of(name) == Sel::CheckInAlreadyUnlockList <==> name == "checkInAlreadyUnlockList:"@,
        sel_of(name) == Sel::CheckIsUnlockMusic <==> name == "checkIsUnlockMusic:"@,
        sel_of(name) == Sel::CheckIsVipUser <==> name == "checkIsVipUser"@,
        sel_of(name) == Sel::CheckRequiredVipLevel <==> name == "checkRequiredVipLevel:"@,
        sel_of(name) == Sel::CheckUserinfoMd5 <==> name == "checkUserinfoMd5:"@,
        sel_of(name) == Sel::CompareRemoteGameDataWithLocalOne <==> name == "compareRemoteGameDataWithLocalOne"@,
        sel_of(name) == Sel::CropWitherHandler <==> name == "cropWitherHandler:"@,
        sel_of(name) == Sel::CurLevel <==> name == "curLevel"@,
        sel_of(name) == Sel::CurrentGameMode <==> name == "currentGameMode"@,
{
    lemma_selector_names();
}

/// Times, locks and the connection: each selector is known by its own name and no
/// other.
pub proof fn law_names_of_times_and_locks(name: Seq<char>)
    ensures
        sel_of(name) == Sel::EstablishConnection <==> name == "establishConnection"@,
        sel_of(name) == Sel::GainCoin <==> name == "gainCoin"@,
        sel_of(name) == Sel::GainXP <==> name == "gainXP"@,
        sel_of(name) == Sel::GameMode <==> name == "gameMode"@,
        sel_of(name) == Sel::GetBuildTime <==> name == "getBuildTime:"@,
        sel_of(name) == Sel::GetCurLevelCoolTime <==> name == "getCurLevelCoolTime"@,
        sel_of(name) == Sel::GetCurLevelCooltime <==> name == "getCurLevelCooltime:"@,
        sel_of(name) == Sel::GetDictionaryWithJsonData <==> name == "getDictionaryWithJsonData:"@,
        sel_of(name) == Sel::GetGoldSpeedUpObjectMultiple <==> name == "getGoldSpeedUpObjectMultiple"@,
        sel_of(name) == Sel::GetLastCooldownTime <==> name == "getLastCooldownTime"@,
        sel_of(name) == Sel::GetLastGameCoolTime <==> name == "getLastGameCoolTime"@,
        sel_of(name) == Sel::GetLevel <==> name == "getLevel"@,
        sel_of(name) == Sel::GetLockType4Crop <==> name == "getLockType4Crop:"@,
        sel_of(name) == Sel::GetLockType4CropWithId <==> name == "getLockType4CropWithId:"@,
        sel_of(name) == Sel::GetLockType4Decorate <==> name == "getLockType4Decorate:"@,
        sel_of(name) == Sel::GetLockType4Gift <==> name == "getLockType4Gift:"@,
        sel_of(name) == Sel::GetLockType4Object <==> name == "getLockType4Object:"@,
        sel_of(name) == Sel::GetLockType4ShopItemShop <==> name == "getLockType4ShopItem:shop:"@,
        sel_of(name) == Sel::GetOutCoolTime <==> name == "getOutCoolTime"@,
        sel_of(name) == Sel::GetServerListWithServiceNameAndDelegate <==> name == "getServerListWithServiceName:andDelegate:"@,
        sel_of(name) == Sel::GetWitherTime <==> name == "getWitherTime"@,
        sel_of(name) == Sel::GetXPSpeedUpObjectMultiple <==> name == "getXPSpeedUpObjectMultiple"@,
        sel_of(name) == Sel::InRectOfAquaticAreaOrNot <==> name == "inRectOfAquaticAreaOrNot:"@,
        sel_of(name) == Sel::Innerupdate <==> name == "innerupdate:"@,
        sel_of(name) == Sel::IsConnected <==> name == "isConnected"@,
        sel_of(name) == Sel::IsHackData <==> name == "isHackData"@,
        sel_of(name) == Sel::IsNetworkReachable <==> name == "isNetworkReachable"@,
        sel_of(name) == Sel::IsShowVIPFunctionsButton <==> name == "isShowVIPFunctionsButton:"@,
        sel_of(name) == Sel::IsUnlockedItem <==> name == "isUnlockedItem:"@,
        sel_of(name) == Sel::LoadUserInfoData <==> name == "loadUserInfoData"@,
        sel_of(name) == Sel::LoginWithDeviceInfoAndUserIDInfoInSendType <==> name == "loginWithDeviceInfoAndUserIDInfoInSendType:"@,
        sel_of(name) == Sel::MapExtend <==> name == "mapExtend"@,
{
    lemma_selector_names();
}

/// Menus, boxes and progress: each selector is known by its own name and no other.
pub proof fn law_names_of_menus_and_progress(name: Seq<char>)
    ensures
        sel_of(name) == Sel::MoleUpperLimit <==> name == "moleUpperLimit"@,
        sel_of(name) == Sel::OnButtonChangeIDSelected <==> name == "onButtonChangeIDSelected:"@,
        sel_of(name) == Sel::OnLoginMainMenuCommandReceived <==> name == "onLoginMainMenuCommandReceived:"@,
        sel_of(name) == Sel::OnSharedToSinaWeibo <==> name == "onSharedToSinaWeibo"@,
        sel_of(name) == Sel::OnSharedToSinaWeiboGetShareReward <==> name == "onSharedToSinaWeiboGetShareReward"@,
        sel_of(name) == Sel::Open <==> name == "open"@,
        sel_of(name) == Sel::ResponseData <==> name == "responseData"@,
        sel_of(name) == Sel::SaveUserinfoToLocal <==> name == "saveUserinfoToLocal"@,
        sel_of(name) == Sel::SendRequest <==> name == "sendRequest:"@,
        sel_of(name) == Sel::SetCurrentProduceMoleNums <==> name == "setCurrentProduceMoleNums:"@,
        sel_of(name) == Sel::SetMapFragments <==> name == "setMapFragments:"@,
        sel_of(name) == Sel::SetModObjectToServer <==> name == "setModObjectToServer:"@,
        sel_of(name) == Sel::SetSocketFromStreamsAndReturnError <==> name == "setSocketFromStreamsAndReturnError:"@,
        sel_of(name) == Sel::SetUserID <==> name == "setUserID:"@,
        sel_of(name) == Sel::ShellsNeeded <==> name == "shellsNeeded"@,
        sel_of(name) == Sel::ShowCheatWarningMessage <==> name == "showCheatWarningMessage"@,
        sel_of(name) == Sel::ShowLayer <==> name == "showLayer"@,
        sel_of(name) == Sel::ShowMultiLoginErrorMessageInNewScene <==> name == "showMultiLoginErrorMessageInNewScene"@,
        sel_of(name) == Sel::ShowNetConnectErrorMessageWithRetryButton <==> name == "showNetConnectErrorMessageWithRetryButton"@,
        sel_of(name) == Sel::ShowNoNetConnectErrorMessage <==> name == "showNoNetConnectErrorMessage"@,
        sel_of(name) == Sel::Start <==> name == "start"@,
        sel_of(name) == Sel::StartGame <==> name == "startGame"@,
        sel_of(name) == Sel::State <==> name == "state"@,
        sel_of(name) == Sel::TaomeePassword <==> name == "taomeePassword"@,
        sel_of(name) == Sel::TotalRooms <==> name == "totalRooms"@,
        sel_of(name) == Sel::TotalWorkers <==> name == "totalWorkers"@,
        sel_of(name) == Sel::Unlocked <==> name == "unlocked:"@,
        sel_of(name) == Sel::Update <==> name == "update:"@,
        sel_of(name) == Sel::UpdateGameDateForEnterNewSceneWithTargetAndCallback <==> name == "updateGameDateForEnterNewSceneWithTarget:andCallback:"@,
        sel_of(name) == Sel::UpdateLoading <==> name == "updateLoading:"@,
        sel_of(name) == Sel::VipLevelWithNewType <==> name == "vipLevelWithNewType"@,
        sel_of(name) == Sel::VipValue <==> name == "vipValue"@,
{
    lemma_selector_names();
}

/// What else is told of a message: whether its selector begins with
/// `showMoreGame`, with `set` or `add`, and whether it ends with `InNewScene:`.
pub proof fn law_marks_of_messages(class: Seq<char>, rest: Seq<char>, sel: Seq<char>)
    ensures
        message_of(class, "showMoreGame"@ + rest).more_game,
        message_of(class, "set"@ + rest).sets && message_of(class, "add"@ + rest).sets,
        message_of(class, rest + "InNewScene:"@).in_new_scene,
        message_of(class, sel).more_game ==> sel.len() >= 12 && sel.take(12) == "showMoreGame"@,
        message_of(class, sel).sets ==> sel.len() >= 3 && (sel.take(3) == "set"@ || sel.take(3)
            == "add"@),
        message_of(class, sel).in_new_scene ==> sel.len() >= 11 && sel.skip(sel.len() - 11)
            == "InNewScene:"@,
        message_of(class, sel).class == class_of(class) && message_of(class, sel).sel == sel_of(sel),
{
    reveal_strlit("showMoreGame");
    reveal_strlit("set");
    reveal_strlit("add");
    reveal_strlit("InNewScene:");
    assert(("showMoreGame"@ + rest).take(12) =~= "showMoreGame"@);
    assert(("set"@ + rest).take(3) =~= "set"@);
    assert(("add"@ + rest).take(3) =~= "add"@);
    let t = rest + "InNewScene:"@;
    assert(t.skip(t.len() - 11) =~= "InNewScene:"@);
}

} // verus!
