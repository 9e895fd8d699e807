//! The classes and selectors of the game that the hooks know.

use vstd::prelude::*;
use crate::text::{ends_with, same, starts_with};

verus! {

/// Classes of the game that the hooks know.
#[derive(Clone, Copy, Debug, PartialEq, Eq, Structural)]
pub enum Class {
    AsyncSocket,
    Building,
    Farm,
    FlowerFarm,
    FruitFarm,
    GameManager,
    HolidayVillageLayer,
    LoadingHoliday,
    LoadingLayer,
    MVPacketHeader,
    MainMenuScene,
    NetworkManager,
    NewSceneApartment,
    SeabedSeekingTreasureMainLayer,
    TMADataManager,
    TMAHttpManager,
    TMAASIFormDataRequest,
    TMAASIHTTPRequest,
    TMAASINetworkQueue,
    TMASSKeychain,
    TaomeeGetServerIpListManager,
    TaomeeUserInfo,
    UserInfoData,
    AchievementControl,
    AchievementItems,
    AvatarLayer,
    DecorateRoomLayer,
    FishingGame,
    GameData,
    MCNpcActor,
    MinerGame,
    MusicHallLayer,
    NewGameManager,
    NewSceneAchievement,
    NewSceneData,
    NewScenePorter,
    NewSceneRestaurant,
    NewSceneUserInfoData,
    ObjectManager,
    Quest,
    SystemTimeCheck,
    TimeQuest,
    UserInfoLayer,
    UserVIPInfoData,
    WrapperManager,
    YaliNpcActor,
    IMoleVillageAppDelegate,
    ShowAdwallBoardLayer,
    AutoPopZhongXinLayer,
    GameDataCompareLayer,
    VillageMenuLayer,
    SharedInterfaceLayer,
    WashRoomLevelChoose,
    AdViewForMoleCart,
    LoadingManager,
    SceneMannager,
    Porter,
    NewSceneTimer,
    NewSceneQuest,
    DailyQuest,
    VipQuest,
    NewSceneShop,
    Bridge,
    Ladder,
    SpacialObject,
    YellowDuck,
    /// Any other.
    Other,
}

/// The class with a name.
pub open spec fn class_of(name: Seq<char>) -> Class {
    if name == "AsyncSocket"@ {
        Class::AsyncSocket
    } else if name == "Building"@ {
        Class::Building
    } else if name == "Farm"@ {
        Class::Farm
    } else if name == "FlowerFarm"@ {
        Class::FlowerFarm
    } else if name == "FruitFarm"@ {
        Class::FruitFarm
    } else if name == "GameManager"@ {
        Class::GameManager
    } else if name == "HolidayVillageLayer"@ {
        Class::HolidayVillageLayer
    } else if name == "LoadingHoliday"@ {
        Class::LoadingHoliday
    } else if name == "LoadingLayer"@ {
        Class::LoadingLayer
    } else if name == "MVPacketHeader"@ {
        Class::MVPacketHeader
    } else if name == "MainMenuScene"@ {
        Class::MainMenuScene
    } else if name == "NetworkManager"@ {
        Class::NetworkManager
    } else if name == "NewSceneApartment"@ {
        Class::NewSceneApartment
    } else if name == "SeabedSeekingTreasureMainLayer"@ {
        Class::SeabedSeekingTreasureMainLayer
    } else if name == "TMADataManager"@ {
        Class::TMADataManager
    } else if name == "TMAHttpManager"@ {
        Class::TMAHttpManager
    } else if name == "TMA_ASIFormDataRequest"@ {
        Class::TMAASIFormDataRequest
    } else if name == "TMA_ASIHTTPRequest"@ {
        Class::TMAASIHTTPRequest
    } else if name == "TMA_ASINetworkQueue"@ {
        Class::TMAASINetworkQueue
    } else if name == "TMA_SSKeychain"@ {
        Class::TMASSKeychain
    } else if name == "TaomeeGetServerIpListManager"@ {
        Class::TaomeeGetServerIpListManager
    } else if name == "TaomeeUserInfo"@ {
        Class::TaomeeUserInfo
    } else if name == "UserInfoData"@ {
        Class::UserInfoData
    } else if name == "AchievementControl"@ {
        Class::AchievementControl
    } else if name == "AchievementItems"@ {
        Class::AchievementItems
    } else if name == "AvatarLayer"@ {
        Class::AvatarLayer
    } else if name == "DecorateRoomLayer"@ {
        Class::DecorateRoomLayer
    } else if name == "FishingGame"@ {
        Class::FishingGame
    } else if name == "GameData"@ {
        Class::GameData
    } else if name == "MCNpcActor"@ {
        Class::MCNpcActor
    } else if name == "MinerGame"@ {
        Class::MinerGame
    } else if name == "MusicHallLayer"@ {
        Class::MusicHallLayer
    } else if name == "NewGameManager"@ {
        Class::NewGameManager
    } else if name == "NewSceneAchievement"@ {
        Class::NewSceneAchievement
    } else if name == "NewSceneData"@ {
        Class::NewSceneData
    } else if name == "NewScenePorter"@ {
        Class::NewScenePorter
    } else if name == "NewSceneRestaurant"@ {
        Class::NewSceneRestaurant
    } else if name == "NewSceneUserInfoData"@ {
        Class::NewSceneUserInfoData
    } else if name == "ObjectManager"@ {
        Class::ObjectManager
    } else if name == "Quest"@ {
        Class::Quest
    } else if name == "SystemTimeCheck"@ {
        Class::SystemTimeCheck
    } else if name == "TimeQuest"@ {
        Class::TimeQuest
    } else if name == "UserInfoLayer"@ {
        Class::UserInfoLayer
    } else if name == "UserVIPInfoData"@ {
        Class::UserVIPInfoData
    } else if name == "WrapperManager"@ {
        Class::WrapperManager
    } else if name == "YaliNpcActor"@ {
        Class::YaliNpcActor
    } else if name == "iMoleVillageAppDelegate"@ {
        Class::IMoleVillageAppDelegate
    } else if name == "ShowAdwallBoardLayer"@ {
        Class::ShowAdwallBoardLayer
    } else if name == "AutoPopZhongXinLayer"@ {
        Class::AutoPopZhongXinLayer
    } else if name == "GameDataCompareLayer"@ {
        Class::GameDataCompareLayer
    } else if name == "VillageMenuLayer"@ {
        Class::VillageMenuLayer
    } else if name == "SharedInterfaceLayer"@ {
        Class::SharedInterfaceLayer
    } else if name == "WashRoomLevelChoose"@ {
        Class::WashRoomLevelChoose
    } else if name == "AdViewForMoleCart"@ {
        Class::AdViewForMoleCart
    } else if name == "LoadingManager"@ {
        Class::LoadingManager
    } else if name == "SceneMannager"@ {
        Class::SceneMannager
    } else if name == "Porter"@ {
        Class::Porter
    } else if name == "NewSceneTimer"@ {
        Class::NewSceneTimer
    } else if name == "NewSceneQuest"@ {
        Class::NewSceneQuest
    } else if name == "DailyQuest"@ {
        Class::DailyQuest
    } else if name == "VipQuest"@ {
        Class::VipQuest
    } else if name == "NewSceneShop"@ {
        Class::NewSceneShop
    } else if name == "Bridge"@ {
        Class::Bridge
    } else if name == "Ladder"@ {
        Class::Ladder
    } else if name == "SpacialObject"@ {
        Class::SpacialObject
    } else if name == "YellowDuck"@ {
        Class::YellowDuck
    } else {
        Class::Other
    }
}

impl Class {
    /// The class with a name.
    pub fn of(name: &str) -> (r: Class)
        ensures
            r == class_of(name@),
    {
        if same(name, "AsyncSocket") {
            Class::AsyncSocket
        } else if same(name, "Building") {
            Class::Building
        } else if same(name, "Farm") {
            Class::Farm
        } else if same(name, "FlowerFarm") {
            Class::FlowerFarm
        } else if same(name, "FruitFarm") {
            Class::FruitFarm
        } else if same(name, "GameManager") {
            Class::GameManager
        } else if same(name, "HolidayVillageLayer") {
            Class::HolidayVillageLayer
        } else if same(name, "LoadingHoliday") {
            Class::LoadingHoliday
        } else if same(name, "LoadingLayer") {
            Class::LoadingLayer
        } else if same(name, "MVPacketHeader") {
            Class::MVPacketHeader
        } else if same(name, "MainMenuScene") {
            Class::MainMenuScene
        } else if same(name, "NetworkManager") {
            Class::NetworkManager
        } else if same(name, "NewSceneApartment") {
            Class::NewSceneApartment
        } else if same(name, "SeabedSeekingTreasureMainLayer") {
            Class::SeabedSeekingTreasureMainLayer
        } else if same(name, "TMADataManager") {
            Class::TMADataManager
        } else if same(name, "TMAHttpManager") {
            Class::TMAHttpManager
        } else if same(name, "TMA_ASIFormDataRequest") {
            Class::TMAASIFormDataRequest
        } else if same(name, "TMA_ASIHTTPRequest") {
            Class::TMAASIHTTPRequest
        } else if same(name, "TMA_ASINetworkQueue") {
            Class::TMAASINetworkQueue
        } else if same(name, "TMA_SSKeychain") {
            Class::TMASSKeychain
        } else if same(name, "TaomeeGetServerIpListManager") {
            Class::TaomeeGetServerIpListManager
        } else if same(name, "TaomeeUserInfo") {
            Class::TaomeeUserInfo
        } else if same(name, "UserInfoData") {
            Class::UserInfoData
        } else if same(name, "AchievementControl") {
            Class::AchievementControl
        } else if same(name, "AchievementItems") {
            Class::AchievementItems
        } else if same(name, "AvatarLayer") {
            Class::AvatarLayer
        } else if same(name, "DecorateRoomLayer") {
            Class::DecorateRoomLayer
        } else if same(name, "FishingGame") {
            Class::FishingGame
        } else if same(name, "GameData") {
            Class::GameData
        } else if same(name, "MCNpcActor") {
            Class::MCNpcActor
        } else if same(name, "MinerGame") {
            Class::MinerGame
        } else if same(name, "MusicHallLayer") {
            Class::MusicHallLayer
        } else if same(name, "NewGameManager") {
            Class::NewGameManager
        } else if same(name, "NewSceneAchievement") {
            Class::NewSceneAchievement
        } else if same(name, "NewSceneData") {
            Class::NewSceneData
        } else if same(name, "NewScenePorter") {
            Class::NewScenePorter
        } else if same(name, "NewSceneRestaurant") {
            Class::NewSceneRestaurant
        } else if same(name, "NewSceneUserInfoData") {
            Class::NewSceneUserInfoData
        } else if same(name, "ObjectManager") {
            Class::ObjectManager
        } else if same(name, "Quest") {
            Class::Quest
        } else if same(name, "SystemTimeCheck") {
            Class::SystemTimeCheck
        } else if same(name, "TimeQuest") {
            Class::TimeQuest
        } else if same(name, "UserInfoLayer") {
            Class::UserInfoLayer
        } else if same(name, "UserVIPInfoData") {
            Class::UserVIPInfoData
        } else if same(name, "WrapperManager") {
            Class::WrapperManager
        } else if same(name, "YaliNpcActor") {
            Class::YaliNpcActor
        } else if same(name, "iMoleVillageAppDelegate") {
            Class::IMoleVillageAppDelegate
        } else if same(name, "ShowAdwallBoardLayer") {
            Class::ShowAdwallBoardLayer
        } else if same(name, "AutoPopZhongXinLayer") {
            Class::AutoPopZhongXinLayer
        } else if same(name, "GameDataCompareLayer") {
            Class::GameDataCompareLayer
        } else if same(name, "VillageMenuLayer") {
            Class::VillageMenuLayer
        } else if same(name, "SharedInterfaceLayer") {
            Class::SharedInterfaceLayer
        } else if same(name, "WashRoomLevelChoose") {
            Class::WashRoomLevelChoose
        } else if same(name, "AdViewForMoleCart") {
            Class::AdViewForMoleCart
        } else if same(name, "LoadingManager") {
            Class::LoadingManager
        } else if same(name, "SceneMannager") {
            Class::SceneMannager
        } else if same(name, "Porter") {
            Class::Porter
        } else if same(name, "NewSceneTimer") {
            Class::NewSceneTimer
        } else if same(name, "NewSceneQuest") {
            Class::NewSceneQuest
        } else if same(name, "DailyQuest") {
            Class::DailyQuest
        } else if same(name, "VipQuest") {
            Class::VipQuest
        } else if same(name, "NewSceneShop") {
            Class::NewSceneShop
        } else if same(name, "Bridge") {
            Class::Bridge
        } else if same(name, "Ladder") {
            Class::Ladder
        } else if same(name, "SpacialObject") {
            Class::SpacialObject
        } else if same(name, "YellowDuck") {
            Class::YellowDuck
        } else {
            Class::Other
        }
    }
}

/// Selectors of the game that the hooks know.
#[derive(Clone, Copy, Debug, PartialEq, Eq, Structural)]
pub enum Sel {
    DrawScene,
    MainLoop,
    MoleHudTick,
    ShowWithTarget,
    ShowWithTargetSelector,
    CheckPromptForLoadingNewApp,
    ShowMoreGameOnRootViewWithScaleAndOrientationSupported,
    ShowMoreGameOnRootViewWithScale,
    ShowMoreGameWithScaleAndOrientationSupported,
    ShowMoreGameWithScale,
    ShowMoreGameWithUrl,
    OnServerListResult,
    ShowAccountManagerViewWithDelegateAndUserID,
    EnterLoadingWithDelegateNextSceneId,
    LoadNewScene,
    GobackMainVillage,
    DeleteObjectFromServer,
    StartNewSceneFromToScene,
    MoleIslandTick,
    GetCurrentServerTime,
    EnterNewIslands,
    GetAllObjectsListFromServerWithStartId,
    GetMatureTime,
    IsReachable,
    SendPacketCommandId,
    SendAllBufferDatas,
    SendAllBuffDataInNewSceneLoading,
    GenerateRandomRewardId,
    OnTaomeeLoginViewDidUnloadWithUserIDPasswordReturnCode,
    CurSceneId,
    WinSize,
    OnEnter,
    AddChild,
    AddChildZ,
    AddChildZTag,
    AddSubview,
    CheckUserInfoData,
    AddAdventureMapFragment,
    AddGold,
    AddObjectToServer,
    AddOperation,
    AddVipGold,
    AddXp,
    AlertViewDidDismissWithButtonIndex,
    AllAccounts,
    ApplicationWillResignActive,
    ApplicationWillTerminate,
    AutoLoginWithUserID,
    AvailableWorkers,
    ChangeStateToWithMessage,
    Check,
    CheckBeyoundLeftCircleBeach,
    CheckCooltimeOver,
    CheckInAlreadyUnlockList,
    CheckIsUnlockMusic,
    CheckIsVipUser,
    CheckRequiredVipLevel,
    CheckUserinfoMd5,
    CompareRemoteGameDataWithLocalOne,
    CropWitherHandler,
    CurLevel,
    CurrentGameMode,
    EstablishConnection,
    GainCoin,
    GainXP,
    GameMode,
    GetBuildTime,
    GetCurLevelCoolTime,
    GetCurLevelCooltime,
    GetDictionaryWithJsonData,
    GetGoldSpeedUpObjectMultiple,
    GetLastCooldownTime,
    GetLastGameCoolTime,
    GetLevel,
    GetLockType4Crop,
    GetLockType4CropWithId,
    GetLockType4Decorate,
    GetLockType4Gift,
    GetLockType4Object,
    GetLockType4ShopItemShop,
    GetOutCoolTime,
    GetServerListWithServiceNameAndDelegate,
    GetWitherTime,
    GetXPSpeedUpObjectMultiple,
    InRectOfAquaticAreaOrNot,
    Innerupdate,
    IsConnected,
    IsHackData,
    IsNetworkReachable,
    IsShowVIPFunctionsButton,
    IsUnlockedItem,
    LoadUserInfoData,
    LoginWithDeviceInfoAndUserIDInfoInSendType,
    MapExtend,
    MoleUpperLimit,
    OnButtonChangeIDSelected,
    OnLoginMainMenuCommandReceived,
    OnSharedToSinaWeibo,
    OnSharedToSinaWeiboGetShareReward,
    Open,
    ResponseData,
    SaveUserinfoToLocal,
    SendRequest,
    SetCurrentProduceMoleNums,
    SetMapFragments,
    SetModObjectToServer,
    SetSocketFromStreamsAndReturnError,
    SetUserID,
    ShellsNeeded,
    ShowCheatWarningMessage,
    ShowLayer,
    ShowMultiLoginErrorMessageInNewScene,
    ShowNetConnectErrorMessageWithRetryButton,
    ShowNoNetConnectErrorMessage,
    Start,
    StartGame,
    State,
    TaomeePassword,
    TotalRooms,
    TotalWorkers,
    Unlocked,
    Update,
    UpdateGameDateForEnterNewSceneWithTargetAndCallback,
    UpdateLoading,
    VipLevelWithNewType,
    VipValue,
    /// Any other.
    Other,
}

/// The selector with a name.
pub open spec fn sel_of(name: Seq<char>) -> Sel {
    if name == "drawScene"@ {
        Sel::DrawScene
    } else if name == "mainLoop"@ {
        Sel::MainLoop
    } else if name == "moleHudTick"@ {
        Sel::MoleHudTick
    } else if name == "showWithTarget:"@ {
        Sel::ShowWithTarget
    } else if name == "showWithTarget:selector:"@ {
        Sel::ShowWithTargetSelector
    } else if name == "checkPromptForLoadingNewApp"@ {
        Sel::CheckPromptForLoadingNewApp
    } else if name == "showMoreGameOnRootView:withScale:andOrientationSupported:"@ {
        Sel::ShowMoreGameOnRootViewWithScaleAndOrientationSupported
    } else if name == "showMoreGameOnRootView:withScale:"@ {
        Sel::ShowMoreGameOnRootViewWithScale
    } else if name == "showMoreGameWithScale:andOrientationSupported:"@ {
        Sel::ShowMoreGameWithScaleAndOrientationSupported
    } else if name == "showMoreGameWithScale:"@ {
        Sel::ShowMoreGameWithScale
    } else if name == "showMoreGameWithUrl:"@ {
        Sel::ShowMoreGameWithUrl
    } else if name == "onServerListResult:"@ {
        Sel::OnServerListResult
    } else if name == "showAccountManagerViewWithDelegate:andUserID:"@ {
        Sel::ShowAccountManagerViewWithDelegateAndUserID
    } else if name == "enterLoadingWithDelegate:nextSceneId:"@ {
        Sel::EnterLoadingWithDelegateNextSceneId
    } else if name == "loadNewScene:"@ {
        Sel::LoadNewScene
    } else if name == "gobackMainVillage"@ {
        Sel::GobackMainVillage
    } else if name == "deleteObjectFromServer:"@ {
        Sel::DeleteObjectFromServer
    } else if name == "startNewSceneFrom:toScene:"@ {
        Sel::StartNewSceneFromToScene
    } else if name == "moleIslandTick"@ {
        Sel::MoleIslandTick
    } else if name == "getCurrentServerTime"@ {
        Sel::GetCurrentServerTime
    } else if name == "enterNewIslands"@ {
        Sel::EnterNewIslands
    } else if name == "getAllObjectsListFromServerWithStartId:"@ {
        Sel::GetAllObjectsListFromServerWithStartId
    } else if name == "getMatureTime"@ {
        Sel::GetMatureTime
    } else if name == "isReachable"@ {
        Sel::IsReachable
    } else if name == "sendPacket:commandId:"@ {
        Sel::SendPacketCommandId
    } else if name == "sendAllBufferDatas"@ {
        Sel::SendAllBufferDatas
    } else if name == "sendAllBuffDataInNewSceneLoading"@ {
        Sel::SendAllBuffDataInNewSceneLoading
    } else if name == "generateRandomRewardId"@ {
        Sel::GenerateRandomRewardId
    } else if name == "onTaomeeLoginViewDidUnloadWithUserID:password:returnCode:"@ {
        Sel::OnTaomeeLoginViewDidUnloadWithUserIDPasswordReturnCode
    } else if name == "curSceneId"@ {
        Sel::CurSceneId
    } else if name == "winSize"@ {
        Sel::WinSize
    } else if name == "onEnter"@ {
        Sel::OnEnter
    } else if name == "addChild:"@ {
        Sel::AddChild
    } else if name == "addChild:z:"@ {
        Sel::AddChildZ
    } else if name == "addChild:z:tag:"@ {
        Sel::AddChildZTag
    } else if name == "addSubview:"@ {
        Sel::AddSubview
    } else if name == "CheckUserInfoData:"@ {
        Sel::CheckUserInfoData
    } else if name == "addAdventureMapFragment:"@ {
        Sel::AddAdventureMapFragment
    } else if name == "addGold:"@ {
        Sel::AddGold
    } else if name == "addObjectToServer:"@ {
        Sel::AddObjectToServer
    } else if name == "addOperation:"@ {
        Sel::AddOperation
    } else if name == "addVipGold:"@ {
        Sel::AddVipGold
    } else if name == "addXp:"@ {
        Sel::AddXp
    } else if name == "alertView:didDismissWithButtonIndex:"@ {
        Sel::AlertViewDidDismissWithButtonIndex
    } else if name == "allAccounts"@ {
        Sel::AllAccounts
    } else if name == "applicationWillResignActive:"@ {
        Sel::ApplicationWillResignActive
    } else if name == "applicationWillTerminate:"@ {
        Sel::ApplicationWillTerminate
    } else if name == "autoLoginWithUserID:"@ {
        Sel::AutoLoginWithUserID
    } else if name == "availableWorkers"@ {
        Sel::AvailableWorkers
    } else if name == "changeStateTo:withMessage:"@ {
        Sel::ChangeStateToWithMessage
    } else if name == "check"@ {
        Sel::Check
    } else if name == "checkBeyoundLeftCircleBeach:"@ {
        Sel::CheckBeyoundLeftCircleBeach
    } else if name == "checkCooltimeOver"@ {
        Sel::CheckCooltimeOver
    } else if name == "checkInAlreadyUnlockList:"@ {
        Sel::CheckInAlreadyUnlockList
    } else if name == "checkIsUnlockMusic:"@ {
        Sel::CheckIsUnlockMusic
    } else if name == "checkIsVipUser"@ {
        Sel::CheckIsVipUser
    } else if name == "checkRequiredVipLevel:"@ {
        Sel::CheckRequiredVipLevel
    } else if name == "checkUserinfoMd5:"@ {
        Sel::CheckUserinfoMd5
    } else if name == "compareRemoteGameDataWithLocalOne"@ {
        Sel::CompareRemoteGameDataWithLocalOne
    } else if name == "cropWitherHandler:"@ {
        Sel::CropWitherHandler
    } else if name == "curLevel"@ {
        Sel::CurLevel
    } else if name == "currentGameMode"@ {
        Sel::CurrentGameMode
    } else if name == "establishConnection"@ {
        Sel::EstablishConnection
    } else if name == "gainCoin"@ {
        Sel::GainCoin
    } else if name == "gainXP"@ {
        Sel::GainXP
    } else if name == "gameMode"@ {
        Sel::GameMode
    } else if name == "getBuildTime:"@ {
        Sel::GetBuildTime
    } else if name == "getCurLevelCoolTime"@ {
        Sel::GetCurLevelCoolTime
    } else if name == "getCurLevelCooltime:"@ {
        Sel::GetCurLevelCooltime
    } else if name == "getDictionaryWithJsonData:"@ {
        Sel::GetDictionaryWithJsonData
    } else if name == "getGoldSpeedUpObjectMultiple"@ {
        Sel::GetGoldSpeedUpObjectMultiple
    } else if name == "getLastCooldownTime"@ {
        Sel::GetLastCooldownTime
    } else if name == "getLastGameCoolTime"@ {
        Sel::GetLastGameCoolTime
    } else if name == "getLevel"@ {
        Sel::GetLevel
    } else if name == "getLockType4Crop:"@ {
        Sel::GetLockType4Crop
    } else if name == "getLockType4CropWithId:"@ {
        Sel::GetLockType4CropWithId
    } else if name == "getLockType4Decorate:"@ {
        Sel::GetLockType4Decorate
    } else if name == "getLockType4Gift:"@ {
        Sel::GetLockType4Gift
    } else if name == "getLockType4Object:"@ {
        Sel::GetLockType4Object
    } else if name == "getLockType4ShopItem:shop:"@ {
        Sel::GetLockType4ShopItemShop
    } else if name == "getOutCoolTime"@ {
        Sel::GetOutCoolTime
    } else if name == "getServerListWithServiceName:andDelegate:"@ {
        Sel::GetServerListWithServiceNameAndDelegate
    } else if name == "getWitherTime"@ {
        Sel::GetWitherTime
    } else if name == "getXPSpeedUpObjectMultiple"@ {
        Sel::GetXPSpeedUpObjectMultiple
    } else if name == "inRectOfAquaticAreaOrNot:"@ {
        Sel::InRectOfAquaticAreaOrNot
    } else if name == "innerupdate:"@ {
        Sel::Innerupdate
    } else if name == "isConnected"@ {
        Sel::IsConnected
    } else if name == "isHackData"@ {
        Sel::IsHackData
    } else if name == "isNetworkReachable"@ {
        Sel::IsNetworkReachable
    } else if name == "isShowVIPFunctionsButton:"@ {
        Sel::IsShowVIPFunctionsButton
    } else if name == "isUnlockedItem:"@ {
        Sel::IsUnlockedItem
    } else if name == "loadUserInfoData"@ {
        Sel::LoadUserInfoData
    } else if name == "loginWithDeviceInfoAndUserIDInfoInSendType:"@ {
        Sel::LoginWithDeviceInfoAndUserIDInfoInSendType
    } else if name == "mapExtend"@ {
        Sel::MapExtend
    } else if name == "moleUpperLimit"@ {
        Sel::MoleUpperLimit
    } else if name == "onButtonChangeIDSelected:"@ {
        Sel::OnButtonChangeIDSelected
    } else if name == "onLoginMainMenuCommandReceived:"@ {
        Sel::OnLoginMainMenuCommandReceived
    } else if name == "onSharedToSinaWeibo"@ {
        Sel::OnSharedToSinaWeibo
    } else if name == "onSharedToSinaWeiboGetShareReward"@ {
        Sel::OnSharedToSinaWeiboGetShareReward
    } else if name == "open"@ {
        Sel::Open
    } else if name == "responseData"@ {
        Sel::ResponseData
    } else if name == "saveUserinfoToLocal"@ {
        Sel::SaveUserinfoToLocal
    } else if name == "sendRequest:"@ {
        Sel::SendRequest
    } else if name == "setCurrentProduceMoleNums:"@ {
        Sel::SetCurrentProduceMoleNums
    } else if name == "setMapFragments:"@ {
        Sel::SetMapFragments
    } else if name == "setModObjectToServer:"@ {
        Sel::SetModObjectToServer
    } else if name == "setSocketFromStreamsAndReturnError:"@ {
        Sel::SetSocketFromStreamsAndReturnError
    } else if name == "setUserID:"@ {
        Sel::SetUserID
    } else if name == "shellsNeeded"@ {
        Sel::ShellsNeeded
    } else if name == "showCheatWarningMessage"@ {
        Sel::ShowCheatWarningMessage
    } else if name == "showLayer"@ {
        Sel::ShowLayer
    } else if name == "showMultiLoginErrorMessageInNewScene"@ {
        Sel::ShowMultiLoginErrorMessageInNewScene
    } else if name == "showNetConnectErrorMessageWithRetryButton"@ {
        Sel::ShowNetConnectErrorMessageWithRetryButton
    } else if name == "showNoNetConnectErrorMessage"@ {
        Sel::ShowNoNetConnectErrorMessage
    } else if name == "start"@ {
        Sel::Start
    } else if name == "startGame"@ {
        Sel::StartGame
    } else if name == "state"@ {
        Sel::State
    } else if name == "taomeePassword"@ {
        Sel::TaomeePassword
    } else if name == "totalRooms"@ {
        Sel::TotalRooms
    } else if name == "totalWorkers"@ {
        Sel::TotalWorkers
    } else if name == "unlocked:"@ {
        Sel::Unlocked
    } else if name == "update:"@ {
        Sel::Update
    } else if name == "updateGameDateForEnterNewSceneWithTarget:andCallback:"@ {
        Sel::UpdateGameDateForEnterNewSceneWithTargetAndCallback
    } else if name == "updateLoading:"@ {
        Sel::UpdateLoading
    } else if name == "vipLevelWithNewType"@ {
        Sel::VipLevelWithNewType
    } else if name == "vipValue"@ {
        Sel::VipValue
    } else {
        Sel::Other
    }
}

impl Sel {
    /// The selector with a name.
    pub fn of(name: &str) -> (r: Sel)
        ensures
            r == sel_of(name@),
    {
        if same(name, "drawScene") {
            Sel::DrawScene
        } else if same(name, "mainLoop") {
            Sel::MainLoop
        } else if same(name, "moleHudTick") {
            Sel::MoleHudTick
        } else if same(name, "showWithTarget:") {
            Sel::ShowWithTarget
        } else if same(name, "showWithTarget:selector:") {
            Sel::ShowWithTargetSelector
        } else if same(name, "checkPromptForLoadingNewApp") {
            Sel::CheckPromptForLoadingNewApp
        } else if same(name, "showMoreGameOnRootView:withScale:andOrientationSupported:") {
            Sel::ShowMoreGameOnRootViewWithScaleAndOrientationSupported
        } else if same(name, "showMoreGameOnRootView:withScale:") {
            Sel::ShowMoreGameOnRootViewWithScale
        } else if same(name, "showMoreGameWithScale:andOrientationSupported:") {
            Sel::ShowMoreGameWithScaleAndOrientationSupported
        } else if same(name, "showMoreGameWithScale:") {
            Sel::ShowMoreGameWithScale
        } else if same(name, "showMoreGameWithUrl:") {
            Sel::ShowMoreGameWithUrl
        } else if same(name, "onServerListResult:") {
            Sel::OnServerListResult
        } else if same(name, "showAccountManagerViewWithDelegate:andUserID:") {
            Sel::ShowAccountManagerViewWithDelegateAndUserID
        } else if same(name, "enterLoadingWithDelegate:nextSceneId:") {
            Sel::EnterLoadingWithDelegateNextSceneId
        } else if same(name, "loadNewScene:") {
            Sel::LoadNewScene
        } else if same(name, "gobackMainVillage") {
            Sel::GobackMainVillage
        } else if same(name, "deleteObjectFromServer:") {
            Sel::DeleteObjectFromServer
        } else if same(name, "startNewSceneFrom:toScene:") {
            Sel::StartNewSceneFromToScene
        } else if same(name, "moleIslandTick") {
            Sel::MoleIslandTick
        } else if same(name, "getCurrentServerTime") {
            Sel::GetCurrentServerTime
        } else if same(name, "enterNewIslands") {
            Sel::EnterNewIslands
        } else if same(name, "getAllObjectsListFromServerWithStartId:") {
            Sel::GetAllObjectsListFromServerWithStartId
        } else if same(name, "getMatureTime") {
            Sel::GetMatureTime
        } else if same(name, "isReachable") {
            Sel::IsReachable
        } else if same(name, "sendPacket:commandId:") {
            Sel::SendPacketCommandId
        } else if same(name, "sendAllBufferDatas") {
            Sel::SendAllBufferDatas
        } else if same(name, "sendAllBuffDataInNewSceneLoading") {
            Sel::SendAllBuffDataInNewSceneLoading
        } else if same(name, "generateRandomRewardId") {
            Sel::GenerateRandomRewardId
        } else if same(name, "onTaomeeLoginViewDidUnloadWithUserID:password:returnCode:") {
            Sel::OnTaomeeLoginViewDidUnloadWithUserIDPasswordReturnCode
        } else if same(name, "curSceneId") {
            Sel::CurSceneId
        } else if same(name, "winSize") {
            Sel::WinSize
        } else if same(name, "onEnter") {
            Sel::OnEnter
        } else if same(name, "addChild:") {
            Sel::AddChild
        } else if same(name, "addChild:z:") {
            Sel::AddChildZ
        } else if same(name, "addChild:z:tag:") {
            Sel::AddChildZTag
        } else if same(name, "addSubview:") {
            Sel::AddSubview
        } else if same(name, "CheckUserInfoData:") {
            Sel::CheckUserInfoData
        } else if same(name, "addAdventureMapFragment:") {
            Sel::AddAdventureMapFragment
        } else if same(name, "addGold:") {
            Sel::AddGold
        } else if same(name, "addObjectToServer:") {
            Sel::AddObjectToServer
        } else if same(name, "addOperation:") {
            Sel::AddOperation
        } else if same(name, "addVipGold:") {
            Sel::AddVipGold
        } else if same(name, "addXp:") {
            Sel::AddXp
        } else if same(name, "alertView:didDismissWithButtonIndex:") {
            Sel::AlertViewDidDismissWithButtonIndex
        } else if same(name, "allAccounts") {
            Sel::AllAccounts
        } else if same(name, "applicationWillResignActive:") {
            Sel::ApplicationWillResignActive
        } else if same(name, "applicationWillTerminate:") {
            Sel::ApplicationWillTerminate
        } else if same(name, "autoLoginWithUserID:") {
            Sel::AutoLoginWithUserID
        } else if same(name, "availableWorkers") {
            Sel::AvailableWorkers
        } else if same(name, "changeStateTo:withMessage:") {
            Sel::ChangeStateToWithMessage
        } else if same(name, "check") {
            Sel::Check
        } else if same(name, "checkBeyoundLeftCircleBeach:") {
            Sel::CheckBeyoundLeftCircleBeach
        } else if same(name, "checkCooltimeOver") {
            Sel::CheckCooltimeOver
        } else if same(name, "checkInAlreadyUnlockList:") {
            Sel::CheckInAlreadyUnlockList
        } else if same(name, "checkIsUnlockMusic:") {
            Sel::CheckIsUnlockMusic
        } else if same(name, "checkIsVipUser") {
            Sel::CheckIsVipUser
        } else if same(name, "checkRequiredVipLevel:") {
            Sel::CheckRequiredVipLevel
        } else if same(name, "checkUserinfoMd5:") {
            Sel::CheckUserinfoMd5
        } else if same(name, "compareRemoteGameDataWithLocalOne") {
            Sel::CompareRemoteGameDataWithLocalOne
        } else if same(name, "cropWitherHandler:") {
            Sel::CropWitherHandler
        } else if same(name, "curLevel") {
            Sel::CurLevel
        } else if same(name, "currentGameMode") {
            Sel::CurrentGameMode
        } else if same(name, "establishConnection") {
            Sel::EstablishConnection
        } else if same(name, "gainCoin") {
            Sel::GainCoin
        } else if same(name, "gainXP") {
            Sel::GainXP
        } else if same(name, "gameMode") {
            Sel::GameMode
        } else if same(name, "getBuildTime:") {
            Sel::GetBuildTime
        } else if same(name, "getCurLevelCoolTime") {
            Sel::GetCurLevelCoolTime
        } else if same(name, "getCurLevelCooltime:") {
            Sel::GetCurLevelCooltime
        } else if same(name, "getDictionaryWithJsonData:") {
            Sel::GetDictionaryWithJsonData
        } else if same(name, "getGoldSpeedUpObjectMultiple") {
            Sel::GetGoldSpeedUpObjectMultiple
        } else if same(name, "getLastCooldownTime") {
            Sel::GetLastCooldownTime
        } else if same(name, "getLastGameCoolTime") {
            Sel::GetLastGameCoolTime
        } else if same(name, "getLevel") {
            Sel::GetLevel
        } else if same(name, "getLockType4Crop:") {
            Sel::GetLockType4Crop
        } else if same(name, "getLockType4CropWithId:") {
            Sel::GetLockType4CropWithId
        } else if same(name, "getLockType4Decorate:") {
            Sel::GetLockType4Decorate
        } else if same(name, "getLockType4Gift:") {
            Sel::GetLockType4Gift
        } else if same(name, "getLockType4Object:") {
            Sel::GetLockType4Object
        } else if same(name, "getLockType4ShopItem:shop:") {
            Sel::GetLockType4ShopItemShop
        } else if same(name, "getOutCoolTime") {
            Sel::GetOutCoolTime
        } else if same(name, "getServerListWithServiceName:andDelegate:") {
            Sel::GetServerListWithServiceNameAndDelegate
        } else if same(name, "getWitherTime") {
            Sel::GetWitherTime
        } else if same(name, "getXPSpeedUpObjectMultiple") {
            Sel::GetXPSpeedUpObjectMultiple
        } else if same(name, "inRectOfAquaticAreaOrNot:") {
            Sel::InRectOfAquaticAreaOrNot
        } else if same(name, "innerupdate:") {
            Sel::Innerupdate
        } else if same(name, "isConnected") {
            Sel::IsConnected
        } else if same(name, "isHackData") {
            Sel::IsHackData
        } else if same(name, "isNetworkReachable") {
            Sel::IsNetworkReachable
        } else if same(name, "isShowVIPFunctionsButton:") {
            Sel::IsShowVIPFunctionsButton
        } else if same(name, "isUnlockedItem:") {
            Sel::IsUnlockedItem
        } else if same(name, "loadUserInfoData") {
            Sel::LoadUserInfoData
        } else if same(name, "loginWithDeviceInfoAndUserIDInfoInSendType:") {
            Sel::LoginWithDeviceInfoAndUserIDInfoInSendType
        } else if same(name, "mapExtend") {
            Sel::MapExtend
        } else if same(name, "moleUpperLimit") {
            Sel::MoleUpperLimit
        } else if same(name, "onButtonChangeIDSelected:") {
            Sel::OnButtonChangeIDSelected
        } else if same(name, "onLoginMainMenuCommandReceived:") {
            Sel::OnLoginMainMenuCommandReceived
        } else if same(name, "onSharedToSinaWeibo") {
            Sel::OnSharedToSinaWeibo
        } else if same(name, "onSharedToSinaWeiboGetShareReward") {
            Sel::OnSharedToSinaWeiboGetShareReward
        } else if same(name, "open") {
            Sel::Open
        } else if same(name, "responseData") {
            Sel::ResponseData
        } else if same(name, "saveUserinfoToLocal") {
            Sel::SaveUserinfoToLocal
        } else if same(name, "sendRequest:") {
            Sel::SendRequest
        } else if same(name, "setCurrentProduceMoleNums:") {
            Sel::SetCurrentProduceMoleNums
        } else if same(name, "setMapFragments:") {
            Sel::SetMapFragments
        } else if same(name, "setModObjectToServer:") {
            Sel::SetModObjectToServer
        } else if same(name, "setSocketFromStreamsAndReturnError:") {
            Sel::SetSocketFromStreamsAndReturnError
        } else if same(name, "setUserID:") {
            Sel::SetUserID
        } else if same(name, "shellsNeeded") {
            Sel::ShellsNeeded
        } else if same(name, "showCheatWarningMessage") {
            Sel::ShowCheatWarningMessage
        } else if same(name, "showLayer") {
            Sel::ShowLayer
        } else if same(name, "showMultiLoginErrorMessageInNewScene") {
            Sel::ShowMultiLoginErrorMessageInNewScene
        } else if same(name, "showNetConnectErrorMessageWithRetryButton") {
            Sel::ShowNetConnectErrorMessageWithRetryButton
        } else if same(name, "showNoNetConnectErrorMessage") {
            Sel::ShowNoNetConnectErrorMessage
        } else if same(name, "start") {
            Sel::Start
        } else if same(name, "startGame") {
            Sel::StartGame
        } else if same(name, "state") {
            Sel::State
        } else if same(name, "taomeePassword") {
            Sel::TaomeePassword
        } else if same(name, "totalRooms") {
            Sel::TotalRooms
        } else if same(name, "totalWorkers") {
            Sel::TotalWorkers
        } else if same(name, "unlocked:") {
            Sel::Unlocked
        } else if same(name, "update:") {
            Sel::Update
        } else if same(name, "updateGameDateForEnterNewSceneWithTarget:andCallback:") {
            Sel::UpdateGameDateForEnterNewSceneWithTargetAndCallback
        } else if same(name, "updateLoading:") {
            Sel::UpdateLoading
        } else if same(name, "vipLevelWithNewType") {
            Sel::VipLevelWithNewType
        } else if same(name, "vipValue") {
            Sel::VipValue
        } else {
            Sel::Other
        }
    }
}

/// A message to the game, as far as the hooks tell messages apart.
#[derive(Clone, Copy, Debug, PartialEq, Eq, Structural)]
pub struct Message {
    pub class: Class,
    pub sel: Sel,
    /// The selector begins with `showMoreGame`.
    pub more_game: bool,
    /// The selector begins with `set` or `add`.
    pub sets: bool,
    /// The selector ends with `InNewScene:`.
    pub in_new_scene: bool,
}

/// The message with these names.
pub open spec fn message_of(class: Seq<char>, sel: Seq<char>) -> Message {
    Message {
        class: class_of(class),
        sel: sel_of(sel),
        more_game: "showMoreGame"@.is_prefix_of(sel),
        sets: "set"@.is_prefix_of(sel) || "add"@.is_prefix_of(sel),
        in_new_scene: "InNewScene:"@.is_suffix_of(sel),
    }
}

impl Message {
    /// The message with these names.
    pub fn of(class: &str, sel: &str) -> (r: Message)
        ensures
            r == message_of(class@, sel@),
    {
        Message {
            class: Class::of(class),
            sel: Sel::of(sel),
            more_game: starts_with(sel, "showMoreGame"),
            sets: starts_with(sel, "set") || starts_with(sel, "add"),
            in_new_scene: ends_with(sel, "InNewScene:"),
        }
    }
}

} // verus!
