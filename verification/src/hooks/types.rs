//! What the hooks take and give. A hook decides from the message, the
//! registers and the state; where it has to know or do something in the game,
//! it asks for a task, and goes on at a stage once the task was done.

use vstd::prelude::*;

verus! {

/// Registers of a message: the receiver in `r0`, the arguments from `r2` on,
/// the return address in `lr`. A message that returns a structure has the
/// place for it in `r0` and the receiver in `r1`.
#[derive(Clone, Copy, Debug, PartialEq, Eq, Structural)]
pub struct Regs {
    pub r0: u32,
    pub r1: u32,
    pub r2: u32,
    pub r3: u32,
    pub lr: u32,
}

/// What the hooks know of the program they run in.
#[derive(Clone, Copy, Debug, PartialEq, Eq, Structural)]
pub struct Host {
    /// The game may use the network.
    pub network: bool,
    /// The account to log in with.
    pub mimi: Option<u32>,
    /// The game's own account menu is used.
    pub account_menu: bool,
    /// Panels are laid out for a 1024 by 768 screen.
    pub ui43: bool,
    pub widescreen: bool,
    /// A machine without sensors of its own.
    pub desktop: bool,
    pub real_keychain: bool,
    /// A password was given.
    pub password: bool,
    pub fix_mapextend: bool,
    pub hud: bool,
    /// Whole seconds since 2001-01-01.
    pub server_time: u32,
    /// Nanoseconds of a clock that never goes back.
    pub clock: u64,
}

/// A text of a message box.
#[derive(Clone, Copy, Debug, PartialEq, Eq, Structural)]
pub enum BoxText {
    /// The game's own text for a missing connection.
    NoConnection,
    /// How to tilt the device with a mouse or a controller.
    TiltHint,
    /// The account is chosen outside the game.
    AccountHint,
    /// The server refused the account or the password.
    LoginRefused,
}

/// Something to be known from the game or done in it.
#[derive(Clone, Copy, Debug, PartialEq, Eq, Structural)]
pub enum Task {
    /// Bring the patches of the game's code in line with the switches.
    ApplyPatches,
    /// The size the game remembers for its window, where it is upright.
    ReadWinSize { director: u32 },
    CenterPanel { layer: u32 },
    AlignBackground { child: u32 },
    StretchChild { parent: u32, child: u32 },
    MoveSubview { parent: u32, child: u32 },
    /// The developer's tools start.
    DevStartup,
    /// Whether one of the other modules takes the message.
    AskModules,
    GuardUserInfo { game_data: u32 },
    SyncUpgradePercent,
    /// Show a box; `target` is called back where it is not 0.
    ShowBox { text: BoxText, target: u32 },
    /// Where the button for another account is enabled, if it can be used.
    ReadChangeIdGuard { scene: u32 },
    ClearByte { at: u32 },
    /// The error and the command of a reply.
    ReadReplyHeader { header: u32 },
    InjectServerList { manager: u32, delegate: u32 },
    MakePassword,
    MakeEmptyList,
    /// The dictionary that a reply's text stands for, if it has any entry.
    ParseReply { data: u32 },
    /// Whether the request was taken over.
    ProxyRequest { request: u32 },
    /// The reply that was fetched for the request.
    FetchedReply { request: u32 },
    SetReachable { manager: u32 },
    UpdateHud,
    FireLogin,
    LoadTarget { layer: u32 },
    DriveStreams,
    DrivePassport,
    ScheduleHud,
    UploadMap,
    ShowLogin { scene: u32 },
    /// Whether a message box would be seen.
    AskBoxFree,
    ReadWord { at: u32 },
    ReadProduceCount { apartment: u32 },
    AddWorkers { count: i32 },
    FlushIsland,
    ScheduleIslandTick,
    WriteBackObject { object: u32 },
    DeleteObject { object: u32 },
    /// The mode of the village, and whether a change of scene is under way.
    ReadEntryGates,
    ScheduleEntry { target: u32 },
    BuildIsland,
    /// A text with one digit.
    MakeDigit { digit: i32 },
    ReadMapExtend { user_info: u32 },
    ReadGain { game: u32, coin: bool },
    MatureFarm { farm: u32 },
}

/// Where a hook goes on.
#[derive(Clone, Copy, Debug, PartialEq, Eq, Structural)]
pub enum Stage {
    /// The message goes to the game.
    Forward,
    /// The message is answered.
    Finish,
    /// The message is answered with 0.
    FinishZero,
    /// The message is answered with the word that was asked for.
    FinishWord,
    Display,
    WinSize,
    AddChild,
    Modules,
    AfterModules,
    WeiboBox,
    TiltBox,
    ChangeId,
    AccountBox,
    ReplyHeader,
    ParsedReply,
    ProxiedRequest,
    FetchedReply,
    FrameLoad,
    FrameStreams,
    FramePassport,
    FrameHud,
    FrameUpload,
    FrameLogin,
    FrameRefused,
    FrameBox,
    Island,
    SceneSeen,
    Hire,
    Hired { before: i32 },
    LoadingStep,
    IslandFlags,
    TickTail,
    LeftIsland,
    SceneId,
    MoleLimit,
    Dirtied,
    EntryGates,
    EntryScheduled,
    MapExtend,
    Gain,
}

/// What a task found.
#[derive(Clone, Copy, Debug, PartialEq, Eq, Structural)]
pub enum Answer {
    Nothing,
    Flag(bool),
    Word(u32),
    Pair(u32, u32),
}

impl Answer {
    /// Whether the answer is yes.
    pub open spec fn is_yes(self) -> bool {
        self == Answer::Flag(true)
    }

    /// Whether the answer is yes.
    pub fn yes(self) -> (r: bool)
        ensures
            r == self.is_yes(),
    {
        match self {
            Answer::Flag(b) => b,
            _ => false,
        }
    }

    /// The word of the answer, 0 where there is none.
    pub open spec fn number(self) -> u32 {
        match self {
            Answer::Word(w) => w,
            _ => 0,
        }
    }

    /// The word of the answer, 0 where there is none.
    pub fn word(self) -> (r: u32)
        ensures
            r == self.number(),
    {
        match self {
            Answer::Word(w) => w,
            _ => 0,
        }
    }
}

/// What becomes of a message.
#[derive(Clone, Copy, Debug, PartialEq, Eq, Structural)]
pub enum Flow {
    /// It is answered; the registers hold the answer.
    Handled,
    /// It goes to the game, with the registers as they are.
    Forward,
    /// It is answered by the size with these bits, written to `at`.
    ReturnSize { at: u32, width: u32, height: u32 },
    /// A task has to be done; the registers `r0` to `r3` are kept meanwhile.
    Perform(Task, Stage),
}

/// The signed number that a register holds.
pub open spec fn signed(v: u32) -> i32 {
    if v < 0x8000_0000 {
        v as i32
    } else {
        (v - 0x1_0000_0000) as i32
    }
}

/// The signed number that a register holds.
pub fn to_signed(v: u32) -> (r: i32)
    ensures
        r == signed(v),
{
    if v < 0x8000_0000 {
        v as i32
    } else {
        (v as i64 - 0x1_0000_0000) as i32
    }
}

/// A signed number as a register holds it.
pub open spec fn word_of(v: i32) -> u32 {
    if v >= 0 {
        v as u32
    } else {
        (v + 0x1_0000_0000) as u32
    }
}

/// A signed number as a register holds it.
pub fn to_word(v: i32) -> (r: u32)
    ensures
        r == word_of(v),
{
    if v >= 0 {
        v as u32
    } else {
        (v as i64 + 0x1_0000_0000) as u32
    }
}

/// The answer is a word.
pub open spec fn give(regs: Regs, v: u32) -> (Flow, Regs) {
    (Flow::Handled, Regs { r0: v, ..regs })
}

/// The answer is a double-precision number with these bits, low word first.
pub open spec fn give_double(regs: Regs, low: u32, high: u32) -> (Flow, Regs) {
    (Flow::Handled, Regs { r0: low, r1: high, ..regs })
}

/// The low half of the bits of a double-precision number.
pub open spec fn low_word(bits: u64) -> u32 {
    (bits % 0x1_0000_0000) as u32
}

/// The high half of the bits of a double-precision number.
pub open spec fn high_word(bits: u64) -> u32 {
    (bits / 0x1_0000_0000) as u32
}

/// Writes a double-precision answer, given by its bits, into `r0` and `r1`.
pub fn ret_double(regs: &mut Regs, bits: u64)
    ensures
        *final(regs) == (Regs { r0: low_word(bits), r1: high_word(bits), ..*old(regs) }),
{
    regs.r0 = (bits % 0x1_0000_0000) as u32;
    regs.r1 = (bits / 0x1_0000_0000) as u32;
}

/// A register holds a signed number as its remainder by 2^32, and both ways
/// lead back. A number of double precision is held in two words.
pub proof fn law_words(v: u32, n: i32, bits: u64)
    ensures
        v < 0x8000_0000 ==> signed(v) == v,
        v >= 0x8000_0000 ==> signed(v) == v - 0x1_0000_0000,
        signed(word_of(n)) == n,
        word_of(signed(v)) == v,
        high_word(bits) * 0x1_0000_0000 + low_word(bits) == bits,
{
}

} // verus!
