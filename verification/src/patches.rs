//! Patches of the game's code. Each switch writes the changed bytes when it is
//! turned on and the game's own bytes when it is turned off.

use vstd::prelude::*;
use crate::cheats::{CheatKey, Cheats};

verus! {

/// What a patch is for.
#[derive(Clone, Copy, Debug, PartialEq, Eq, Structural)]
pub enum CrackGroup {
    Jailbreak,
    DivineFix,
    Holiday,
    StoreVip,
    Island,
    ParseSkip,
    MapSync,
}

/// A patch: the game's bytes at an address, and those to put in their place.
#[derive(Debug)]
pub struct CrackPatch {
    pub vaddr: u32,
    pub group: CrackGroup,
    pub vanilla: Vec<u8>,
    pub cracked: Vec<u8>,
}

/// A patch as a mathematical value.
#[verifier::ext_equal]
pub struct PatchV {
    pub vaddr: u32,
    pub group: CrackGroup,
    pub vanilla: Seq<u8>,
    pub cracked: Seq<u8>,
}

impl View for CrackPatch {
    type V = PatchV;

    open spec fn view(&self) -> PatchV {
        PatchV {
            vaddr: self.vaddr,
            group: self.group,
            vanilla: self.vanilla@,
            cracked: self.cracked@,
        }
    }
}

pub const AT_37650_GAME: [u8; 2] = [
    0x74, 0xd0,
];

pub const AT_37650_PATCH: [u8; 2] = [
    0x00, 0xbf,
];

pub const AT_6F1EA_GAME: [u8; 4] = [
    0x15, 0xf0, 0xb2, 0xcf,
];

pub const AT_6F1EA_PATCH: [u8; 4] = [
    0x4f, 0xf0, 0x00, 0x00,
];

pub const AT_21638E_GAME: [u8; 8] = [
    0x10, 0xf0, 0xff, 0x0f, 0x00, 0xf0, 0x91, 0x80,
];

pub const AT_21638E_PATCH: [u8; 8] = [
    0x00, 0xbf, 0x00, 0xbf, 0x00, 0xbf, 0x00, 0xbf,
];

pub const AT_21718E_GAME: [u8; 8] = [
    0x10, 0xf0, 0xff, 0x0f, 0x00, 0xf0, 0x95, 0x80,
];

pub const AT_21718E_PATCH: [u8; 8] = [
    0x00, 0xbf, 0x00, 0xbf, 0x00, 0xbf, 0x00, 0xbf,
];

pub const AT_F4102_GAME: [u8; 93] = [
    0x01, 0x2b, 0x40, 0xf0, 0x70, 0x81, 0x47, 0xf6, 0x50, 0x40, 0xc0, 0xf2, 0x9e, 0x00,
    0x48, 0xf2, 0xfe, 0x46, 0xc0, 0xf2, 0x9f, 0x06, 0x78, 0x44, 0x7e, 0x44, 0x05, 0x68,
    0x30, 0x68, 0x29, 0x46, 0x91, 0xf3, 0x16, 0xe0, 0x47, 0xf6, 0xae, 0x51, 0xc0, 0xf2,
    0x9e, 0x01, 0x79, 0x44, 0x09, 0x68, 0x91, 0xf3, 0x0e, 0xe0, 0x10, 0xf0, 0xff, 0x0f,
    0x00, 0xf0, 0x59, 0x81, 0x48, 0xf2, 0xac, 0x50, 0x29, 0x46, 0xc0, 0xf2, 0x9f, 0x00,
    0x78, 0x44, 0x00, 0x68, 0x91, 0xf3, 0x00, 0xe0, 0x48, 0xf2, 0x34, 0x61, 0xc0, 0xf2,
    0x9e, 0x01, 0x79, 0x44, 0x09, 0x68, 0x90, 0xf3, 0xf8,
];

pub const AT_F4102_PATCH: [u8; 93] = [
    0x28, 0xe0, 0x47, 0xf6, 0x5c, 0x50, 0xc0, 0xf2, 0x9e, 0x00, 0x48, 0xf6, 0x6a, 0x32,
    0xc0, 0xf2, 0x9f, 0x02, 0x78, 0x44, 0x7a, 0x44, 0x01, 0x68, 0x10, 0x68, 0x91, 0xf3,
    0x18, 0xe0, 0x40, 0xf2, 0x04, 0x41, 0xc0, 0xf2, 0xa1, 0x01, 0x79, 0x44, 0x0e, 0x68,
    0x4a, 0xf6, 0x90, 0x51, 0xc0, 0xf2, 0x9e, 0x01, 0x79, 0x44, 0xa0, 0x51, 0xa0, 0x59,
    0x09, 0x68, 0x91, 0xf3, 0x08, 0xe0, 0x49, 0xf2, 0xf4, 0x60, 0xc0, 0xf2, 0x9e, 0x00,
    0x4a, 0xf6, 0xb2, 0x52, 0xc0, 0xf2, 0x9e, 0x02, 0x78, 0x44, 0x7a, 0x44, 0x62, 0xe0,
    0x01, 0x2b, 0x40, 0xf0, 0x46, 0x81, 0xd2, 0xe7, 0xe1,
];

pub const AT_2393EC_GAME: [u8; 2] = [
    0x23, 0xd0,
];

pub const AT_2393EC_PATCH: [u8; 2] = [
    0x00, 0xbf,
];

pub const AT_23940A_GAME: [u8; 2] = [
    0x1a, 0xd0,
];

pub const AT_23940A_PATCH: [u8; 2] = [
    0x00, 0xbf,
];

pub const AT_239429_GAME: [u8; 1] = [
    0xd1,
];

pub const AT_239429_PATCH: [u8; 1] = [
    0xe0,
];

pub const AT_3B22C0_GAME: [u8; 2] = [
    0x2b, 0xd1,
];

pub const AT_3B22C0_PATCH: [u8; 2] = [
    0x00, 0xbf,
];

pub const AT_2FB9EC_GAME: [u8; 1] = [
    0x06,
];

pub const AT_2FB9EC_PATCH: [u8; 1] = [
    0x00,
];

pub const AT_4850CA_GAME: [u8; 1] = [
    0x07,
];

pub const AT_4850CA_PATCH: [u8; 1] = [
    0x00,
];

pub const AT_4F6D00_GAME: [u8; 16] = [
    0x45, 0xf2, 0xd8, 0x30, 0xc0, 0xf2, 0x5e, 0x00, 0x45, 0xf6, 0xa2, 0x1a, 0xc0, 0xf2,
    0x5f, 0x0a,
];

pub const AT_4F6D00_PATCH: [u8; 16] = [
    0x40, 0xf2, 0x00, 0x00, 0xc0, 0xf2, 0x00, 0x00, 0x5c, 0xe0, 0x00, 0xbf, 0x00, 0xbf,
    0x00, 0xbf,
];

pub const AT_562C16_GAME: [u8; 1] = [
    0x07,
];

pub const AT_562C16_PATCH: [u8; 1] = [
    0x00,
];

pub const AT_5757D8_GAME: [u8; 1] = [
    0x01,
];

pub const AT_5757D8_PATCH: [u8; 1] = [
    0x00,
];

pub const AT_606BB0_GAME: [u8; 4] = [
    0x04, 0x00, 0xa0, 0xe1,
];

pub const AT_606BB0_PATCH: [u8; 4] = [
    0x00, 0x00, 0xa0, 0xe3,
];

pub const AT_6B60D6_GAME: [u8; 2] = [
    0x05, 0xd0,
];

pub const AT_6B60D6_PATCH: [u8; 2] = [
    0x00, 0xbf,
];

pub const AT_74C984_GAME: [u8; 1] = [
    0x01,
];

pub const AT_74C984_PATCH: [u8; 1] = [
    0x00,
];

pub const AT_7C8DE6_GAME: [u8; 1] = [
    0x01,
];

pub const AT_7C8DE6_PATCH: [u8; 1] = [
    0x00,
];

pub const AT_7C8E1C_GAME: [u8; 1] = [
    0x01,
];

pub const AT_7C8E1C_PATCH: [u8; 1] = [
    0x00,
];

pub const AT_85AAA0_GAME: [u8; 13] = [
    0x01, 0x26, 0x2a, 0xf0, 0x56, 0xeb, 0x10, 0xf0, 0xff, 0x0f, 0x18, 0xbf, 0x01,
];

pub const AT_85AAA0_PATCH: [u8; 13] = [
    0x00, 0x26, 0x2a, 0xf0, 0x56, 0xeb, 0x10, 0xf0, 0xff, 0x0f, 0x18, 0xbf, 0x00,
];

pub const AT_768FA_GAME: [u8; 4] = [
    0x42, 0xf0, 0x97, 0x83,
];

pub const AT_768FA_PATCH: [u8; 4] = [
    0x00, 0xbf, 0x00, 0xbf,
];

/// The number of patches.
pub const PATCH_COUNT: usize = 21;

pub open spec fn patch_of(vaddr: u32, group: CrackGroup, vanilla: Seq<u8>, cracked: Seq<u8>) -> PatchV {
    PatchV { vaddr, group, vanilla, cracked }
}

/// The patch with a number.
pub open spec fn patch_at(i: int) -> PatchV {
    if i == 0 {
        patch_of(0x37650, CrackGroup::Island, AT_37650_GAME@, AT_37650_PATCH@)
    } else if i == 1 {
        patch_of(0x6f1ea, CrackGroup::ParseSkip, AT_6F1EA_GAME@, AT_6F1EA_PATCH@)
    } else if i == 2 {
        patch_of(0x21638e, CrackGroup::DivineFix, AT_21638E_GAME@, AT_21638E_PATCH@)
    } else if i == 3 {
        patch_of(0x21718e, CrackGroup::DivineFix, AT_21718E_GAME@, AT_21718E_PATCH@)
    } else if i == 4 {
        patch_of(0xf4102, CrackGroup::DivineFix, AT_F4102_GAME@, AT_F4102_PATCH@)
    } else if i == 5 {
        patch_of(0x2393ec, CrackGroup::Holiday, AT_2393EC_GAME@, AT_2393EC_PATCH@)
    } else if i == 6 {
        patch_of(0x23940a, CrackGroup::Holiday, AT_23940A_GAME@, AT_23940A_PATCH@)
    } else if i == 7 {
        patch_of(0x239429, CrackGroup::Holiday, AT_239429_GAME@, AT_239429_PATCH@)
    } else if i == 8 {
        patch_of(0x3b22c0, CrackGroup::StoreVip, AT_3B22C0_GAME@, AT_3B22C0_PATCH@)
    } else if i == 9 {
        patch_of(0x2fb9ec, CrackGroup::Jailbreak, AT_2FB9EC_GAME@, AT_2FB9EC_PATCH@)
    } else if i == 10 {
        patch_of(0x4850ca, CrackGroup::Jailbreak, AT_4850CA_GAME@, AT_4850CA_PATCH@)
    } else if i == 11 {
        patch_of(0x4f6d00, CrackGroup::Jailbreak, AT_4F6D00_GAME@, AT_4F6D00_PATCH@)
    } else if i == 12 {
        patch_of(0x562c16, CrackGroup::Jailbreak, AT_562C16_GAME@, AT_562C16_PATCH@)
    } else if i == 13 {
        patch_of(0x5757d8, CrackGroup::Jailbreak, AT_5757D8_GAME@, AT_5757D8_PATCH@)
    } else if i == 14 {
        patch_of(0x606bb0, CrackGroup::Jailbreak, AT_606BB0_GAME@, AT_606BB0_PATCH@)
    } else if i == 15 {
        patch_of(0x6b60d6, CrackGroup::Jailbreak, AT_6B60D6_GAME@, AT_6B60D6_PATCH@)
    } else if i == 16 {
        patch_of(0x74c984, CrackGroup::Jailbreak, AT_74C984_GAME@, AT_74C984_PATCH@)
    } else if i == 17 {
        patch_of(0x7c8de6, CrackGroup::Jailbreak, AT_7C8DE6_GAME@, AT_7C8DE6_PATCH@)
    } else if i == 18 {
        patch_of(0x7c8e1c, CrackGroup::Jailbreak, AT_7C8E1C_GAME@, AT_7C8E1C_PATCH@)
    } else if i == 19 {
        patch_of(0x85aaa0, CrackGroup::Jailbreak, AT_85AAA0_GAME@, AT_85AAA0_PATCH@)
    } else {
        patch_of(0x768fa, CrackGroup::MapSync, AT_768FA_GAME@, AT_768FA_PATCH@)
    }
}

fn bytes_of<const N: usize>(a: &[u8; N]) -> (r: Vec<u8>)
    ensures
        r@ == a@,
{
    let mut r: Vec<u8> = Vec::new();
    let mut i: usize = 0;
    while i < N
        invariant
            i <= N,
            r@ =~= a@.take(i as int),
        decreases N - i,
    {
        r.push(a[i]);
        i = i + 1;
    }
    assert(r@ =~= a@);
    r
}

/// The patch with a number.
pub fn crack_patch(i: usize) -> (r: CrackPatch)
    requires
        i < PATCH_COUNT,
    ensures
        r@ == patch_at(i as int),
{
    if i == 0 {
        CrackPatch {
            vaddr: 0x37650,
            group: CrackGroup::Island,
            vanilla: bytes_of(&AT_37650_GAME),
            cracked: bytes_of(&AT_37650_PATCH),
        }
    } else if i == 1 {
        CrackPatch {
            vaddr: 0x6f1ea,
            group: CrackGroup::ParseSkip,
            vanilla: bytes_of(&AT_6F1EA_GAME),
            cracked: bytes_of(&AT_6F1EA_PATCH),
        }
    } else if i == 2 {
        CrackPatch {
            vaddr: 0x21638e,
            group: CrackGroup::DivineFix,
            vanilla: bytes_of(&AT_21638E_GAME),
            cracked: bytes_of(&AT_21638E_PATCH),
        }
    } else if i == 3 {
        CrackPatch {
            vaddr: 0x21718e,
            group: CrackGroup::DivineFix,
            vanilla: bytes_of(&AT_21718E_GAME),
            cracked: bytes_of(&AT_21718E_PATCH),
        }
    } else if i == 4 {
        CrackPatch {
            vaddr: 0xf4102,
            group: CrackGroup::DivineFix,
            vanilla: bytes_of(&AT_F4102_GAME),
            cracked: bytes_of(&AT_F4102_PATCH),
        }
    } else if i == 5 {
        CrackPatch {
            vaddr: 0x2393ec,
            group: CrackGroup::Holiday,
            vanilla: bytes_of(&AT_2393EC_GAME),
            cracked: bytes_of(&AT_2393EC_PATCH),
        }
    } else if i == 6 {
        CrackPatch {
            vaddr: 0x23940a,
            group: CrackGroup::Holiday,
            vanilla: bytes_of(&AT_23940A_GAME),
            cracked: bytes_of(&AT_23940A_PATCH),
        }
    } else if i == 7 {
        CrackPatch {
            vaddr: 0x239429,
            group: CrackGroup::Holiday,
            vanilla: bytes_of(&AT_239429_GAME),
            cracked: bytes_of(&AT_239429_PATCH),
        }
    } else if i == 8 {
        CrackPatch {
            vaddr: 0x3b22c0,
            group: CrackGroup::StoreVip,
            vanilla: bytes_of(&AT_3B22C0_GAME),
            cracked: bytes_of(&AT_3B22C0_PATCH),
        }
    } else if i == 9 {
        CrackPatch {
            vaddr: 0x2fb9ec,
            group: CrackGroup::Jailbreak,
            vanilla: bytes_of(&AT_2FB9EC_GAME),
            cracked: bytes_of(&AT_2FB9EC_PATCH),
        }
    } else if i == 10 {
        CrackPatch {
            vaddr: 0x4850ca,
            group: CrackGroup::Jailbreak,
            vanilla: bytes_of(&AT_4850CA_GAME),
            cracked: bytes_of(&AT_4850CA_PATCH),
        }
    } else if i == 11 {
        CrackPatch {
            vaddr: 0x4f6d00,
            group: CrackGroup::Jailbreak,
            vanilla: bytes_of(&AT_4F6D00_GAME),
            cracked: bytes_of(&AT_4F6D00_PATCH),
        }
    } else if i == 12 {
        CrackPatch {
            vaddr: 0x562c16,
            group: CrackGroup::Jailbreak,
            vanilla: bytes_of(&AT_562C16_GAME),
            cracked: bytes_of(&AT_562C16_PATCH),
        }
    } else if i == 13 {
        CrackPatch {
            vaddr: 0x5757d8,
            group: CrackGroup::Jailbreak,
            vanilla: bytes_of(&AT_5757D8_GAME),
            cracked: bytes_of(&AT_5757D8_PATCH),
        }
    } else if i == 14 {
        CrackPatch {
            vaddr: 0x606bb0,
            group: CrackGroup::Jailbreak,
            vanilla: bytes_of(&AT_606BB0_GAME),
            cracked: bytes_of(&AT_606BB0_PATCH),
        }
    } else if i == 15 {
        CrackPatch {
            vaddr: 0x6b60d6,
            group: CrackGroup::Jailbreak,
            vanilla: bytes_of(&AT_6B60D6_GAME),
            cracked: bytes_of(&AT_6B60D6_PATCH),
        }
    } else if i == 16 {
        CrackPatch {
            vaddr: 0x74c984,
            group: CrackGroup::Jailbreak,
            vanilla: bytes_of(&AT_74C984_GAME),
            cracked: bytes_of(&AT_74C984_PATCH),
        }
    } else if i == 17 {
        CrackPatch {
            vaddr: 0x7c8de6,
            group: CrackGroup::Jailbreak,
            vanilla: bytes_of(&AT_7C8DE6_GAME),
            cracked: bytes_of(&AT_7C8DE6_PATCH),
        }
    } else if i == 18 {
        CrackPatch {
            vaddr: 0x7c8e1c,
            group: CrackGroup::Jailbreak,
            vanilla: bytes_of(&AT_7C8E1C_GAME),
            cracked: bytes_of(&AT_7C8E1C_PATCH),
        }
    } else if i == 19 {
        CrackPatch {
            vaddr: 0x85aaa0,
            group: CrackGroup::Jailbreak,
            vanilla: bytes_of(&AT_85AAA0_GAME),
            cracked: bytes_of(&AT_85AAA0_PATCH),
        }
    } else {
        CrackPatch {
            vaddr: 0x768fa,
            group: CrackGroup::MapSync,
            vanilla: bytes_of(&AT_768FA_GAME),
            cracked: bytes_of(&AT_768FA_PATCH),
        }
    }
}

/// Whether the patches of a group are wanted.
pub open spec fn group_on(c: Cheats, g: CrackGroup) -> bool {
    match g {
        CrackGroup::Jailbreak => c.has(CheatKey::KillJailbreak),
        CrackGroup::DivineFix => c.has(CheatKey::FixDivine),
        CrackGroup::Holiday => c.has(CheatKey::EnterHoliday),
        CrackGroup::StoreVip => c.has(CheatKey::StoreNoVip),
        CrackGroup::Island => c.has(CheatKey::EnterNewislands),
        CrackGroup::ParseSkip => c.has(CheatKey::SkipParseCheck),
        CrackGroup::MapSync => c.map_sync,
    }
}

/// Whether the patches of a group are wanted.
pub fn crack_group_on(c: &Cheats, g: CrackGroup) -> (r: bool)
    ensures
        r == group_on(*c, g),
{
    match g {
        CrackGroup::Jailbreak => c.on(CheatKey::KillJailbreak),
        CrackGroup::DivineFix => c.on(CheatKey::FixDivine),
        CrackGroup::Holiday => c.on(CheatKey::EnterHoliday),
        CrackGroup::StoreVip => c.on(CheatKey::StoreNoVip),
        CrackGroup::Island => c.on(CheatKey::EnterNewislands),
        CrackGroup::ParseSkip => c.on(CheatKey::SkipParseCheck),
        CrackGroup::MapSync => c.map_sync,
    }
}

/// Bytes to write at an address of the game.
#[derive(Debug)]
pub struct CodeWrite {
    pub vaddr: u32,
    pub bytes: Vec<u8>,
}

/// Bytes at an address, as a mathematical value.
#[verifier::ext_equal]
pub struct WriteV {
    pub vaddr: u32,
    pub bytes: Seq<u8>,
}

impl View for CodeWrite {
    type V = WriteV;

    open spec fn view(&self) -> WriteV {
        WriteV { vaddr: self.vaddr, bytes: self.bytes@ }
    }
}

/// The writes of a list.
pub open spec fn writes_v(w: Seq<CodeWrite>) -> Seq<WriteV> {
    Seq::new(w.len(), |i: int| w[i]@)
}

/// What has to stand at the patch's address.
pub open spec fn patch_write(c: Cheats, p: PatchV) -> WriteV {
    WriteV {
        vaddr: p.vaddr,
        bytes: if group_on(c, p.group) {
            p.cracked
        } else {
            p.vanilla
        },
    }
}

/// What has to stand at the addresses of all patches.
pub open spec fn patch_writes(c: Cheats) -> Seq<WriteV> {
    Seq::new(PATCH_COUNT as nat, |i: int| patch_write(c, patch_at(i)))
}

/// The writes that bring the game's code in line with the switches.
pub fn apply_crack_patches(c: &Cheats) -> (r: Vec<CodeWrite>)
    ensures
        writes_v(r@) == patch_writes(*c),
{
    let mut r: Vec<CodeWrite> = Vec::new();
    let mut i: usize = 0;
    while i < PATCH_COUNT
        invariant
            i <= PATCH_COUNT,
            r@.len() == i,
            forall|j: int| 0 <= j < i ==> (#[trigger] r@[j])@ == patch_write(*c, patch_at(j)),
        decreases PATCH_COUNT - i,
    {
        let p = crack_patch(i);
        let on = crack_group_on(c, p.group);
        let CrackPatch { vaddr, group: _, vanilla, cracked } = p;
        let bytes = if on { cracked } else { vanilla };
        r.push(CodeWrite { vaddr, bytes });
        i = i + 1;
    }
    assert(writes_v(r@) =~= patch_writes(*c));
    r
}

/// The byte at an address after the first `n` writes, where `before` stood.
pub open spec fn byte_after(before: u8, a: int, w: Seq<WriteV>, n: int) -> u8
    decreases n,
{
    if n <= 0 {
        before
    } else if w[n - 1].vaddr <= a < w[n - 1].vaddr + w[n - 1].bytes.len() {
        w[n - 1].bytes[a - w[n - 1].vaddr]
    } else {
        byte_after(before, a, w, n - 1)
    }
}

/// The byte at an address after the patches were brought in line with the
/// switches, where `before` stood.
pub open spec fn patched(before: u8, a: int, c: Cheats) -> u8 {
    byte_after(before, a, patch_writes(c), PATCH_COUNT as int)
}

/// Whether an address belongs to a patch.
pub open spec fn in_patch(i: int, a: int) -> bool {
    patch_at(i).vaddr <= a < patch_at(i).vaddr + patch_at(i).vanilla.len()
}

/// Patches replace bytes one for one, and do not overlap.
pub proof fn lemma_patch_table()
    ensures
        forall|i: int|
            0 <= i < PATCH_COUNT ==> (#[trigger] patch_at(i)).vanilla.len() == patch_at(
                i,
            ).cracked.len(),
        forall|i: int, j: int, a: int|
            0 <= i < PATCH_COUNT && 0 <= j < PATCH_COUNT && #[trigger] in_patch(i, a)
                && #[trigger] in_patch(j, a) ==> i == j,
{
}

proof fn lemma_byte_after(before: u8, a: int, c: Cheats, n: int)
    requires
        0 <= n <= PATCH_COUNT,
    ensures
        ({
            let after = byte_after(before, a, patch_writes(c), n);
            &&& forall|i: int|
                0 <= i < n && #[trigger] in_patch(i, a) ==> after == patch_write(
                    c,
                    patch_at(i),
                ).bytes[a - patch_at(i).vaddr]
            &&& (forall|i: int| 0 <= i < n ==> !#[trigger] in_patch(i, a)) ==> after == before
        }),
    decreases n,
{
    lemma_patch_table();
    if n > 0 {
        lemma_byte_after(before, a, c, n - 1);
        let w = patch_writes(c)[n - 1];
        assert(w == patch_write(c, patch_at(n - 1)));
        assert(w.bytes.len() == patch_at(n - 1).vanilla.len());
        assert(in_patch(n - 1, a) <==> w.vaddr <= a < w.vaddr + w.bytes.len());
    }
}

/// After the patches were applied, each address of a patch holds the changed
/// byte if its switch is on and the game's own byte if it is off, whatever was
/// there before; no other address changes.
pub proof fn law_patches_follow_switches(before: u8, a: int, c: Cheats)
    ensures
        forall|i: int|
            0 <= i < PATCH_COUNT && #[trigger] in_patch(i, a) ==> patched(before, a, c) == (
            if group_on(c, patch_at(i).group) {
                patch_at(i).cracked
            } else {
                patch_at(i).vanilla
            })[a - patch_at(i).vaddr],
        (forall|i: int| 0 <= i < PATCH_COUNT ==> !#[trigger] in_patch(i, a)) ==> patched(
            before,
            a,
            c,
        ) == before,
{
    lemma_byte_after(before, a, c, PATCH_COUNT as int);
}

/// Where the shells of an old modified game are fixed.
pub const VIPGOLD_VADDR: u32 = 0xb9ce0;

pub const VIPGOLD_CRACKED: [u8; 8] = [0x4f, 0xf6, 0xff, 0x70, 0xc0, 0xf2, 0x1f, 0x00];

pub const VIPGOLD_GAME: [u8; 8] = [0x7a, 0x44, 0x31, 0x46, 0xcb, 0xf3, 0x34, 0xe2];

/// Instructions of a modified game that make up the number of shells.
pub open spec fn vipgold_cracked() -> Seq<u8> {
    VIPGOLD_CRACKED@
}

/// The game's own instructions in that place.
pub open spec fn vipgold_game() -> Seq<u8> {
    VIPGOLD_GAME@
}

/// The write that gives a modified game its own instructions back. `bytes` is
/// what stands at the address, and the first `null_segment` bytes of memory
/// cannot be read. Nothing where the game is not the modified one.
pub fn restore_cracked_vipgold(null_segment: u32, bytes: &Vec<u8>) -> (r: Option<CodeWrite>)
    ensures
        r is Some <==> restores(null_segment, bytes@),
        r is Some <==> null_segment <= VIPGOLD_VADDR && bytes@ == vipgold_cracked(),
        r is Some ==> r->0@ == (WriteV { vaddr: VIPGOLD_VADDR, bytes: vipgold_game() }),
{
    if VIPGOLD_VADDR < null_segment {
        return None;
    }
    if bytes.len() != 8 {
        return None;
    }
    let mut i: usize = 0;
    while i < 8
        invariant
            i <= 8,
            bytes@.len() == 8,
            forall|j: int| 0 <= j < i ==> bytes@[j] == VIPGOLD_CRACKED@[j],
        decreases 8 - i,
    {
        if bytes[i] != VIPGOLD_CRACKED[i] {
            assert(bytes@ != vipgold_cracked());
            return None;
        }
        i = i + 1;
    }
    assert(bytes@ =~= vipgold_cracked());
    Some(CodeWrite { vaddr: VIPGOLD_VADDR, bytes: bytes_of(&VIPGOLD_GAME) })
}

/// The bytes written back are not those that ask for it, so that giving them
/// back once is enough.
pub proof fn law_restored_game_is_kept()
    ensures
        vipgold_game() != vipgold_cracked(),
{
    assert(vipgold_game()[0] != vipgold_cracked()[0]);
}

/// Whether bytes stand at an address once the patches were brought in line with
/// the switches, whatever was there before.
pub open spec fn stands_at(before: u8, c: Cheats, vaddr: int, bytes: Seq<u8>) -> bool {
    forall|k: int| 0 <= k < bytes.len() ==> patched(before, vaddr + k, c) == #[trigger] bytes[k]
}

proof fn lemma_stands_at(before: u8, c: Cheats, i: int)
    requires
        0 <= i < PATCH_COUNT,
    ensures
        stands_at(
            before,
            c,
            patch_at(i).vaddr as int,
            if group_on(c, patch_at(i).group) {
                patch_at(i).cracked
            } else {
                patch_at(i).vanilla
            },
        ),
{
    let p = patch_at(i);
    let bytes = if group_on(c, p.group) {
        p.cracked
    } else {
        p.vanilla
    };
    lemma_patch_table();
    assert forall|k: int| 0 <= k < bytes.len() implies patched(before, p.vaddr + k, c)
        == #[trigger] bytes[k] by {
        law_patches_follow_switches(before, p.vaddr + k, c);
        assert(in_patch(i, p.vaddr + k));
    }
}

/// The game does not notice a device that was broken into exactly while that
/// switch is on: its eleven checks hold the changed bytes then, and the game's
/// own otherwise.
pub proof fn law_jailbreak_is_not_noticed(before: u8, c: Cheats)
    ensures
        stands_at(
            before,
            c,
            0x2fb9ec,
            if c.has(CheatKey::KillJailbreak) {
                seq![0x00u8]
            } else {
                seq![0x06u8]
            },
        ),
        stands_at(
            before,
            c,
            0x4850ca,
            if c.has(CheatKey::KillJailbreak) {
                seq![0x00u8]
            } else {
                seq![0x07u8]
            },
        ),
        stands_at(
            before,
            c,
            0x4f6d00,
            if c.has(CheatKey::KillJailbreak) {
                seq![
                0x40u8, 0xf2, 0x00, 0x00, 0xc0, 0xf2, 0x00, 0x00, 0x5c, 0xe0, 0x00, 0xbf,
                0x00, 0xbf, 0x00, 0xbf,
            ]
            } else {
                seq![
                0x45u8, 0xf2, 0xd8, 0x30, 0xc0, 0xf2, 0x5e, 0x00, 0x45, 0xf6, 0xa2, 0x1a,
                0xc0, 0xf2, 0x5f, 0x0a,
            ]
            },
        ),
        stands_at(
            before,
            c,
            0x562c16,
            if c.has(CheatKey::KillJailbreak) {
                seq![0x00u8]
            } else {
                seq![0x07u8]
            },
        ),
        stands_at(
            before,
            c,
            0x5757d8,
            if c.has(CheatKey::KillJailbreak) {
                seq![0x00u8]
            } else {
                seq![0x01u8]
            },
        ),
        stands_at(
            before,
            c,
            0x606bb0,
            if c.has(CheatKey::KillJailbreak) {
                seq![0x00u8, 0x00, 0xa0, 0xe3]
            } else {
                seq![0x04u8, 0x00, 0xa0, 0xe1]
            },
        ),
        stands_at(
            before,
            c,
            0x6b60d6,
            if c.has(CheatKey::KillJailbreak) {
                seq![0x00u8, 0xbf]
            } else {
                seq![0x05u8, 0xd0]
            },
        ),
        stands_at(
            before,
            c,
            0x74c984,
            if c.has(CheatKey::KillJailbreak) {
                seq![0x00u8]
            } else {
                seq![0x01u8]
            },
        ),
        stands_at(
            before,
            c,
            0x7c8de6,
            if c.has(CheatKey::KillJailbreak) {
                seq![0x00u8]
            } else {
                seq![0x01u8]
            },
        ),
        stands_at(
            before,
            c,
            0x7c8e1c,
            if c.has(CheatKey::KillJailbreak) {
                seq![0x00u8]
            } else {
                seq![0x01u8]
            },
        ),
        stands_at(
            before,
            c,
            0x85aaa0,
            if c.has(CheatKey::KillJailbreak) {
                seq![
                0x00u8, 0x26, 0x2a, 0xf0, 0x56, 0xeb, 0x10, 0xf0, 0xff, 0x0f, 0x18, 0xbf,
                0x00,
            ]
            } else {
                seq![
                0x01u8, 0x26, 0x2a, 0xf0, 0x56, 0xeb, 0x10, 0xf0, 0xff, 0x0f, 0x18, 0xbf,
                0x01,
            ]
            },
        ),
{
    assert(patch_at(9).cracked =~= seq![0x00u8]);
    assert(patch_at(9).vanilla =~= seq![0x06u8]);
    lemma_stands_at(before, c, 9);
    assert(patch_at(10).cracked =~= seq![0x00u8]);
    assert(patch_at(10).vanilla =~= seq![0x07u8]);
    lemma_stands_at(before, c, 10);
    assert(patch_at(11).cracked =~= seq![
                0x40u8, 0xf2, 0x00, 0x00, 0xc0, 0xf2, 0x00, 0x00, 0x5c, 0xe0, 0x00, 0xbf,
                0x00, 0xbf, 0x00, 0xbf,
            ]);
    assert(patch_at(11).vanilla =~= seq![
                0x45u8, 0xf2, 0xd8, 0x30, 0xc0, 0xf2, 0x5e, 0x00, 0x45, 0xf6, 0xa2, 0x1a,
                0xc0, 0xf2, 0x5f, 0x0a,
            ]);
    lemma_stands_at(before, c, 11);
    assert(patch_at(12).cracked =~= seq![0x00u8]);
    assert(patch_at(12).vanilla =~= seq![0x07u8]);
    lemma_stands_at(before, c, 12);
    assert(patch_at(13).cracked =~= seq![0x00u8]);
    assert(patch_at(13).vanilla =~= seq![0x01u8]);
    lemma_stands_at(before, c, 13);
    assert(patch_at(14).cracked =~= seq![0x00u8, 0x00, 0xa0, 0xe3]);
    assert(patch_at(14).vanilla =~= seq![0x04u8, 0x00, 0xa0, 0xe1]);
    lemma_stands_at(before, c, 14);
    assert(patch_at(15).cracked =~= seq![0x00u8, 0xbf]);
    assert(patch_at(15).vanilla =~= seq![0x05u8, 0xd0]);
    lemma_stands_at(before, c, 15);
    assert(patch_at(16).cracked =~= seq![0x00u8]);
    assert(patch_at(16).vanilla =~= seq![0x01u8]);
    lemma_stands_at(before, c, 16);
    assert(patch_at(17).cracked =~= seq![0x00u8]);
    assert(patch_at(17).vanilla =~= seq![0x01u8]);
    lemma_stands_at(before, c, 17);
    assert(patch_at(18).cracked =~= seq![0x00u8]);
    assert(patch_at(18).vanilla =~= seq![0x01u8]);
    lemma_stands_at(before, c, 18);
    assert(patch_at(19).cracked =~= seq![
                0x00u8, 0x26, 0x2a, 0xf0, 0x56, 0xeb, 0x10, 0xf0, 0xff, 0x0f, 0x18, 0xbf,
                0x00,
            ]);
    assert(patch_at(19).vanilla =~= seq![
                0x01u8, 0x26, 0x2a, 0xf0, 0x56, 0xeb, 0x10, 0xf0, 0xff, 0x0f, 0x18, 0xbf,
                0x01,
            ]);
    lemma_stands_at(before, c, 19);
}

/// The fortune game is mended exactly while its switch is on: its three places
/// hold the changed bytes then, and the game's own otherwise.
pub proof fn law_divine_is_mended(before: u8, c: Cheats)
    ensures
        stands_at(
            before,
            c,
            0x21638e,
            if c.has(CheatKey::FixDivine) {
                seq![0x00u8, 0xbf, 0x00, 0xbf, 0x00, 0xbf, 0x00, 0xbf]
            } else {
                seq![0x10u8, 0xf0, 0xff, 0x0f, 0x00, 0xf0, 0x91, 0x80]
            },
        ),
        stands_at(
            before,
            c,
            0x21718e,
            if c.has(CheatKey::FixDivine) {
                seq![0x00u8, 0xbf, 0x00, 0xbf, 0x00, 0xbf, 0x00, 0xbf]
            } else {
                seq![0x10u8, 0xf0, 0xff, 0x0f, 0x00, 0xf0, 0x95, 0x80]
            },
        ),
        stands_at(
            before,
            c,
            0xf4102,
            if c.has(CheatKey::FixDivine) {
                seq![
                0x28u8, 0xe0, 0x47, 0xf6, 0x5c, 0x50, 0xc0, 0xf2, 0x9e, 0x00, 0x48, 0xf6,
                0x6a, 0x32, 0xc0, 0xf2, 0x9f, 0x02, 0x78, 0x44, 0x7a, 0x44, 0x01, 0x68,
                0x10, 0x68, 0x91, 0xf3, 0x18, 0xe0, 0x40, 0xf2, 0x04, 0x41, 0xc0, 0xf2,
                0xa1, 0x01, 0x79, 0x44, 0x0e, 0x68, 0x4a, 0xf6, 0x90, 0x51, 0xc0, 0xf2,
                0x9e, 0x01, 0x79, 0x44, 0xa0, 0x51, 0xa0, 0x59, 0x09, 0x68, 0x91, 0xf3,
                0x08, 0xe0, 0x49, 0xf2, 0xf4, 0x60, 0xc0, 0xf2, 0x9e, 0x00, 0x4a, 0xf6,
                0xb2, 0x52, 0xc0, 0xf2, 0x9e, 0x02, 0x78, 0x44, 0x7a, 0x44, 0x62, 0xe0,
                0x01, 0x2b, 0x40, 0xf0, 0x46, 0x81, 0xd2, 0xe7, 0xe1,
            ]
            } else {
                seq![
                0x01u8, 0x2b, 0x40, 0xf0, 0x70, 0x81, 0x47, 0xf6, 0x50, 0x40, 0xc0, 0xf2,
                0x9e, 0x00, 0x48, 0xf2, 0xfe, 0x46, 0xc0, 0xf2, 0x9f, 0x06, 0x78, 0x44,
                0x7e, 0x44, 0x05, 0x68, 0x30, 0x68, 0x29, 0x46, 0x91, 0xf3, 0x16, 0xe0,
                0x47, 0xf6, 0xae, 0x51, 0xc0, 0xf2, 0x9e, 0x01, 0x79, 0x44, 0x09, 0x68,
                0x91, 0xf3, 0x0e, 0xe0, 0x10, 0xf0, 0xff, 0x0f, 0x00, 0xf0, 0x59, 0x81,
                0x48, 0xf2, 0xac, 0x50, 0x29, 0x46, 0xc0, 0xf2, 0x9f, 0x00, 0x78, 0x44,
                0x00, 0x68, 0x91, 0xf3, 0x00, 0xe0, 0x48, 0xf2, 0x34, 0x61, 0xc0, 0xf2,
                0x9e, 0x01, 0x79, 0x44, 0x09, 0x68, 0x90, 0xf3, 0xf8,
            ]
            },
        ),
{
    assert(patch_at(2).cracked =~= seq![0x00u8, 0xbf, 0x00, 0xbf, 0x00, 0xbf, 0x00, 0xbf]);
    assert(patch_at(2).vanilla =~= seq![0x10u8, 0xf0, 0xff, 0x0f, 0x00, 0xf0, 0x91, 0x80]);
    lemma_stands_at(before, c, 2);
    assert(patch_at(3).cracked =~= seq![0x00u8, 0xbf, 0x00, 0xbf, 0x00, 0xbf, 0x00, 0xbf]);
    assert(patch_at(3).vanilla =~= seq![0x10u8, 0xf0, 0xff, 0x0f, 0x00, 0xf0, 0x95, 0x80]);
    lemma_stands_at(before, c, 3);
    assert(patch_at(4).cracked =~= seq![
                0x28u8, 0xe0, 0x47, 0xf6, 0x5c, 0x50, 0xc0, 0xf2, 0x9e, 0x00, 0x48, 0xf6,
                0x6a, 0x32, 0xc0, 0xf2, 0x9f, 0x02, 0x78, 0x44, 0x7a, 0x44, 0x01, 0x68,
                0x10, 0x68, 0x91, 0xf3, 0x18, 0xe0, 0x40, 0xf2, 0x04, 0x41, 0xc0, 0xf2,
                0xa1, 0x01, 0x79, 0x44, 0x0e, 0x68, 0x4a, 0xf6, 0x90, 0x51, 0xc0, 0xf2,
                0x9e, 0x01, 0x79, 0x44, 0xa0, 0x51, 0xa0, 0x59, 0x09, 0x68, 0x91, 0xf3,
                0x08, 0xe0, 0x49, 0xf2, 0xf4, 0x60, 0xc0, 0xf2, 0x9e, 0x00, 0x4a, 0xf6,
                0xb2, 0x52, 0xc0, 0xf2, 0x9e, 0x02, 0x78, 0x44, 0x7a, 0x44, 0x62, 0xe0,
                0x01, 0x2b, 0x40, 0xf0, 0x46, 0x81, 0xd2, 0xe7, 0xe1,
            ]);
    assert(patch_at(4).vanilla =~= seq![
                0x01u8, 0x2b, 0x40, 0xf0, 0x70, 0x81, 0x47, 0xf6, 0x50, 0x40, 0xc0, 0xf2,
                0x9e, 0x00, 0x48, 0xf2, 0xfe, 0x46, 0xc0, 0xf2, 0x9f, 0x06, 0x78, 0x44,
                0x7e, 0x44, 0x05, 0x68, 0x30, 0x68, 0x29, 0x46, 0x91, 0xf3, 0x16, 0xe0,
                0x47, 0xf6, 0xae, 0x51, 0xc0, 0xf2, 0x9e, 0x01, 0x79, 0x44, 0x09, 0x68,
                0x91, 0xf3, 0x0e, 0xe0, 0x10, 0xf0, 0xff, 0x0f, 0x00, 0xf0, 0x59, 0x81,
                0x48, 0xf2, 0xac, 0x50, 0x29, 0x46, 0xc0, 0xf2, 0x9f, 0x00, 0x78, 0x44,
                0x00, 0x68, 0x91, 0xf3, 0x00, 0xe0, 0x48, 0xf2, 0x34, 0x61, 0xc0, 0xf2,
                0x9e, 0x01, 0x79, 0x44, 0x09, 0x68, 0x90, 0xf3, 0xf8,
            ]);
    lemma_stands_at(before, c, 4);
}

/// The holiday village is open exactly while its switch is on: its three checks
/// hold the changed bytes then, and the game's own otherwise.
pub proof fn law_holiday_is_open(before: u8, c: Cheats)
    ensures
        stands_at(
            before,
            c,
            0x2393ec,
            if c.has(CheatKey::EnterHoliday) {
                seq![0x00u8, 0xbf]
            } else {
                seq![0x23u8, 0xd0]
            },
        ),
        stands_at(
            before,
            c,
            0x23940a,
            if c.has(CheatKey::EnterHoliday) {
                seq![0x00u8, 0xbf]
            } else {
                seq![0x1au8, 0xd0]
            },
        ),
        stands_at(
            before,
            c,
            0x239429,
            if c.has(CheatKey::EnterHoliday) {
                seq![0xe0u8]
            } else {
                seq![0xd1u8]
            },
        ),
{
    assert(patch_at(5).cracked =~= seq![0x00u8, 0xbf]);
    assert(patch_at(5).vanilla =~= seq![0x23u8, 0xd0]);
    lemma_stands_at(before, c, 5);
    assert(patch_at(6).cracked =~= seq![0x00u8, 0xbf]);
    assert(patch_at(6).vanilla =~= seq![0x1au8, 0xd0]);
    lemma_stands_at(before, c, 6);
    assert(patch_at(7).cracked =~= seq![0xe0u8]);
    assert(patch_at(7).vanilla =~= seq![0xd1u8]);
    lemma_stands_at(before, c, 7);
}

/// The shop asks for no VIP exactly while its switch is on: its check holds the
/// changed bytes then, and the game's own otherwise.
pub proof fn law_store_asks_for_no_vip(before: u8, c: Cheats)
    ensures
        stands_at(
            before,
            c,
            0x3b22c0,
            if c.has(CheatKey::StoreNoVip) {
                seq![0x00u8, 0xbf]
            } else {
                seq![0x2bu8, 0xd1]
            },
        ),
{
    assert(patch_at(8).cracked =~= seq![0x00u8, 0xbf]);
    assert(patch_at(8).vanilla =~= seq![0x2bu8, 0xd1]);
    lemma_stands_at(before, c, 8);
}

/// The new islands are open exactly while their switch is on: the check holds
/// the changed bytes then, and the game's own otherwise.
pub proof fn law_islands_are_open(before: u8, c: Cheats)
    ensures
        stands_at(
            before,
            c,
            0x37650,
            if c.has(CheatKey::EnterNewislands) {
                seq![0x00u8, 0xbf]
            } else {
                seq![0x74u8, 0xd0]
            },
        ),
{
    assert(patch_at(0).cracked =~= seq![0x00u8, 0xbf]);
    assert(patch_at(0).vanilla =~= seq![0x74u8, 0xd0]);
    lemma_stands_at(before, c, 0);
}

/// The check of the game's object data is skipped exactly while its switch is
/// on: its place holds the changed bytes then, and the game's own otherwise.
pub proof fn law_parsing_is_not_checked(before: u8, c: Cheats)
    ensures
        stands_at(
            before,
            c,
            0x6f1ea,
            if c.has(CheatKey::SkipParseCheck) {
                seq![0x4fu8, 0xf0, 0x00, 0x00]
            } else {
                seq![0x15u8, 0xf0, 0xb2, 0xcf]
            },
        ),
{
    assert(patch_at(1).cracked =~= seq![0x4fu8, 0xf0, 0x00, 0x00]);
    assert(patch_at(1).vanilla =~= seq![0x15u8, 0xf0, 0xb2, 0xcf]);
    lemma_stands_at(before, c, 1);
}

/// The village is sent to the server exactly while that is asked for: the
/// place holds the changed bytes then, and the game's own otherwise.
pub proof fn law_village_is_sent(before: u8, c: Cheats)
    ensures
        stands_at(
            before,
            c,
            0x768fa,
            if c.map_sync {
                seq![0x00u8, 0xbf, 0x00, 0xbf]
            } else {
                seq![0x42u8, 0xf0, 0x97, 0x83]
            },
        ),
{
    assert(patch_at(20).cracked =~= seq![0x00u8, 0xbf, 0x00, 0xbf]);
    assert(patch_at(20).vanilla =~= seq![0x42u8, 0xf0, 0x97, 0x83]);
    lemma_stands_at(before, c, 20);
}

/// No other byte of the game is ever changed: outside the twenty-one places
/// everything stays as it was.
pub proof fn law_rest_of_the_game_is_kept(before: u8, a: int, c: Cheats)
    requires
        !(0x37650 <= a < 0x37650 + 2),
        !(0x6f1ea <= a < 0x6f1ea + 4),
        !(0x21638e <= a < 0x21638e + 8),
        !(0x21718e <= a < 0x21718e + 8),
        !(0xf4102 <= a < 0xf4102 + 93),
        !(0x2393ec <= a < 0x2393ec + 2),
        !(0x23940a <= a < 0x23940a + 2),
        !(0x239429 <= a < 0x239429 + 1),
        !(0x3b22c0 <= a < 0x3b22c0 + 2),
        !(0x2fb9ec <= a < 0x2fb9ec + 1),
        !(0x4850ca <= a < 0x4850ca + 1),
        !(0x4f6d00 <= a < 0x4f6d00 + 16),
        !(0x562c16 <= a < 0x562c16 + 1),
        !(0x5757d8 <= a < 0x5757d8 + 1),
        !(0x606bb0 <= a < 0x606bb0 + 4),
        !(0x6b60d6 <= a < 0x6b60d6 + 2),
        !(0x74c984 <= a < 0x74c984 + 1),
        !(0x7c8de6 <= a < 0x7c8de6 + 1),
        !(0x7c8e1c <= a < 0x7c8e1c + 1),
        !(0x85aaa0 <= a < 0x85aaa0 + 13),
        !(0x768fa <= a < 0x768fa + 4),
    ensures
        patched(before, a, c) == before,
{
    law_patches_follow_switches(before, a, c);
}

/// A modified game that makes up the number of shells is given its own eight
/// bytes back.
pub proof fn law_shells_are_counted_again()
    ensures
        VIPGOLD_VADDR == 0xb9ce0,
        vipgold_cracked() == seq![0x4fu8, 0xf6, 0xff, 0x70, 0xc0, 0xf2, 0x1f, 0x00],
        vipgold_game() == seq![0x7au8, 0x44, 0x31, 0x46, 0xcb, 0xf3, 0x34, 0xe2],
{
    assert(vipgold_cracked() =~= seq![0x4fu8, 0xf6, 0xff, 0x70, 0xc0, 0xf2, 0x1f, 0x00]);
    assert(vipgold_game() =~= seq![0x7au8, 0x44, 0x31, 0x46, 0xcb, 0xf3, 0x34, 0xe2]);
}

/// Whether a modified game is given its own instructions back.
pub open spec fn restores(null_segment: u32, bytes: Seq<u8>) -> bool {
    null_segment <= VIPGOLD_VADDR && bytes == vipgold_cracked()
}

/// They are given back exactly where the known eight bytes stand at the place,
/// and the place can be read.
pub proof fn law_only_the_modified_game_is_restored(null_segment: u32, bytes: Seq<u8>)
    ensures
        restores(null_segment, bytes) <==> null_segment <= 0xb9ce0 && bytes == seq![
            0x4fu8,
            0xf6,
            0xff,
            0x70,
            0xc0,
            0xf2,
            0x1f,
            0x00,
        ],
{
    law_shells_are_counted_again();
}

} // verus!
