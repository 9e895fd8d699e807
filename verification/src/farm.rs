//! Crops that ripen at once. A field ripens when its sowing lies far enough
//! back, so the sowing is moved back.

use vstd::prelude::*;
use crate::address::{at_offset, offset_by};

verus! {

/// Where the game keeps the offset of the time of sowing.
pub const BEGIN_TIME_SLOT: u32 = 0xb03358;

/// The state of a field on which something grows, and the stage of a ripe one.
pub const GROWING: i32 = 4;

/// Bits of infinity as a single-precision number; no number is above it.
pub const INFINITY_BITS: u32 = 0x7f80_0000;

/// Bits of 2 as a single-precision number.
pub const TWO_BITS: u32 = 0x4000_0000;

/// Where a field keeps its values, from its own address on.
#[derive(Clone, Copy, Debug, PartialEq, Eq, Structural)]
pub struct FarmOffsets {
    pub begin: u32,
    pub state: u32,
    pub stage: u32,
    pub mature: u32,
    pub wither: u32,
}

/// Whether an offset can be one of a field.
pub open spec fn in_field(off: u32) -> bool {
    0 < off < 0x1000
}

/// The offsets, if they are what the game's code leads to expect: the slot of
/// the time of sowing is the known one, and every offset lies within a field.
pub fn farm_ivar_offsets(begin_slot: u32, found: FarmOffsets) -> (r: Option<FarmOffsets>)
    ensures
        r == (if offsets_hold(begin_slot, found) {
            Some(found)
        } else {
            None::<FarmOffsets>
        }),
        r == (if begin_slot == BEGIN_TIME_SLOT && in_field(found.begin) && in_field(found.state)
            && in_field(found.stage) && in_field(found.mature) && in_field(found.wither) {
            Some(found)
        } else {
            None::<FarmOffsets>
        }),
{
    if begin_slot != BEGIN_TIME_SLOT {
        return None;
    }
    if found.begin == 0 || found.begin >= 0x1000 || found.state == 0 || found.state >= 0x1000
        || found.stage == 0 || found.stage >= 0x1000 || found.mature == 0 || found.mature >= 0x1000
        || found.wither == 0 || found.wither >= 0x1000 {
        return None;
    }
    Some(found)
}

/// Where a field's state and stage are.
pub fn farm_state_stage(recv: u32, offsets: Option<FarmOffsets>) -> (r: Option<(u32, u32)>)
    ensures
        r == field_places(recv, offsets),
        r == (match offsets {
            Some(o) => if recv != 0 {
                Some((offset_by(recv, o.state), offset_by(recv, o.stage)))
            } else {
                None::<(u32, u32)>
            },
            None => None,
        }),
{
    if recv == 0 {
        return None;
    }
    match offsets {
        Some(o) => Some((at_offset(recv, o.state), at_offset(recv, o.stage))),
        None => None,
    }
}

/// What a field holds: its state and stage, and the bits of the times after
/// which it ripens and, once ripe, withers.
#[derive(Clone, Copy, Debug, PartialEq, Eq, Structural)]
pub struct Field {
    pub state: i32,
    pub stage: i32,
    pub mature_bits: u32,
    pub wither_bits: u32,
}

/// Whether single-precision bits stand for a number above zero.
pub open spec fn is_positive(bits: u32) -> bool {
    0 < bits <= INFINITY_BITS
}

/// Whether single-precision bits stand for a number above two.
pub open spec fn exceeds_two(bits: u32) -> bool {
    TWO_BITS < bits <= INFINITY_BITS
}

/// Whether a field can be made to ripen: something grows on it that is not
/// ripe, and it would not wither before it can be harvested.
pub open spec fn can_ripen(f: Field) -> bool {
    f.state == GROWING && f.stage != GROWING && is_positive(f.mature_bits) && exceeds_two(
        f.wither_bits,
    )
}

/// What to do with a field.
#[derive(Clone, Copy, Debug, PartialEq, Eq, Structural)]
pub enum FarmStep {
    /// Nothing grows that could ripen.
    Leave,
    /// It ripens by itself.
    Due,
    /// Move the sowing back to the moment from which the crop is just ripe.
    MoveSowing,
}

/// What to do with a field; `due` tells whether it was sown early enough to be
/// ripe.
pub open spec fn farm_step(recv: u32, field: Option<Field>, due: bool) -> FarmStep {
    match field {
        Some(f) => if recv != 0 && can_ripen(f) {
            if due {
                FarmStep::Due
            } else {
                FarmStep::MoveSowing
            }
        } else {
            FarmStep::Leave
        },
        None => FarmStep::Leave,
    }
}

/// Whether the offsets are what the game's code leads to expect.
pub open spec fn offsets_hold(begin_slot: u32, found: FarmOffsets) -> bool {
    begin_slot == BEGIN_TIME_SLOT && in_field(found.begin) && in_field(found.state) && in_field(
        found.stage,
    ) && in_field(found.mature) && in_field(found.wither)
}

/// A field on which something grows, state 4, that is not ripe, stage 4, is made
/// to ripen if it takes some time to and would stay ripe for more than two
/// seconds: one sown early enough ripens by itself, and the sowing of any other
/// is moved back. No other field is touched.
pub proof fn law_only_growing_fields_ripen(recv: u32, f: Field, due: bool)
    ensures
        ({
            let grows = recv != 0 && f.state == 4 && f.stage != 4 && 0 < f.mature_bits
                <= 0x7f80_0000 && 0x4000_0000 < f.wither_bits <= 0x7f80_0000;
            &&& grows && due ==> farm_step(recv, Some(f), due) == FarmStep::Due
            &&& grows && !due ==> farm_step(recv, Some(f), due) == FarmStep::MoveSowing
            &&& !grows ==> farm_step(recv, Some(f), due) == FarmStep::Leave
            &&& farm_step(recv, None, due) == FarmStep::Leave
        }),
{
}

/// The offsets are trusted where the slot of the time of sowing is the known
/// one, and each of the five lies between 1 and 4095.
pub proof fn law_offsets_are_plausible(begin_slot: u32, found: FarmOffsets)
    ensures
        offsets_hold(begin_slot, found) <==> {
            &&& begin_slot == 0xb03358
            &&& 1 <= found.begin <= 4095 && 1 <= found.state <= 4095 && 1 <= found.stage <= 4095
            &&& 1 <= found.mature <= 4095 && 1 <= found.wither <= 4095
        },
{
}

/// Decides what to do with a field; `due` tells whether it was sown early
/// enough to be ripe.
pub fn farm_instant_mature_at(recv: u32, field: Option<Field>, due: bool) -> (r: FarmStep)
    ensures
        r == farm_step(recv, field, due),
        r == (match field {
            Some(f) => if recv != 0 && can_ripen(f) {
                if due {
                    FarmStep::Due
                } else {
                    FarmStep::MoveSowing
                }
            } else {
                FarmStep::Leave
            },
            None => FarmStep::Leave,
        }),
{
    if recv == 0 {
        return FarmStep::Leave;
    }
    match field {
        None => FarmStep::Leave,
        Some(f) => {
            if f.state != GROWING || f.stage == GROWING {
                return FarmStep::Leave;
            }
            if f.mature_bits == 0 || f.mature_bits > INFINITY_BITS || f.wither_bits <= TWO_BITS
                || f.wither_bits > INFINITY_BITS {
                return FarmStep::Leave;
            }
            if due {
                FarmStep::Due
            } else {
                FarmStep::MoveSowing
            }
        },
    }
}

/// Where a field's state and stage are.
pub open spec fn field_places(recv: u32, offsets: Option<FarmOffsets>) -> Option<(u32, u32)> {
    match offsets {
        Some(o) => if recv != 0 {
            Some((offset_by(recv, o.state), offset_by(recv, o.stage)))
        } else {
            None
        },
        None => None,
    }
}

/// They lie at the offsets of state and stage from the field's own address.
pub proof fn law_field_places(recv: u32, o: FarmOffsets)
    requires
        o.state < 0x1000,
        o.stage < 0x1000,
        recv < 0xffff_0000,
    ensures
        field_places(recv, None) is None,
        field_places(0, Some(o)) is None,
        recv != 0 ==> field_places(recv, Some(o)) == Some(
            ((recv + o.state) as u32, (recv + o.stage) as u32),
        ),
{
}

} // verus!
