//! Repair of the time stamps in the layout.

use vstd::prelude::*;
use crate::cf_time::{
    fix_residue, fix_residue_u32, is_mended, is_mended_whole, law_stamps_are_mended, lemma_mended,
    repaired, repaired_u32, CfTime,
};
use crate::island::map_data::{
    flat, is_slot, lemma_replaced_flat, lemma_slots_upto, replaced, same_shape, slots, Detail, Head,
    MapData, ObjectV,
};

verus! {

/// A building's details with every moment in them repaired; counts, durations
/// and everything else stay.
pub open spec fn repaired_detail(d: Detail, now: CfTime) -> Detail {
    match d {
        Detail::Restaurant {
            begin_upgrade,
            last_cool,
            property,
            level,
            construct_value,
            island_value,
        } => Detail::Restaurant {
            begin_upgrade: repaired_u32(begin_upgrade, now),
            last_cool: repaired_u32(last_cool, now),
            property,
            level,
            construct_value,
            island_value,
        },
        Detail::Shop { begin, shopping, upgrading, level, sale_item, property } => Detail::Shop {
            begin: repaired(begin, now),
            shopping,
            upgrading,
            level,
            sale_item,
            property,
        },
        Detail::Apartment { waiting, last_finish } => Detail::Apartment {
            waiting,
            last_finish: repaired_u32(last_finish, now),
        },
        Detail::Ship { begin_discover, begin_fix, state, sailing, search_map, on_board } =>
            Detail::Ship {
            begin_discover: repaired(begin_discover, now),
            begin_fix: repaired(begin_fix, now),
            state,
            sailing,
            search_map,
            on_board,
        },
        Detail::CafeShop { is_new } => Detail::CafeShop { is_new },
        Detail::SuperShellTree { bought } => Detail::SuperShellTree {
            bought: repaired_u32(bought, now),
        },
        Detail::Building { begin, cooling, game_cool } => Detail::Building {
            begin: repaired(begin, now),
            cooling: repaired(cooling, now),
            game_cool: repaired(game_cool, now),
        },
        Detail::Spacials { cooling } => Detail::Spacials { cooling: repaired(cooling, now) },
        Detail::TransObject { begin } => Detail::TransObject { begin: repaired(begin, now) },
        Detail::YellowDuck { purchase, last_transform, cooling } => Detail::YellowDuck {
            purchase: repaired(purchase, now),
            last_transform: repaired(last_transform, now),
            cooling: repaired(cooling, now),
        },
        Detail::Other => Detail::Other,
    }
}

/// A building with every moment in it repaired.
pub open spec fn repaired_object(o: ObjectV, now: CfTime) -> ObjectV {
    ObjectV {
        head: Head { detail: repaired_detail(o.head.detail, now), ..o.head },
        gifts: o.gifts,
    }
}

fn repair_detail(d: Detail, now: CfTime) -> (r: Detail)
    requires
        now.is_reading(),
    ensures
        r == repaired_detail(d, now),
{
    match d {
        Detail::Restaurant {
            begin_upgrade,
            last_cool,
            property,
            level,
            construct_value,
            island_value,
        } => Detail::Restaurant {
            begin_upgrade: fix_residue_u32(begin_upgrade, now),
            last_cool: fix_residue_u32(last_cool, now),
            property,
            level,
            construct_value,
            island_value,
        },
        Detail::Shop { begin, shopping, upgrading, level, sale_item, property } => Detail::Shop {
            begin: fix_residue(begin, now),
            shopping,
            upgrading,
            level,
            sale_item,
            property,
        },
        Detail::Apartment { waiting, last_finish } => Detail::Apartment {
            waiting,
            last_finish: fix_residue_u32(last_finish, now),
        },
        Detail::Ship { begin_discover, begin_fix, state, sailing, search_map, on_board } =>
            Detail::Ship {
            begin_discover: fix_residue(begin_discover, now),
            begin_fix: fix_residue(begin_fix, now),
            state,
            sailing,
            search_map,
            on_board,
        },
        Detail::CafeShop { is_new } => Detail::CafeShop { is_new },
        Detail::SuperShellTree { bought } => Detail::SuperShellTree {
            bought: fix_residue_u32(bought, now),
        },
        Detail::Building { begin, cooling, game_cool } => Detail::Building {
            begin: fix_residue(begin, now),
            cooling: fix_residue(cooling, now),
            game_cool: fix_residue(game_cool, now),
        },
        Detail::Spacials { cooling } => Detail::Spacials { cooling: fix_residue(cooling, now) },
        Detail::TransObject { begin } => Detail::TransObject { begin: fix_residue(begin, now) },
        Detail::YellowDuck { purchase, last_transform, cooling } => Detail::YellowDuck {
            purchase: fix_residue(purchase, now),
            last_transform: fix_residue(last_transform, now),
            cooling: fix_residue(cooling, now),
        },
        Detail::Other => Detail::Other,
    }
}

impl MapData {
    /// Repairs every moment stored in the layout.
    pub fn migrate_island_timestamps(&mut self, now: CfTime)
        requires
            now.is_reading(),
        ensures
            same_shape(old(self)@, final(self)@),
            flat(final(self)@) == Seq::new(
                flat(old(self)@).len(),
                |p: int| repaired_object(flat(old(self)@)[p], now),
            ),
    {
        let ghost before = self@;
        let ghost objs = flat(before);
        let all = self.island_all_objects();
        let mut n: usize = 0;
        while n < all.len()
            invariant
                n <= all@.len(),
                now.is_reading(),
                objs == flat(before),
                all@.len() == slots(before).len(),
                forall|q: int|
                    0 <= q < all@.len() ==> slots(before)[q] == ((#[trigger] all@[q]).0 as int, all@[q].1 as int),
                same_shape(before, self@),
                slots(self@) == slots(before),
                forall|q: int|
                    0 <= q < objs.len() ==> #[trigger] flat(self@)[q] == if q < n {
                        repaired_object(objs[q], now)
                    } else {
                        objs[q]
                    },
            decreases all.len() - n,
        {
            let ghost mid = self@;
            let (k, i) = all[n];
            proof {
                lemma_slots_upto(mid, mid.len() as int);
                assert(slots(mid)[n as int] == (k as int, i as int));
                assert(is_slot(mid, k as int, i as int));
                assert(flat(mid)[n as int] == objs[n as int]);
            }
            let detail = self.entries[k].objects[i].head.detail;
            self.entries[k].objects[i].head.detail = repair_detail(detail, now);
            proof {
                let o = repaired_object(objs[n as int], now);
                assert(self@[k as int].objects =~= mid[k as int].objects.update(i as int, o));
                assert(self@ =~= replaced(mid, k as int, i as int, o));
                lemma_replaced_flat(mid, n as int, o);
            }
            n = n + 1;
        }
        assert(flat(self@) =~= Seq::new(objs.len(), |p: int| repaired_object(objs[p], now)));
    }
}

/// Every moment of a building comes out on the 2001 clock, whatever the
/// building is, and nothing else of it changes: levels, counts, durations and
/// marks stay.
pub proof fn law_every_stamp_is_mended(o: ObjectV, now: CfTime)
    requires
        now.is_reading(),
    ensures
        ({
            let p = repaired_object(o, now);
            &&& p.gifts == o.gifts
            &&& p.head.handle == o.head.handle
            &&& p.head.seq_id == o.head.seq_id
            &&& p.head.object_id == o.head.object_id
            &&& p.head.tile_x == o.head.tile_x && p.head.tile_y == o.head.tile_y
            &&& p.head.flip == o.head.flip
            &&& match (o.head.detail, p.head.detail) {
                (
                    Detail::Restaurant {
                        begin_upgrade: a,
                        last_cool: b,
                        property: c,
                        level: d,
                        construct_value: e,
                        island_value: f,
                    },
                    Detail::Restaurant {
                        begin_upgrade,
                        last_cool,
                        property,
                        level,
                        construct_value,
                        island_value,
                    },
                ) => is_mended_whole(a as int, begin_upgrade as int, 0, now) && is_mended_whole(
                    b as int,
                    last_cool as int,
                    0,
                    now,
                ) && c == property && d == level && e == construct_value && f == island_value,
                (
                    Detail::Shop {
                        begin: a,
                        shopping: b,
                        upgrading: c,
                        level: d,
                        sale_item: e,
                        property: f,
                    },
                    Detail::Shop { begin, shopping, upgrading, level, sale_item, property },
                ) => is_mended(a, begin, now) && b == shopping && c == upgrading && d == level && e
                    == sale_item && f == property,
                (
                    Detail::Apartment { waiting: a, last_finish: b },
                    Detail::Apartment { waiting, last_finish },
                ) => a == waiting && is_mended_whole(b as int, last_finish as int, 0, now),
                (
                    Detail::Ship {
                        begin_discover: a,
                        begin_fix: b,
                        state: c,
                        sailing: d,
                        search_map: e,
                        on_board: f,
                    },
                    Detail::Ship { begin_discover, begin_fix, state, sailing, search_map, on_board },
                ) => is_mended(a, begin_discover, now) && is_mended(b, begin_fix, now) && c == state
                    && d == sailing && e == search_map && f == on_board,
                (Detail::CafeShop { is_new: a }, Detail::CafeShop { is_new }) => a == is_new,
                (Detail::SuperShellTree { bought: a }, Detail::SuperShellTree { bought }) =>
                    is_mended_whole(a as int, bought as int, 0, now),
                (
                    Detail::Building { begin: a, cooling: b, game_cool: c },
                    Detail::Building { begin, cooling, game_cool },
                ) => is_mended(a, begin, now) && is_mended(b, cooling, now) && is_mended(
                    c,
                    game_cool,
                    now,
                ),
                (Detail::Spacials { cooling: a }, Detail::Spacials { cooling }) => is_mended(
                    a,
                    cooling,
                    now,
                ),
                (Detail::TransObject { begin: a }, Detail::TransObject { begin }) => is_mended(
                    a,
                    begin,
                    now,
                ),
                (
                    Detail::YellowDuck { purchase: a, last_transform: b, cooling: c },
                    Detail::YellowDuck { purchase, last_transform, cooling },
                ) => is_mended(a, purchase, now) && is_mended(b, last_transform, now) && is_mended(
                    c,
                    cooling,
                    now,
                ),
                (Detail::Other, Detail::Other) => true,
                _ => false,
            }
        }),
{
    assert forall|v: CfTime| is_mended(v, #[trigger] repaired(v, now), now) by {
        lemma_mended(v, now);
    }
    assert forall|u: u32|
        is_mended_whole(u as int, #[trigger] repaired_u32(u, now) as int, 0, now) by {
        law_stamps_are_mended(CfTime { secs: 0, frac: 0 }, u, 0, now);
    }
}

} // verus!
