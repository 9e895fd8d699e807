//! The sequence numbers of the island's buildings. They identify a building
//! within one session and are not part of the saved layout, so they are dealt
//! out anew after loading.

use vstd::prelude::*;
use crate::island::map_data::{
    at, flat, is_slot, lemma_replaced_flat, lemma_slot_listed, lemma_slots_upto, map_has_seq,
    replaced, same_shape, slots, EntryV, MapData, ObjectV, SEQ_BASE,
};

verus! {

/// The highest number among the buildings, at least `floor`.
pub open spec fn highest(objs: Seq<ObjectV>, floor: int) -> int
    decreases objs.len(),
{
    if objs.len() == 0 {
        floor
    } else {
        let rest = highest(objs.drop_last(), floor);
        if objs.last().seq_id() > rest {
            objs.last().seq_id() as int
        } else {
            rest
        }
    }
}

/// How many of the buildings have no number.
pub open spec fn zeros(objs: Seq<ObjectV>) -> int
    decreases objs.len(),
{
    if objs.len() == 0 {
        0
    } else {
        zeros(objs.drop_last()) + if objs.last().seq_id() == 0 { 1int } else { 0 }
    }
}

/// The buildings with numbers dealt out from `base + 1` on, in order, to those
/// that have none.
pub open spec fn numbered(objs: Seq<ObjectV>, base: int) -> Seq<ObjectV> {
    Seq::new(
        objs.len(),
        |p: int|
            if objs[p].seq_id() == 0 {
                objs[p].with_seq((base + zeros(objs.take(p)) + 1) as i32)
            } else {
                objs[p]
            },
    )
}

/// No two buildings share a number other than 0.
pub open spec fn numbers_distinct(objs: Seq<ObjectV>) -> bool {
    forall|p: int, q: int|
        0 <= p < q < objs.len() && (#[trigger] objs[p]).seq_id() != 0
            ==> objs[p].seq_id() != (#[trigger] objs[q]).seq_id()
}

pub proof fn lemma_highest(objs: Seq<ObjectV>, floor: int)
    ensures
        highest(objs, floor) >= floor,
        forall|p: int| 0 <= p < objs.len() ==> (#[trigger] objs[p]).seq_id() <= highest(objs, floor),
        highest(objs, floor) == floor || exists|p: int|
            0 <= p < objs.len() && (#[trigger] objs[p]).seq_id() == highest(objs, floor),
    decreases objs.len(),
{
    if objs.len() > 0 {
        let rest = objs.drop_last();
        lemma_highest(rest, floor);
        assert forall|p: int| 0 <= p < objs.len() implies (#[trigger] objs[p]).seq_id() <= highest(
            objs,
            floor,
        ) by {
            if p < rest.len() {
                assert(rest[p] == objs[p]);
            }
        }
        if highest(objs, floor) != floor {
            if objs.last().seq_id() > highest(rest, floor) {
                assert(objs[objs.len() - 1].seq_id() == highest(objs, floor));
            } else {
                let p = choose|p: int|
                    0 <= p < rest.len() && (#[trigger] rest[p]).seq_id() == highest(rest, floor);
                assert(objs[p].seq_id() == highest(objs, floor));
            }
        }
    }
}

proof fn lemma_zeros_step(objs: Seq<ObjectV>, p: int)
    requires
        0 <= p < objs.len(),
    ensures
        zeros(objs.take(p + 1)) == zeros(objs.take(p)) + if objs[p].seq_id() == 0 { 1int } else { 0 },
{
    assert(objs.take(p + 1).drop_last() =~= objs.take(p));
    assert(objs.take(p + 1).last() == objs[p]);
}

proof fn lemma_zeros_monotone(objs: Seq<ObjectV>, p: int, q: int)
    requires
        0 <= p <= q <= objs.len(),
    ensures
        0 <= zeros(objs.take(p)) <= zeros(objs.take(q)) <= q,
    decreases q,
{
    if q > 0 {
        lemma_zeros_step(objs, q - 1);
        if p < q {
            lemma_zeros_monotone(objs, p, q - 1);
        } else {
            lemma_zeros_monotone(objs, q - 1, q - 1);
        }
    } else {
        assert(objs.take(0) =~= Seq::empty());
    }
}

/// After numbers were dealt out, every building has one, no two share one, and
/// those that had one keep it.
pub proof fn law_numbers_become_unique(objs: Seq<ObjectV>)
    requires
        numbers_distinct(objs),
        highest(objs, SEQ_BASE as int) + zeros(objs) <= i32::MAX,
    ensures
        ({
            let after = numbered(objs, highest(objs, SEQ_BASE as int));
            &&& numbers_distinct(after)
            &&& forall|p: int| 0 <= p < after.len() ==> (#[trigger] after[p]).seq_id() != 0
            &&& forall|p: int|
                0 <= p < after.len() && objs[p].seq_id() != 0 ==> #[trigger] after[p] == objs[p]
        }),
{
    let base = highest(objs, SEQ_BASE as int);
    let after = numbered(objs, base);
    lemma_highest(objs, SEQ_BASE as int);
    assert(objs.take(objs.len() as int) =~= objs);
    assert forall|p: int| 0 <= p < after.len() implies {
        &&& (#[trigger] after[p]).seq_id() != 0
        &&& objs[p].seq_id() == 0 ==> after[p].seq_id() == base + zeros(objs.take(p)) + 1
    } by {
        lemma_zeros_step(objs, p);
        lemma_zeros_monotone(objs, p + 1, objs.len() as int);
        lemma_zeros_monotone(objs, p, p);
    }
    assert forall|p: int, q: int|
        0 <= p < q < after.len() && (#[trigger] after[p]).seq_id() != 0 implies after[p].seq_id()
        != (#[trigger] after[q]).seq_id() by {
        assert(objs[p].seq_id() <= base && objs[q].seq_id() <= base);
        lemma_zeros_step(objs, p);
        lemma_zeros_monotone(objs, p + 1, q);
        lemma_zeros_monotone(objs, 0, p);
        lemma_zeros_monotone(objs, 0, q);
        lemma_zeros_step(objs, q);
        lemma_zeros_monotone(objs, q + 1, objs.len() as int);
    }
}

/// Once the game's counter was raised to the highest number in use, the next
/// number it deals out is new.
pub proof fn law_next_number_is_new(md: Seq<EntryV>, cur: int, next: int)
    requires
        next == raised(md, cur) + 1,
    ensures
        forall|s: i32| s == next ==> !map_has_seq(md, s),
{
    assert forall|s: i32| s == next implies !map_has_seq(md, s) by {
        lemma_highest(flat(md), 0);
        assert forall|k: int, i: int| is_slot(md, k, i) implies #[trigger] at(md, (k, i)).seq_id()
            != s by {
            let p = lemma_slot_listed(md, md.len() as int, k, i);
            assert(flat(md)[p] == at(md, (k, i)));
        }
    }
}

/// The counter's value after it was raised to the highest number in use.
pub open spec fn raised(md: Seq<EntryV>, cur: int) -> int {
    if highest(flat(md), 0) > cur {
        highest(flat(md), 0)
    } else {
        cur
    }
}

impl MapData {
    /// Deals out numbers to the buildings that have none, above 90000 and
    /// above every number in use.
    pub fn assign_island_seqids(&mut self)
        requires
            highest(flat(old(self)@), SEQ_BASE as int) + zeros(flat(old(self)@)) <= i32::MAX,
        ensures
            same_shape(old(self)@, final(self)@),
            flat(final(self)@) == numbered(
                flat(old(self)@),
                highest(flat(old(self)@), SEQ_BASE as int),
            ),
    {
        let ghost before = self@;
        let ghost objs = flat(before);
        let all = self.island_all_objects();
        let mut max_seq: i32 = SEQ_BASE;
        let mut p: usize = 0;
        proof {
            lemma_slots_upto(before, before.len() as int);
            assert(objs.take(0) =~= Seq::empty());
        }
        while p < all.len()
            invariant
                p <= all.len(),
                self@ == before,
                objs == flat(before),
                all@.len() == slots(before).len(),
                forall|q: int|
                    0 <= q < all@.len() ==> slots(before)[q] == ((#[trigger] all@[q]).0 as int, all@[q].1 as int),
                forall|q: int|
                    0 <= q < slots(before).len() ==> is_slot(
                        before,
                        (#[trigger] slots(before)[q]).0,
                        slots(before)[q].1,
                    ),
                max_seq == highest(objs.take(p as int), SEQ_BASE as int),
            decreases all.len() - p,
        {
            let (k, i) = all[p];
            assert(slots(before)[p as int] == (k as int, i as int));
            let seq: i32 = self.entries[k].objects[i].head.seq_id;
            assert(objs[p as int].seq_id() == seq);
            proof {
                assert(objs.take(p + 1).drop_last() =~= objs.take(p as int));
            }
            if seq > max_seq {
                max_seq = seq;
            }
            p = p + 1;
        }
        proof {
            assert(objs.take(objs.len() as int) =~= objs);
        }
        let ghost base: int = max_seq as int;
        let mut n: usize = 0;
        while n < all.len()
            invariant
                n <= all.len(),
                objs == flat(before),
                objs.len() == all@.len(),
                base == highest(objs, SEQ_BASE as int),
                base + zeros(objs) <= i32::MAX,
                same_shape(before, self@),
                slots(self@) == slots(before),
                all@.len() == slots(before).len(),
                forall|q: int|
                    0 <= q < all@.len() ==> slots(before)[q] == ((#[trigger] all@[q]).0 as int, all@[q].1 as int),
                max_seq == base + zeros(objs.take(n as int)),
                forall|q: int|
                    0 <= q < objs.len() ==> #[trigger] flat(self@)[q] == if q < n {
                        numbered(objs, base)[q]
                    } else {
                        objs[q]
                    },
            decreases all.len() - n,
        {
            let ghost now = self@;
            let (k, i) = all[n];
            assert(slots(before)[n as int] == (k as int, i as int));
            proof {
                lemma_slots_upto(now, now.len() as int);
                lemma_zeros_step(objs, n as int);
                lemma_zeros_monotone(objs, n + 1, objs.len() as int);
                assert(objs.take(objs.len() as int) =~= objs);
                assert(flat(now)[n as int] == objs[n as int]);
                assert(is_slot(now, k as int, i as int));
            }
            if self.entries[k].objects[i].head.seq_id == 0 {
                max_seq = max_seq + 1;
                self.entries[k].objects[i].head.seq_id = max_seq;
                proof {
                    let o = objs[n as int].with_seq(max_seq);
                    assert(self@[k as int].objects =~= now[k as int].objects.update(i as int, o));
                    assert(self@ =~= replaced(now, k as int, i as int, o));
                    lemma_replaced_flat(now, n as int, o);
                }
            }
            n = n + 1;
        }
        proof {
            assert(flat(self@) =~= numbered(objs, base));
        }
    }

    /// The game's counter raised to the highest number in use; never lowered.
    pub fn restore_seqid_cursor(&self, cur: u32) -> (r: u32)
        ensures
            r == raised(self@, cur as int),
    {
        let ghost objs = flat(self@);
        let all = self.island_all_objects();
        let mut max_seq: u32 = 0;
        let mut p: usize = 0;
        proof {
            lemma_slots_upto(self@, self@.len() as int);
            assert(objs.take(0) =~= Seq::empty());
        }
        while p < all.len()
            invariant
                p <= all.len(),
                objs == flat(self@),
                all@.len() == slots(self@).len(),
                forall|q: int|
                    0 <= q < all@.len() ==> slots(self@)[q] == ((#[trigger] all@[q]).0 as int, all@[q].1 as int),
                forall|q: int|
                    0 <= q < slots(self@).len() ==> is_slot(
                        self@,
                        (#[trigger] slots(self@)[q]).0,
                        slots(self@)[q].1,
                    ),
                max_seq == highest(objs.take(p as int), 0),
            decreases all.len() - p,
        {
            let (k, i) = all[p];
            assert(slots(self@)[p as int] == (k as int, i as int));
            let seq: i32 = self.entries[k].objects[i].head.seq_id;
            assert(objs[p as int].seq_id() == seq);
            proof {
                assert(objs.take(p + 1).drop_last() =~= objs.take(p as int));
            }
            if seq > 0 && (seq as u32) > max_seq {
                max_seq = seq as u32;
            }
            p = p + 1;
        }
        proof {
            assert(objs.take(objs.len() as int) =~= objs);
        }
        if max_seq > cur {
            max_seq
        } else {
            cur
        }
    }
}

/// The counter becomes the larger of what it was and the highest number in
/// use: it is never lowered, and raising it again changes nothing.
pub proof fn law_counter_is_only_raised(md: Seq<EntryV>, cur: u32)
    ensures
        raised(md, cur as int) >= cur,
        forall|s: i32| #[trigger] map_has_seq(md, s) ==> s <= raised(md, cur as int),
        raised(md, cur as int) == cur || exists|s: i32|
            s == raised(md, cur as int) && #[trigger] map_has_seq(md, s),
        raised(md, raised(md, cur as int)) == raised(md, cur as int),
{
    let objs = flat(md);
    let r = raised(md, cur as int);
    lemma_highest(objs, 0);
    lemma_slots_upto(md, md.len() as int);
    assert forall|s: i32| #[trigger] map_has_seq(md, s) implies s <= r by {
        let (k, i) = choose|k: int, i: int|
            is_slot(md, k, i) && #[trigger] at(md, (k, i)).seq_id() == s;
        let p = lemma_slot_listed(md, md.len() as int, k, i);
        assert(objs[p] == at(md, (k, i)));
    }
    if r != cur {
        let p = choose|p: int| 0 <= p < objs.len() && (#[trigger] objs[p]).seq_id() == highest(objs, 0);
        let (k, i) = slots(md)[p];
        assert(objs[p] == at(md, (k, i)));
        assert(is_slot(md, k, i));
        assert(map_has_seq(md, objs[p].seq_id()));
    }
}

/// Dealt numbers are above 90000 and above every number in use, and rise in the
/// order of the buildings; nothing but the number of a building changes.
pub proof fn law_numbers_are_dealt_in_order(objs: Seq<ObjectV>, p: int, q: int)
    requires
        0 <= p < q < objs.len(),
        highest(objs, SEQ_BASE as int) + zeros(objs) <= i32::MAX,
    ensures
        ({
            let after = numbered(objs, highest(objs, SEQ_BASE as int));
            &&& after.len() == objs.len()
            &&& objs[p].seq_id() != 0 ==> after[p] == objs[p]
            &&& objs[p].seq_id() == 0 ==> after[p].seq_id() > 90000 && after[p].seq_id()
                > objs[q].seq_id()
            &&& objs[q].seq_id() == 0 ==> after[q].seq_id() > 90000 && after[q].seq_id()
                > objs[p].seq_id()
            &&& objs[p].seq_id() == 0 && objs[q].seq_id() == 0 ==> after[p].seq_id()
                < after[q].seq_id()
            &&& after[p].gifts == objs[p].gifts && after[p].head.handle == objs[p].head.handle
                && after[p].head.object_id == objs[p].head.object_id && after[p].head.tile_x
                == objs[p].head.tile_x && after[p].head.tile_y == objs[p].head.tile_y
                && after[p].head.flip == objs[p].head.flip && after[p].head.detail
                == objs[p].head.detail
        }),
{
    lemma_highest(objs, SEQ_BASE as int);
    assert(objs.take(objs.len() as int) =~= objs);
    lemma_zeros_step(objs, p);
    lemma_zeros_step(objs, q);
    lemma_zeros_monotone(objs, 0, p);
    lemma_zeros_monotone(objs, p + 1, q);
    lemma_zeros_monotone(objs, q + 1, objs.len() as int);
    assert(objs[p].seq_id() <= highest(objs, SEQ_BASE as int));
    assert(objs[q].seq_id() <= highest(objs, SEQ_BASE as int));
}

} // verus!
