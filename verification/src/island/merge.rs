//! Buildings placed during a session reach the layout when it is saved.

use vstd::prelude::*;
use crate::island::map_data::{
    appended, entry_of, flat, has_seq, island_class_to_key, keys_distinct, lemma_entry_of,
    slots_upto, EntryV, MapData, MapObject, ObjectV,
};

verus! {

/// A building standing on the island: its kind, and the state the game would
/// save for it, if it saves any.
#[derive(Debug)]
pub struct LiveObject {
    pub object_type: i32,
    pub snap: Option<MapObject>,
}

/// A standing building as a mathematical value.
#[verifier::ext_equal]
pub struct LiveV {
    pub object_type: i32,
    pub snap: Option<ObjectV>,
}

impl View for LiveObject {
    type V = LiveV;

    open spec fn view(&self) -> LiveV {
        LiveV {
            object_type: self.object_type,
            snap: match self.snap {
                Some(o) => Some(o@),
                None => None,
            },
        }
    }
}

/// The standing buildings of a list.
pub open spec fn lives_v(lives: Seq<LiveObject>) -> Seq<LiveV> {
    Seq::new(lives.len(), |i: int| lives[i]@)
}

/// The key a standing building is saved under: that of its class, or else its
/// kind. Nothing for a building without saved state, number or kind.
pub open spec fn merge_key(live: LiveV) -> Option<i32> {
    match live.snap {
        None => None,
        Some(o) => if o.seq_id() == 0 {
            None
        } else {
            match o.head.detail.key() {
                Some(key) => Some(key),
                None => if live.object_type > 0 {
                    Some(live.object_type)
                } else {
                    None
                },
            }
        },
    }
}

/// Whether `key` already holds a building with this number.
pub open spec fn key_has_seq(md: Seq<EntryV>, key: i32, seq_id: i32) -> bool {
    match entry_of(md, key, 0) {
        Some(k) => has_seq(md[k].objects, seq_id),
        None => false,
    }
}

/// Whether a standing building is missing from the layout.
pub open spec fn is_new(md: Seq<EntryV>, live: LiveV) -> bool {
    match merge_key(live) {
        Some(key) => !key_has_seq(md, key, live.snap->0.seq_id()),
        None => false,
    }
}

/// The layout after one standing building was merged in.
pub open spec fn merged_one(md: Seq<EntryV>, live: LiveV) -> Seq<EntryV> {
    if is_new(md, live) {
        appended(md, merge_key(live)->0, live.snap->0)
    } else {
        md
    }
}

/// The layout after the first `n` standing buildings were merged in.
pub open spec fn merged_upto(md: Seq<EntryV>, lives: Seq<LiveV>, n: int) -> Seq<EntryV>
    decreases n,
{
    if n <= 0 {
        md
    } else {
        merged_one(merged_upto(md, lives, n - 1), lives[n - 1])
    }
}

/// How many of the first `n` standing buildings were new.
pub open spec fn merged_count(md: Seq<EntryV>, lives: Seq<LiveV>, n: int) -> int
    decreases n,
{
    if n <= 0 {
        0
    } else {
        merged_count(md, lives, n - 1) + if is_new(merged_upto(md, lives, n - 1), lives[n - 1]) {
            1int
        } else {
            0
        }
    }
}

pub proof fn lemma_merged_count_bound(md: Seq<EntryV>, lives: Seq<LiveV>, n: int)
    requires
        0 <= n,
    ensures
        0 <= merged_count(md, lives, n) <= n,
    decreases n,
{
    if n > 0 {
        lemma_merged_count_bound(md, lives, n - 1);
    }
}

/// Filing a building keeps what every key held, in front, and adds it to its
/// own key.
proof fn lemma_appended(md: Seq<EntryV>, key: i32, o: ObjectV)
    ensures
        ({
            let after = appended(md, key, o);
            &&& md.len() <= after.len()
            &&& forall|k: int|
                0 <= k < md.len() ==> (#[trigger] after[k]).key == md[k].key
                    && md[k].objects.is_prefix_of(after[k].objects)
            &&& key_has_seq(after, key, o.seq_id())
            &&& keys_distinct(md) ==> keys_distinct(after)
        }),
{
    let after = appended(md, key, o);
    lemma_entry_of(md, key, 0);
    lemma_entry_of(after, key, 0);
    match entry_of(md, key, 0) {
        Some(k) => {
            assert forall|j: int| 0 <= j < md.len() implies (#[trigger] after[j]).key == md[j].key
                && md[j].objects.is_prefix_of(after[j].objects) by {
                assert(md[j].objects =~= md[j].objects.subrange(0, md[j].objects.len() as int));
            }
            match entry_of(after, key, 0) {
                Some(k2) => {
                    assert(md[k2].key == key ==> k <= k2);
                    assert(after[k].key == key);
                    assert(k2 == k);
                    assert(after[k].objects[md[k].objects.len() as int].seq_id() == o.seq_id());
                },
                None => {
                    assert(after[k].key == key);
                },
            }
        },
        None => {
            assert forall|j: int| 0 <= j < md.len() implies (#[trigger] after[j]).key == md[j].key
                && md[j].objects.is_prefix_of(after[j].objects) by {
                assert(md[j].objects =~= md[j].objects.subrange(0, md[j].objects.len() as int));
            }
            assert(after[md.len() as int].key == key);
            match entry_of(after, key, 0) {
                Some(k2) => {
                    assert(k2 < md.len() ==> after[k2] == md[k2]);
                    assert(k2 == md.len());
                    assert(after[k2].objects[0].seq_id() == o.seq_id());
                },
                None => {},
            }
        },
    }
}

/// Keys and numbers that a layout holds stay where more is filed.
proof fn lemma_key_has_seq_stays(md: Seq<EntryV>, after: Seq<EntryV>, key: i32, seq_id: i32)
    requires
        md.len() <= after.len(),
        forall|k: int|
            0 <= k < md.len() ==> (#[trigger] after[k]).key == md[k].key
                && md[k].objects.is_prefix_of(after[k].objects),
        key_has_seq(md, key, seq_id),
    ensures
        key_has_seq(after, key, seq_id),
{
    lemma_entry_of(md, key, 0);
    lemma_entry_of(after, key, 0);
    let k = entry_of(md, key, 0)->0;
    let i = choose|i: int|
        0 <= i < md[k].objects.len() && #[trigger] md[k].objects[i].seq_id() == seq_id;
    assert(after[k].key == key);
    let k2 = entry_of(after, key, 0)->0;
    assert(k2 <= k);
    assert(after[k2].key == md[k2].key);
    assert(k2 == k);
    assert(after[k].objects[i] == md[k].objects[i]);
}

/// Merging only ever adds: each key keeps what it held, in front and in order.
pub proof fn law_merge_only_adds(md: Seq<EntryV>, lives: Seq<LiveV>, n: int)
    requires
        0 <= n <= lives.len(),
    ensures
        ({
            let after = merged_upto(md, lives, n);
            &&& md.len() <= after.len()
            &&& forall|k: int|
                0 <= k < md.len() ==> (#[trigger] after[k]).key == md[k].key
                    && md[k].objects.is_prefix_of(after[k].objects)
            &&& keys_distinct(md) ==> keys_distinct(after)
        }),
    decreases n,
{
    if n > 0 {
        law_merge_only_adds(md, lives, n - 1);
        let mid = merged_upto(md, lives, n - 1);
        let live = lives[n - 1];
        let after = merged_upto(md, lives, n);
        if is_new(mid, live) {
            lemma_appended(mid, merge_key(live)->0, live.snap->0);
        }
        assert forall|k: int| 0 <= k < md.len() implies (#[trigger] after[k]).key == md[k].key
            && md[k].objects.is_prefix_of(after[k].objects) by {
            assert(mid[k].key == md[k].key && md[k].objects.is_prefix_of(mid[k].objects));
        }
    } else {
        assert forall|k: int| 0 <= k < md.len() implies md[k].objects.is_prefix_of(
            #[trigger] md[k].objects,
        ) by {
            assert(md[k].objects =~= md[k].objects.subrange(0, md[k].objects.len() as int));
        }
    }
}

/// Every merged building is in the layout afterwards.
proof fn lemma_merged_are_held(md: Seq<EntryV>, lives: Seq<LiveV>, n: int)
    requires
        0 <= n <= lives.len(),
    ensures
        forall|j: int| 0 <= j < n ==> !is_new(merged_upto(md, lives, n), #[trigger] lives[j]),
    decreases n,
{
    if n > 0 {
        lemma_merged_are_held(md, lives, n - 1);
        let mid = merged_upto(md, lives, n - 1);
        let live = lives[n - 1];
        let after = merged_upto(md, lives, n);
        if is_new(mid, live) {
            lemma_appended(mid, merge_key(live)->0, live.snap->0);
            assert forall|j: int| 0 <= j < n implies !is_new(after, #[trigger] lives[j]) by {
                if j < n - 1 {
                    assert(!is_new(mid, lives[j]));
                    if merge_key(lives[j]) is Some {
                        lemma_key_has_seq_stays(
                            mid,
                            after,
                            merge_key(lives[j])->0,
                            lives[j].snap->0.seq_id(),
                        );
                    }
                }
            }
        }
    }
}

proof fn lemma_nothing_new(md: Seq<EntryV>, lives: Seq<LiveV>, n: int)
    requires
        0 <= n <= lives.len(),
        forall|j: int| 0 <= j < lives.len() ==> !is_new(md, #[trigger] lives[j]),
    ensures
        merged_upto(md, lives, n) == md,
        merged_count(md, lives, n) == 0,
    decreases n,
{
    if n > 0 {
        lemma_nothing_new(md, lives, n - 1);
        assert(!is_new(md, lives[n - 1]));
    }
}

/// Saving twice adds nothing the second time.
pub proof fn law_merge_is_idempotent(md: Seq<EntryV>, lives: Seq<LiveV>)
    ensures
        ({
            let n = lives.len() as int;
            let once = merged_upto(md, lives, n);
            merged_upto(once, lives, n) == once && merged_count(once, lives, n) == 0
        }),
{
    let n = lives.len() as int;
    lemma_merged_are_held(md, lives, n);
    lemma_nothing_new(merged_upto(md, lives, n), lives, n);
}

/// How many buildings the entry at place `k` held, none where it is new.
pub open spec fn held(md: Seq<EntryV>, k: int) -> int {
    if k < md.len() {
        md[k].objects.len() as int
    } else {
        0
    }
}

/// One of the first `n` standing buildings stands at place `i` of an entry: it
/// has a number and belongs to the entry's key, and no building before it has
/// the same number.
pub open spec fn added_there(e: EntryV, i: int, lives: Seq<LiveV>, n: int) -> bool {
    &&& e.objects[i].seq_id() != 0
    &&& forall|i2: int| 0 <= i2 < i ==> (#[trigger] e.objects[i2]).seq_id() != e.objects[i].seq_id()
    &&& exists|j: int|
        0 <= j < n && (#[trigger] lives[j]).snap == Some(e.objects[i]) && merge_key(lives[j])
            == Some(e.key)
}

proof fn lemma_slots_grow(a: Seq<EntryV>, b: Seq<EntryV>, k: int, n: int)
    requires
        0 <= n <= a.len(),
        a.len() <= b.len(),
        forall|j: int|
            0 <= j < a.len() ==> (#[trigger] b[j]).objects.len() == a[j].objects.len() + if j == k {
                1int
            } else {
                0
            },
    ensures
        slots_upto(b, n).len() == slots_upto(a, n).len() + if 0 <= k < n {
            1int
        } else {
            0
        },
    decreases n,
{
    if n > 0 {
        lemma_slots_grow(a, b, k, n - 1);
        assert(b[n - 1].objects.len() == a[n - 1].objects.len() + if n - 1 == k {
            1int
        } else {
            0
        });
    }
}

proof fn lemma_appended_count(md: Seq<EntryV>, key: i32, o: ObjectV)
    ensures
        flat(appended(md, key, o)).len() == flat(md).len() + 1,
{
    let after = appended(md, key, o);
    lemma_entry_of(md, key, 0);
    match entry_of(md, key, 0) {
        Some(k) => {
            lemma_slots_grow(md, after, k, md.len() as int);
        },
        None => {
            lemma_slots_grow(md, after, -1, md.len() as int);
            assert(after[md.len() as int].objects.len() == 1);
        },
    }
}

proof fn lemma_added(md: Seq<EntryV>, lives: Seq<LiveV>, n: int)
    requires
        0 <= n <= lives.len(),
    ensures
        ({
            let after = merged_upto(md, lives, n);
            &&& flat(after).len() == flat(md).len() + merged_count(md, lives, n)
            &&& forall|k: int, i: int|
                0 <= k < after.len() && held(md, k) <= i < after[k].objects.len()
                    ==> #[trigger] added_there(after[k], i, lives, n)
        }),
    decreases n,
{
    if n > 0 {
        lemma_added(md, lives, n - 1);
        law_merge_only_adds(md, lives, n - 1);
        let mid = merged_upto(md, lives, n - 1);
        let live = lives[n - 1];
        let after = merged_upto(md, lives, n);
        if is_new(mid, live) {
            let key = merge_key(live)->0;
            let o = live.snap->0;
            lemma_appended(mid, key, o);
            lemma_appended_count(mid, key, o);
            lemma_entry_of(mid, key, 0);
        }
        assert forall|k: int, i: int|
            0 <= k < after.len() && held(md, k) <= i < after[k].objects.len() implies #[trigger] added_there(
            after[k],
            i,
            lives,
            n,
        ) by {
            if k < mid.len() && i < mid[k].objects.len() {
                assert(added_there(mid[k], i, lives, n - 1));
                let j = choose|j: int|
                    0 <= j < n - 1 && (#[trigger] lives[j]).snap == Some(mid[k].objects[i])
                        && merge_key(lives[j]) == Some(mid[k].key);
                assert(lives[j].snap == Some(after[k].objects[i]));
                assert forall|i2: int| 0 <= i2 < i implies (#[trigger] after[k].objects[i2]).seq_id()
                    != after[k].objects[i].seq_id() by {
                    assert(after[k].objects[i2] == mid[k].objects[i2]);
                }
            } else {
                assert(live.snap == Some(after[k].objects[i]));
                assert(merge_key(lives[n - 1]) == Some(after[k].key));
                assert forall|i2: int| 0 <= i2 < i implies (#[trigger] after[k].objects[i2]).seq_id()
                    != after[k].objects[i].seq_id() by {
                    assert(after[k].objects[i2] == mid[k].objects[i2]);
                }
            }
        }
    }
}

/// What merging adds is exactly what is new: the count is that of the buildings
/// added; what was there keeps its value and its place; each building added
/// comes from the standing ones, under its own key, with a number that the key
/// did not hold. A building without saved state, without a number, or with
/// neither a class nor a kind to file it under is passed over. Merging again
/// adds nothing.
pub proof fn law_merge_adds_what_is_new(md: Seq<EntryV>, lives: Seq<LiveV>)
    ensures
        ({
            let n = lives.len() as int;
            let after = merged_upto(md, lives, n);
            &&& flat(after).len() == flat(md).len() + merged_count(md, lives, n)
            &&& md.len() <= after.len()
            &&& forall|k: int|
                0 <= k < md.len() ==> (#[trigger] after[k]).key == md[k].key
                    && md[k].objects.is_prefix_of(after[k].objects)
            &&& forall|k: int, i: int|
                0 <= k < after.len() && held(md, k) <= i < after[k].objects.len()
                    ==> #[trigger] added_there(after[k], i, lives, n)
            &&& merged_upto(after, lives, n) == after
            &&& merged_count(after, lives, n) == 0
        }),
        forall|j: int, at: Seq<EntryV>|
            0 <= j < lives.len() && (lives[j].snap is None || lives[j].snap->0.seq_id() == 0 || (
            lives[j].snap->0.head.detail.key() is None && lives[j].object_type <= 0))
                ==> #[trigger] merged_one(at, lives[j]) == at,
{
    lemma_added(md, lives, lives.len() as int);
    law_merge_only_adds(md, lives, lives.len() as int);
    law_merge_is_idempotent(md, lives);
}

impl MapData {
    fn key_holds(&self, key: i32, seq_id: i32) -> (r: bool)
        ensures
            r == key_has_seq(self@, key, seq_id),
    {
        let mut k: usize = 0;
        while k < self.entries.len()
            invariant
                k <= self.entries.len(),
                entry_of(self@, key, 0) == entry_of(self@, key, k as int),
            decreases self.entries.len() - k,
        {
            assert(self@[k as int].key == self.entries@[k as int].key);
            if self.entries[k].key == key {
                let mut i: usize = 0;
                while i < self.entries[k].objects.len()
                    invariant
                        k < self.entries.len(),
                        i <= self.entries[k as int].objects.len(),
                        entry_of(self@, key, 0) == Some(k as int),
                        forall|j: int|
                            0 <= j < i ==> #[trigger] self@[k as int].objects[j].seq_id() != seq_id,
                    decreases self.entries[k as int].objects.len() - i,
                {
                    if self.entries[k].objects[i].head.seq_id == seq_id {
                        assert(self@[k as int].objects[i as int].seq_id() == seq_id);
                        return true;
                    }
                    i = i + 1;
                }
                return false;
            }
            k = k + 1;
        }
        false
    }

    /// Adds the standing buildings that the layout lacks; says how many.
    pub fn merge_new_island_objects_into_mapdata(&mut self, lives: Vec<LiveObject>) -> (merged: usize)
        ensures
            final(self)@ == merged_upto(old(self)@, lives_v(lives@), lives@.len() as int),
            merged == merged_count(old(self)@, lives_v(lives@), lives@.len() as int),
    {
        let ghost before = self@;
        let ghost all = lives_v(lives@);
        let mut lives = lives;
        let mut merged: usize = 0;
        let mut n: usize = 0;
        while n < lives.len()
            invariant
                n <= lives.len(),
                lives@.len() == all.len(),
                forall|j: int| n <= j < all.len() ==> lives@[j]@ == #[trigger] all[j],
                self@ == merged_upto(before, all, n as int),
                merged == merged_count(before, all, n as int),
                merged <= n,
            decreases lives.len() - n,
        {
            proof {
                lemma_merged_count_bound(before, all, n + 1);
                assert(lives@[n as int]@ == all[n as int]);
            }
            let object_type: i32 = lives[n].object_type;
            let snap = lives[n].snap.take();
            n = n + 1;
            if let Some(o) = snap {
                let seq_id: i32 = o.head.seq_id;
                if seq_id == 0 {
                    continue;
                }
                let key: i32 = match island_class_to_key(&o) {
                    Some(key) => key,
                    None => {
                        if object_type <= 0 {
                            continue;
                        }
                        object_type
                    },
                };
                if !self.key_holds(key, seq_id) {
                    self.island_put_append(key, o);
                    merged = merged + 1;
                }
            }
        }
        merged
    }
}

/// The key a standing building is saved under: 28 for a shop, 29 for a
/// restaurant, 32 for an apartment house, 39 for a ship, 40 for a shell tree, 41
/// for a cafe, and the kind of any other. A building without saved state or
/// number is not saved, nor one of a class without a key whose kind is not
/// above zero. One is new if its key holds none with its number.
pub proof fn law_standing_buildings_are_filed(md: Seq<EntryV>, live: LiveV, k: int)
    ensures
        live.snap is None ==> merge_key(live) is None,
        live.snap is Some ==> {
            let o = live.snap->0;
            let d = o.head.detail;
            let numbered = o.head.seq_id != 0;
            &&& !numbered ==> merge_key(live) is None
            &&& numbered && d is Shop ==> merge_key(live) == Some(28i32)
            &&& numbered && d is Restaurant ==> merge_key(live) == Some(29i32)
            &&& numbered && d is Apartment ==> merge_key(live) == Some(32i32)
            &&& numbered && d is Ship ==> merge_key(live) == Some(39i32)
            &&& numbered && d is SuperShellTree ==> merge_key(live) == Some(40i32)
            &&& numbered && d is CafeShop ==> merge_key(live) == Some(41i32)
            &&& numbered && (d is Building || d is Spacials || d is TransObject || d is YellowDuck
                || d is Other) ==> merge_key(live) == if live.object_type > 0 {
                Some(live.object_type)
            } else {
                None
            }
            &&& is_new(md, live) && 0 <= k < md.len() && Some(md[k].key) == merge_key(live) && (
            forall|j: int| 0 <= j < k ==> (#[trigger] md[j]).key != md[k].key) ==> !has_seq(
                md[k].objects,
                o.head.seq_id,
            )
            &&& merge_key(live) is Some && !is_new(md, live) ==> exists|j: int|
                0 <= j < md.len() && Some((#[trigger] md[j]).key) == merge_key(live) && has_seq(
                    md[j].objects,
                    o.head.seq_id,
                )
        },
{
    if live.snap is Some && merge_key(live) is Some {
        lemma_entry_of(md, merge_key(live)->0, 0);
    }
}

} // verus!
